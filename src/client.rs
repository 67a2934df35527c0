//! Limits enforced by the remote service, the error taxonomy, and the
//! credentials that address one webhook.

use vstd::prelude::*;
use vstd::utf8::{decode_utf8, valid_utf8};

verus! {

/// Size ceilings enforced by the remote service.
pub struct Limit;

impl Limit {
    /// Maximum amount of embeds allowed on a single message.
    pub const EMBEDS: usize = 10;
    /// Maximum amount of fields on a single embed.
    pub const FIELDS: usize = 25;
    /// Maximum length of a username override for a message.
    pub const USERNAME: usize = 80;
    /// Maximum length of content for a message.
    pub const CONTENT: usize = 2000;
    /// Maximum length of the author name on an embed.
    pub const AUTHOR_NAME: usize = 256;
    /// Maximum length of the title on an embed.
    pub const TITLE: usize = 256;
    /// Maximum length of the description on an embed.
    pub const DESCRIPTION: usize = 4096;
    /// Maximum length of a field name on an embed.
    pub const FIELD_NAME: usize = 256;
    /// Maximum length of a field value on an embed.
    pub const FIELD_VALUE: usize = 1024;
    /// Maximum length of footer text on an embed.
    pub const FOOTER_TEXT: usize = 2048;
    /// Maximum total characters over the embeds of a message.
    pub const EMBED_TOTAL: usize = 6000;
}

/// The errors that an exchange with the remote service, or a local size
/// check, can produce.
#[derive(Debug, PartialEq, Eq)]
pub enum WebhookError {
    /// The remote service answered with a status other than 200 or 204.
    BadStatus(String),
    /// The remote service answered with 204 (no content).
    NoContent,
    /// A local failure unrelated to a status code.
    Unknown(String),
    /// A response body did not match the expected schema.
    BadParse(String),
    /// A component of an outbound payload is over its ceiling: the name of
    /// the component, its size and the ceiling.
    TooBig(String, usize, usize),
}

/// The mathematical content of a `WebhookError`.
pub enum Failure {
    BadStatus(Seq<char>),
    NoContent,
    Unknown(Seq<char>),
    BadParse(Seq<char>),
    TooBig(Seq<char>, nat, nat),
}

impl View for WebhookError {
    type V = Failure;

    open spec fn view(&self) -> Failure {
        match self {
            WebhookError::BadStatus(s) => Failure::BadStatus(s@),
            WebhookError::NoContent => Failure::NoContent,
            WebhookError::Unknown(s) => Failure::Unknown(s@),
            WebhookError::BadParse(s) => Failure::BadParse(s@),
            WebhookError::TooBig(s, size, max) => Failure::TooBig(s@, *size as nat, *max as nat),
        }
    }
}

/// The error for a component `name` of size `size` over the ceiling `max`.
pub fn too_big(name: &str, size: usize, max: usize) -> (r: WebhookError)
    ensures
        r@ == Failure::TooBig(name@, size as nat, max as nat),
{
    WebhookError::TooBig(String::from_str(name), size, max)
}

/// The content of a result that counts characters.
pub open spec fn counted(r: Result<usize, WebhookError>) -> Result<nat, Failure> {
    match r {
        Ok(n) => Ok(n as nat),
        Err(e) => Err(e@),
    }
}

/// Base URI of the webhook resources.
pub const ROOT_URI: &'static str = "https://discord.com/api/v10/webhooks";

/// The decimal digit `d`.
pub open spec fn digit_char(d: nat) -> char {
    "0123456789"@[d as int]
}

/// The decimal notation of `n`, without leading zeros.
pub open spec fn decimal_text(n: nat) -> Seq<char>
    decreases n,
{
    if n < 10 {
        seq![digit_char(n)]
    } else {
        decimal_text(n / 10).push(digit_char(n % 10))
    }
}

/// The text of the decimal digit `d`.
fn digit_text(d: usize) -> (r: &'static str)
    requires
        d < 10,
    ensures
        r@ == seq![digit_char(d as nat)],
{
    let digits = "0123456789";
    proof {
        reveal_strlit("0123456789");
    }
    let r = digits.substring_char(d, d + 1);
    assert(r@ =~= seq![digit_char(d as nat)]);
    r
}

/// The decimal notation of `n`.
pub fn decimal(n: usize) -> (r: String)
    ensures
        r@ == decimal_text(n as nat),
    decreases n,
{
    if n < 10 {
        String::from_str(digit_text(n))
    } else {
        let mut r = decimal(n / 10);
        r.append(digit_text(n % 10));
        r
    }
}

/// The text of an error, as a person reads it.
pub open spec fn failure_text(f: Failure) -> Seq<char> {
    match f {
        Failure::BadStatus(v) => "bad status: "@ + v,
        Failure::BadParse(v) => "bad parse: "@ + v,
        Failure::Unknown(v) => "unknown: "@ + v,
        Failure::NoContent => "no content."@,
        Failure::TooBig(v, size, max) => v + " exceeded max character count, "@ + decimal_text(size)
            + " of "@ + decimal_text(max),
    }
}

impl WebhookError {
    /// Describes the error in words.
    pub fn describe(&self) -> (r: String)
        ensures
            r@ == failure_text(self@),
    {
        match self {
            WebhookError::BadStatus(v) => String::from_str("bad status: ").concat(v.as_str()),
            WebhookError::BadParse(v) => String::from_str("bad parse: ").concat(v.as_str()),
            WebhookError::Unknown(v) => String::from_str("unknown: ").concat(v.as_str()),
            WebhookError::NoContent => String::from_str("no content."),
            WebhookError::TooBig(v, size, max) => {
                let mut r = v.clone();
                r.append(" exceeded max character count, ");
                r.append(decimal(*size).as_str());
                r.append(" of ");
                r.append(decimal(*max).as_str());
                r
            },
        }
    }
}

/// The identity and secret token of one webhook, which together address it.
pub struct Client {
    /// ID of the webhook.
    pub id: String,
    /// Secret token of the webhook.
    pub token: String,
}

impl Clone for Client {
    fn clone(&self) -> (r: Self)
        ensures
            r.id@ == self.id@,
            r.token@ == self.token@,
    {
        Client { id: self.id.clone(), token: self.token.clone() }
    }
}

/// The pieces of `s` between occurrences of `sep`, in order, as `str::split`
/// yields them: one more piece than there are separators.
pub open spec fn split_on(s: Seq<char>, sep: char) -> Seq<Seq<char>>
    decreases s.len(),
{
    if s.len() == 0 {
        seq![Seq::empty()]
    } else {
        let rest = split_on(s.drop_last(), sep);
        if s.last() == sep {
            rest.push(Seq::empty())
        } else {
            rest.update(rest.len() - 1, rest.last().push(s.last()))
        }
    }
}

/// The base endpoint of the webhook with the given id and token.
pub open spec fn base_url(id: Seq<char>, token: Seq<char>) -> Seq<char> {
    ROOT_URI@ + "/"@ + id + "/"@ + token
}

/// Collects the characters of `s`.
fn chars_of(s: &str) -> (r: Vec<char>)
    ensures
        r@ == s@,
{
    let mut r: Vec<char> = Vec::new();
    for c in it: s.chars()
        invariant
            r@ == it.seq().take(it.index() as int),
            it.seq() == s@,
    {
        r.push(c);
    }
    r
}

impl Client {
    /// Creates the client of the webhook with the given id and token.
    pub fn new(webhook_id: &str, webhook_token: &str) -> (r: Self)
        ensures
            r.id@ == webhook_id@,
            r.token@ == webhook_token@,
    {
        Client { id: String::from_str(webhook_id), token: String::from_str(webhook_token) }
    }

    /// The base endpoint: the root, then the id, then the token.
    pub fn url(&self) -> (r: String)
        ensures
            r@ == base_url(self.id@, self.token@),
    {
        let mut r = String::from_str(ROOT_URI);
        r.append("/");
        r.append(self.id.as_str());
        r.append("/");
        r.append(self.token.as_str());
        r
    }

    /// The address of `endpoint` under the base endpoint.
    pub fn endpoint(&self, endpoint: &str) -> (r: String)
        ensures
            r@ == base_url(self.id@, self.token@) + endpoint@,
    {
        self.url().concat(endpoint)
    }

    /// Reads the id and token from a full webhook URL: the URL is split on
    /// `/`, and the last two pieces are the id and the token. Fewer than
    /// seven pieces is a parse error.
    pub fn from_url(url: &str) -> (r: Result<Client, WebhookError>)
        ensures
            match r {
                Ok(c) => url_credentials(url@) == Some((c.id@, c.token@)),
                Err(e) => url_credentials(url@) is None && e@ == Failure::BadParse("webhook url"@),
            },
    {
        let chars = chars_of(url);
        let n = chars.len();
        let ghost s = url@;
        let mut slashes: usize = 0;
        let mut prev: usize = 0;
        let mut last: usize = 0;
        let mut i: usize = 0;
        while i < n
            invariant
                n == s.len(),
                chars@ == s,
                i <= n,
                prev <= last <= i,
                slashes <= i,
                split_on(s.take(i as int), '/').len() == slashes + 1,
                split_on(s.take(i as int), '/').last() == s.subrange(last as int, i as int),
                slashes >= 1 ==> prev < last && split_on(s.take(i as int), '/')[slashes - 1]
                    == s.subrange(prev as int, last - 1),
            decreases n - i,
        {
            assert(s.take(i + 1).drop_last() =~= s.take(i as int));
            if chars[i] == '/' {
                prev = last;
                last = i + 1;
                slashes = slashes + 1;
                assert(s.subrange(last as int, i + 1) =~= Seq::<char>::empty());
            } else {
                assert(s.subrange(last as int, i + 1) =~= s.subrange(last as int, i as int).push(
                    chars[i as int],
                ));
            }
            i = i + 1;
        }
        assert(s.take(n as int) =~= s);
        if slashes < 6 {
            return Err(WebhookError::BadParse(String::from_str("webhook url")));
        }
        let id = url.substring_char(prev, last - 1);
        let token = url.substring_char(last, n);
        Ok(Client { id: String::from_str(id), token: String::from_str(token) })
    }
}

/// The id and token that a full webhook URL names: the last two of its
/// `/`-separated pieces, where there are at least seven.
pub open spec fn url_credentials(url: Seq<char>) -> Option<(Seq<char>, Seq<char>)> {
    let parts = split_on(url, '/');
    if parts.len() < 7 {
        None
    } else {
        Some((parts[parts.len() - 2], parts[parts.len() - 1]))
    }
}

/// The content of a result whose error is a `WebhookError`.
pub open spec fn outcome<T: View>(r: Result<T, WebhookError>) -> Result<T::V, Failure> {
    match r {
        Ok(v) => Ok(v@),
        Err(e) => Err(e@),
    }
}

/// What the status of a reply means: `None` is a request that got no status
/// at all; 200 asks for the body to be read; 204 and any other status are
/// errors.
pub open spec fn status_outcome(status: Option<u16>) -> Result<(), Failure> {
    match status {
        None => Err(Failure::Unknown("request to API"@)),
        Some(code) => if code == 200 {
            Ok(())
        } else if code == 204 {
            Err(Failure::NoContent)
        } else {
            Err(Failure::BadStatus("Status Code: "@ + decimal_text(code as nat)))
        },
    }
}

/// What the body of a 200 reply yields: `None` is a body that could not be
/// read; bytes that are not UTF-8 are an error too.
pub open spec fn body_outcome(body: Option<Seq<u8>>) -> Result<Seq<char>, Failure> {
    match body {
        None => Err(Failure::Unknown("unable to convert http body"@)),
        Some(b) => if valid_utf8(b) {
            Ok(decode_utf8(b))
        } else {
            Err(Failure::Unknown("unable to convert to json"@))
        },
    }
}

/// Relies on `String::from_utf8`: it succeeds exactly on valid UTF-8, and the
/// string then holds the characters that the bytes encode.
#[verifier::external_body]
fn utf8_text(bytes: Vec<u8>) -> (r: Option<String>)
    ensures
        r is Some <==> valid_utf8(bytes@),
        r matches Some(s) ==> s@ == decode_utf8(bytes@),
{
    String::from_utf8(bytes).ok()
}

/// Classifies the status of a reply; `None` stands for a request that
/// failed before a status was read. `Ok` means the body is to be read.
pub fn check_status(status: Option<u16>) -> (r: Result<(), WebhookError>)
    ensures
        outcome(r) == status_outcome(status),
{
    match status {
        None => Err(WebhookError::Unknown(String::from_str("request to API"))),
        Some(code) => if code == 200 {
            Ok(())
        } else if code == 204 {
            Err(WebhookError::NoContent)
        } else {
            let text = String::from_str("Status Code: ").concat(decimal(code as usize).as_str());
            Err(WebhookError::BadStatus(text))
        },
    }
}

/// Turns the body of a 200 reply into text; `None` stands for a body that
/// could not be read.
pub fn decode_body(body: Option<Vec<u8>>) -> (r: Result<String, WebhookError>)
    ensures
        outcome(r) == body_outcome(
            match body {
                Some(b) => Some(b@),
                None => None,
            },
        ),
{
    match body {
        None => Err(WebhookError::Unknown(String::from_str("unable to convert http body"))),
        Some(b) => match utf8_text(b) {
            Some(text) => Ok(text),
            None => Err(WebhookError::Unknown(String::from_str("unable to convert to json"))),
        },
    }
}

/// The result of a delete request: the service signals a deletion by a 204
/// reply, so `NoContent` counts as success; every other error is passed on.
pub fn deletion_result(sent: Result<String, WebhookError>) -> (r: Result<(), WebhookError>)
    ensures
        match sent {
            Ok(_) => r is Ok,
            Err(WebhookError::NoContent) => r is Ok,
            Err(e) => r == Err::<(), WebhookError>(e),
        },
{
    match sent {
        Ok(_) => Ok(()),
        Err(WebhookError::NoContent) => Ok(()),
        Err(e) => Err(e),
    }
}

} // verus!
