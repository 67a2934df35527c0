//! Messages: the response the service returns, and the builder of an
//! outbound message with its size check.

use crate::client::{counted, too_big, Failure, Limit, WebhookError};
use crate::embed::{text_of, opt_len, Embed, EmbedModel};
use vstd::prelude::*;

verus! {

/// A message as the remote service returns it after creating, fetching or
/// editing it.
pub struct Message {
    /// ID of the message.
    pub id: String,
    /// ID of the channel the message was sent in.
    pub channel_id: String,
    /// Contents of the message.
    pub content: String,
    /// When the message was sent.
    pub timestamp: String,
    /// When the message was last edited.
    pub edited_timestamp: Option<String>,
    /// Whether this is a text-to-speech message.
    pub tts: bool,
    /// Whether the message mentions everyone.
    pub mention_everyone: bool,
    /// Embedded content.
    pub embeds: Vec<Embed>,
    /// Whether the message is pinned.
    pub pinned: bool,
    /// ID of the webhook that sent the message.
    pub webhook_id: String,
    /// Type of the message.
    pub message_type: u8,
}

/// An outbound message. At least one of content or embeds should be set for
/// the service to accept it; that is left to the service to decide.
pub struct MessageBuilder {
    /// Overrides the default username of the webhook.
    pub username: Option<String>,
    /// The message contents.
    pub content: Option<String>,
    /// Whether this is a text-to-speech message.
    pub tts: Option<bool>,
    /// Embedded rich content, in order.
    pub embeds: Vec<Embed>,
}

/// The content of a `MessageBuilder`.
pub struct BuilderModel {
    pub username: Option<Seq<char>>,
    pub content: Option<Seq<char>>,
    pub tts: Option<bool>,
    pub embeds: Seq<EmbedModel>,
}

impl View for MessageBuilder {
    type V = BuilderModel;

    open spec fn view(&self) -> BuilderModel {
        BuilderModel {
            username: text_of(self.username),
            content: text_of(self.content),
            tts: self.tts,
            embeds: self.embeds.deep_view(),
        }
    }
}

/// Checks the embeds in order. Yields the sum of their character counts, or
/// the first error one of them reports.
pub open spec fn embeds_check(es: Seq<EmbedModel>) -> Result<nat, Failure>
    decreases es.len(),
{
    if es.len() == 0 {
        Ok(0)
    } else {
        match embeds_check(es.drop_last()) {
            Err(e) => Err(e),
            Ok(total) => match es.last().validation() {
                Err(e) => Err(e),
                Ok(n) => Ok(total + n),
            },
        }
    }
}

impl BuilderModel {
    /// A message with nothing set and no embeds.
    pub open spec fn empty() -> BuilderModel {
        BuilderModel { username: None, content: None, tts: None, embeds: Seq::empty() }
    }

    /// The outcome of checking this message against the limits: username,
    /// content, each embed in order, and last the sum over the embeds. The
    /// first failure is reported; otherwise the sum over the embeds.
    pub open spec fn validation(self) -> Result<nat, Failure> {
        let username = opt_len(self.username);
        let content = opt_len(self.content);
        if username > Limit::USERNAME {
            Err(Failure::TooBig("username"@, username, Limit::USERNAME as nat))
        } else if content > Limit::CONTENT {
            Err(Failure::TooBig("content"@, content, Limit::CONTENT as nat))
        } else {
            match embeds_check(self.embeds) {
                Err(e) => Err(e),
                Ok(total) => if total > Limit::EMBED_TOTAL {
                    Err(Failure::TooBig("embed"@, total, Limit::EMBED_TOTAL as nat))
                } else {
                    Ok(total)
                },
            }
        }
    }
}

/// A checked embed holds no more characters than the total ceiling.
proof fn lemma_embed_count_bounded(e: EmbedModel)
    ensures
        e.validation() matches Ok(n) ==> n <= Limit::EMBED_TOTAL,
{
}

/// Once a prefix of the embeds fails, every longer prefix fails the same way.
proof fn lemma_embeds_check_error_persists(es: Seq<EmbedModel>, k: int)
    requires
        0 <= k <= es.len(),
        embeds_check(es.take(k)) is Err,
    ensures
        embeds_check(es) == embeds_check(es.take(k)),
    decreases es.len() - k,
{
    if k < es.len() {
        assert(es.take(k + 1).drop_last() =~= es.take(k));
        lemma_embeds_check_error_persists(es, k + 1);
    } else {
        assert(es.take(k) =~= es);
    }
}

impl MessageBuilder {
    /// Checks the message against the limits and returns the number of
    /// characters over all its embeds. Reports the first failure, in the
    /// order username, content, each embed, total over the embeds. The sum
    /// over the embeds must fit a `usize`, which bounds their number: on a
    /// 64-bit target no vector in memory holds that many embeds, while on a
    /// smaller one the bound is a real limit, and callers check it first.
    pub fn validate(&self) -> (r: Result<usize, WebhookError>)
        requires
            self@.embeds.len() <= usize::MAX / Limit::EMBED_TOTAL,
        ensures
            counted(r) == self@.validation(),
    {
        let username: usize = match &self.username {
            Some(v) => v.as_str().unicode_len(),
            None => 0,
        };
        if username > Limit::USERNAME {
            return Err(too_big("username", username, Limit::USERNAME));
        }
        let content: usize = match &self.content {
            Some(v) => v.as_str().unicode_len(),
            None => 0,
        };
        if content > Limit::CONTENT {
            return Err(too_big("content", content, Limit::CONTENT));
        }
        let ghost es = self@.embeds;
        let count = self.embeds.len();
        let mut total: usize = 0;
        let mut i: usize = 0;
        while i < count
            invariant
                count == self.embeds@.len(),
                count <= usize::MAX / Limit::EMBED_TOTAL,
                es == self@.embeds,
                username == opt_len(self@.username) && username <= Limit::USERNAME,
                content == opt_len(self@.content) && content <= Limit::CONTENT,
                i <= count,
                total <= i * 6000,
                embeds_check(es.take(i as int)) == Ok::<nat, Failure>(total as nat),
            decreases count - i,
        {
            let embed = &self.embeds[i];
            assert(es.take(i + 1).drop_last() =~= es.take(i as int));
            assert(es.take(i + 1).last() == embed@);
            match embed.validate() {
                Ok(n) => {
                    proof {
                        lemma_embed_count_bounded(embed@);
                    }
                    assert(total + n <= (i + 1) * 6000 <= usize::MAX) by (nonlinear_arith)
                        requires
                            total <= i * 6000,
                            n <= 6000,
                            i < count,
                            count <= usize::MAX / 6000,
                    ;
                    total = total + n;
                },
                Err(e) => {
                    proof {
                        lemma_embeds_check_error_persists(es, i + 1);
                    }
                    return Err(e);
                },
            }
            i = i + 1;
        }
        assert(es.take(count as int) =~= es);
        if total > Limit::EMBED_TOTAL {
            return Err(too_big("embed", total, Limit::EMBED_TOTAL));
        }
        Ok(total)
    }

    /// Creates a message with nothing set and no embeds.
    pub fn new() -> (r: Self)
        ensures
            r@ == BuilderModel::empty(),
    {
        let r = MessageBuilder { username: None, content: None, tts: None, embeds: Vec::new() };
        assert(r.embeds.deep_view() =~= Seq::<EmbedModel>::empty());
        r
    }

    /// Starts a message from one the service returned, to edit it: the
    /// content and the embeds are carried over, nothing else.
    pub fn from(message: &Message) -> (r: Self)
        ensures
            r@ == (BuilderModel {
                content: Some(message.content@),
                embeds: message.embeds.deep_view(),
                ..BuilderModel::empty()
            }),
    {
        let embeds = message.embeds.clone();
        assert(embeds.deep_view() =~= message.embeds.deep_view());
        MessageBuilder {
            username: None,
            content: Some(message.content.clone()),
            tts: None,
            embeds,
        }
    }

    /// Overrides the username. The username is set either way; a username
    /// over its ceiling is reported, and `validate` reports it again.
    pub fn username(&mut self, username: &str) -> (r: Result<(), WebhookError>)
        ensures
            final(self)@ == (BuilderModel { username: Some(username@), ..old(self)@ }),
            r is Ok <==> username@.len() <= Limit::USERNAME,
            r matches Err(e) ==> e@ == Failure::TooBig(
                "username"@,
                username@.len(),
                Limit::USERNAME as nat,
            ),
    {
        self.username = Some(String::from_str(username));
        let n = username.unicode_len();
        if n > Limit::USERNAME {
            return Err(too_big("username", n, Limit::USERNAME));
        }
        Ok(())
    }

    /// Sets the content. The content is set either way; content over its
    /// ceiling is reported, and `validate` reports it again.
    pub fn content(&mut self, content: &str) -> (r: Result<(), WebhookError>)
        ensures
            final(self)@ == (BuilderModel { content: Some(content@), ..old(self)@ }),
            r is Ok <==> content@.len() <= Limit::CONTENT,
            r matches Err(e) ==> e@ == Failure::TooBig(
                "content"@,
                content@.len(),
                Limit::CONTENT as nat,
            ),
    {
        self.content = Some(String::from_str(content));
        let n = content.unicode_len();
        if n > Limit::CONTENT {
            return Err(too_big("content", n, Limit::CONTENT));
        }
        Ok(())
    }

    /// Sets whether this is a text-to-speech message.
    pub fn tts(&mut self, tts: bool)
        ensures
            final(self)@ == (BuilderModel { tts: Some(tts), ..old(self)@ }),
    {
        self.tts = Some(tts);
    }

    /// Appends an embed while the message holds fewer than the most embeds
    /// allowed; past that the embed is dropped, and the message is left as
    /// it was.
    pub fn embed(&mut self, embed: Embed) -> (r: &mut Self)
        ensures
            (*r)@ == (if old(self)@.embeds.len() < Limit::EMBEDS {
                BuilderModel { embeds: old(self)@.embeds.push(embed@), ..old(self)@ }
            } else {
                old(self)@
            }),
            *final(self) == *final(r),
    {
        if self.embeds.len() < Limit::EMBEDS {
            let ghost e = embed@;
            self.embeds.push(embed);
            assert(self.embeds.deep_view() =~= old(self).embeds.deep_view().push(e));
        }
        self
    }
}

impl Default for MessageBuilder {
    fn default() -> (r: Self)
        ensures
            r@ == BuilderModel::empty(),
    {
        MessageBuilder::new()
    }
}

/// The query under which a message is created: the service is asked to wait
/// and return the message, in the given thread if there is one.
pub open spec fn create_query_text(thread_id: Option<Seq<char>>) -> Seq<char> {
    match thread_id {
        Some(t) => "?wait=true&thread_id="@ + t,
        None => "?wait=true"@,
    }
}

/// The query under which a message is created.
pub fn create_query(thread_id: Option<&str>) -> (r: String)
    ensures
        r@ == create_query_text(
            match thread_id {
                Some(t) => Some(t@),
                None => None,
            },
        ),
{
    let mut r = String::from_str("?wait=true");
    match thread_id {
        Some(t) => {
            r.append("&thread_id=");
            r.append(t);
            proof {
                reveal_strlit("?wait=true");
                reveal_strlit("&thread_id=");
                reveal_strlit("?wait=true&thread_id=");
                assert(r@ =~= "?wait=true&thread_id="@ + t@);
            }
        },
        None => {},
    }
    r
}

/// The path of the message with the given id, under the webhook.
pub fn message_path(id: &str) -> (r: String)
    ensures
        r@ == "/messages/"@ + id@,
{
    String::from_str("/messages/").concat(id)
}

/// Checks a message before it is created, and gives the query to send it
/// under. Nothing is to be sent when the message fails its check.
pub fn create_request(
    message: &MessageBuilder,
    thread_id: Option<&str>,
) -> (r: Result<String, WebhookError>)
    requires
        message@.embeds.len() <= usize::MAX / Limit::EMBED_TOTAL,
    ensures
        match message@.validation() {
            Err(f) => r matches Err(e) && e@ == f,
            Ok(_) => r matches Ok(q) && q@ == create_query_text(
                match thread_id {
                    Some(t) => Some(t@),
                    None => None,
                },
            ),
        },
{
    match message.validate() {
        Err(e) => Err(e),
        Ok(_) => Ok(create_query(thread_id)),
    }
}

/// Checks a message before the message `id` is replaced by it, and gives the
/// path to send it to. Nothing is to be sent when the message fails its check.
pub fn edit_request(id: &str, message: &MessageBuilder) -> (r: Result<String, WebhookError>)
    requires
        message@.embeds.len() <= usize::MAX / Limit::EMBED_TOTAL,
    ensures
        match message@.validation() {
            Err(f) => r matches Err(e) && e@ == f,
            Ok(_) => r matches Ok(p) && p@ == "/messages/"@ + id@,
        },
{
    match message.validate() {
        Err(e) => Err(e),
        Ok(_) => Ok(message_path(id)),
    }
}

/// Content of exactly the ceiling's length passes the content check: the
/// message then checks as it would with no content at all. One character
/// more is reported as content over its ceiling.
pub proof fn lemma_content_at_limit(m: BuilderModel)
    requires
        opt_len(m.username) <= Limit::USERNAME,
    ensures
        opt_len(m.content) == Limit::CONTENT ==> m.validation() == (BuilderModel {
            content: None,
            ..m
        }).validation(),
        opt_len(m.content) == Limit::CONTENT + 1 ==> m.validation() == Err::<nat, Failure>(
            Failure::TooBig("content"@, (Limit::CONTENT + 1) as nat, Limit::CONTENT as nat),
        ),
{
}

} // verus!
