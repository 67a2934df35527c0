//! The embed: a structured rich-content block attached to a message, its
//! fluent setters, and the size check that the remote service's limits ask for.

use crate::client::{counted, too_big, Failure, Limit, WebhookError};
use vstd::prelude::*;

verus! {

/// The characters of an optional text, as a sequence.
pub open spec fn text_of(s: Option<String>) -> Option<Seq<char>> {
    match s {
        Some(v) => Some(v@),
        None => None,
    }
}

/// The length of an optional text; an absent text counts as empty.
pub open spec fn opt_len(s: Option<Seq<char>>) -> nat {
    match s {
        Some(v) => v.len(),
        None => 0,
    }
}

/// Author information for the embed.
pub struct EmbedAuthor {
    /// Name of the author.
    pub name: String,
    /// URL of the author.
    pub url: Option<String>,
    /// URL of the author's icon.
    pub icon_url: Option<String>,
    /// Proxied URL of the author's icon.
    pub proxy_icon_url: Option<String>,
}

/// The content of an `EmbedAuthor`.
pub struct AuthorModel {
    pub name: Seq<char>,
    pub url: Option<Seq<char>>,
    pub icon_url: Option<Seq<char>>,
    pub proxy_icon_url: Option<Seq<char>>,
}

impl View for EmbedAuthor {
    type V = AuthorModel;

    open spec fn view(&self) -> AuthorModel {
        AuthorModel {
            name: self.name@,
            url: text_of(self.url),
            icon_url: text_of(self.icon_url),
            proxy_icon_url: text_of(self.proxy_icon_url),
        }
    }
}

impl DeepView for EmbedAuthor {
    type V = AuthorModel;

    open spec fn deep_view(&self) -> AuthorModel {
        self@
    }
}

/// A named field of the embed.
pub struct EmbedField {
    /// Name of the field.
    pub name: String,
    /// Value of the field.
    pub value: String,
    /// Whether the field is laid out inline.
    pub inline: Option<bool>,
}

/// The content of an `EmbedField`.
pub struct FieldModel {
    pub name: Seq<char>,
    pub value: Seq<char>,
    pub inline: Option<bool>,
}

impl View for EmbedField {
    type V = FieldModel;

    open spec fn view(&self) -> FieldModel {
        FieldModel { name: self.name@, value: self.value@, inline: self.inline }
    }
}

impl DeepView for EmbedField {
    type V = FieldModel;

    open spec fn deep_view(&self) -> FieldModel {
        self@
    }
}

/// Footer information for the embed.
pub struct EmbedFooter {
    /// Footer text.
    pub text: String,
    /// URL of the footer icon.
    pub icon_url: Option<String>,
    /// Proxied URL of the footer icon.
    pub proxy_icon_url: Option<String>,
}

/// The content of an `EmbedFooter`.
pub struct FooterModel {
    pub text: Seq<char>,
    pub icon_url: Option<Seq<char>>,
    pub proxy_icon_url: Option<Seq<char>>,
}

impl View for EmbedFooter {
    type V = FooterModel;

    open spec fn view(&self) -> FooterModel {
        FooterModel {
            text: self.text@,
            icon_url: text_of(self.icon_url),
            proxy_icon_url: text_of(self.proxy_icon_url),
        }
    }
}

impl DeepView for EmbedFooter {
    type V = FooterModel;

    open spec fn deep_view(&self) -> FooterModel {
        self@
    }
}

/// Image, video or thumbnail information for the embed.
pub struct EmbedMedia {
    /// Source URL of the media.
    pub url: Option<String>,
    /// Proxied URL of the media.
    pub proxy_url: Option<String>,
    /// Height of the media.
    pub height: Option<u32>,
    /// Width of the media.
    pub width: Option<u32>,
}

/// The content of an `EmbedMedia`.
pub struct MediaModel {
    pub url: Option<Seq<char>>,
    pub proxy_url: Option<Seq<char>>,
    pub height: Option<u32>,
    pub width: Option<u32>,
}

impl View for EmbedMedia {
    type V = MediaModel;

    open spec fn view(&self) -> MediaModel {
        MediaModel {
            url: text_of(self.url),
            proxy_url: text_of(self.proxy_url),
            height: self.height,
            width: self.width,
        }
    }
}

impl MediaModel {
    /// The media that the given values describe.
    pub open spec fn of(
        url: Option<String>,
        proxy_url: Option<String>,
        height: Option<u32>,
        width: Option<u32>,
    ) -> MediaModel {
        MediaModel { url: text_of(url), proxy_url: text_of(proxy_url), height, width }
    }
}

impl DeepView for EmbedMedia {
    type V = MediaModel;

    open spec fn deep_view(&self) -> MediaModel {
        self@
    }
}

/// Provider information for the embed.
pub struct EmbedProvider {
    /// Name of the provider.
    pub name: Option<String>,
    /// URL of the provider.
    pub url: Option<String>,
}

/// The content of an `EmbedProvider`.
pub struct ProviderModel {
    pub name: Option<Seq<char>>,
    pub url: Option<Seq<char>>,
}

impl View for EmbedProvider {
    type V = ProviderModel;

    open spec fn view(&self) -> ProviderModel {
        ProviderModel { name: text_of(self.name), url: text_of(self.url) }
    }
}

impl DeepView for EmbedProvider {
    type V = ProviderModel;

    open spec fn deep_view(&self) -> ProviderModel {
        self@
    }
}

/// A rich-content block of a message. Built empty, then filled by the
/// setters; nothing is checked until `validate`.
pub struct Embed {
    /// Author information.
    pub author: Option<EmbedAuthor>,
    /// Title of the embed.
    pub title: Option<String>,
    /// Description of the embed.
    pub description: Option<String>,
    /// URL of the embed.
    pub url: Option<String>,
    /// Timestamp of the embed content, kept as given.
    pub timestamp: Option<String>,
    /// Color of the embed, as a packed RGB integer.
    pub color: Option<u32>,
    /// Fields, in the order they were added.
    pub fields: Vec<EmbedField>,
    /// Footer information.
    pub footer: Option<EmbedFooter>,
    /// Image information.
    pub image: Option<EmbedMedia>,
    /// Thumbnail information.
    pub thumbnail: Option<EmbedMedia>,
    /// Video information.
    pub video: Option<EmbedMedia>,
    /// Provider information.
    pub provider: Option<EmbedProvider>,
}

/// The content of an `Embed`.
pub struct EmbedModel {
    pub author: Option<AuthorModel>,
    pub title: Option<Seq<char>>,
    pub description: Option<Seq<char>>,
    pub url: Option<Seq<char>>,
    pub timestamp: Option<Seq<char>>,
    pub color: Option<u32>,
    pub fields: Seq<FieldModel>,
    pub footer: Option<FooterModel>,
    pub image: Option<MediaModel>,
    pub thumbnail: Option<MediaModel>,
    pub video: Option<MediaModel>,
    pub provider: Option<ProviderModel>,
}

impl View for Embed {
    type V = EmbedModel;

    open spec fn view(&self) -> EmbedModel {
        EmbedModel {
            author: self.author.deep_view(),
            title: text_of(self.title),
            description: text_of(self.description),
            url: text_of(self.url),
            timestamp: text_of(self.timestamp),
            color: self.color,
            fields: self.fields.deep_view(),
            footer: self.footer.deep_view(),
            image: self.image.deep_view(),
            thumbnail: self.thumbnail.deep_view(),
            video: self.video.deep_view(),
            provider: self.provider.deep_view(),
        }
    }
}

impl DeepView for Embed {
    type V = EmbedModel;

    open spec fn deep_view(&self) -> EmbedModel {
        self@
    }
}

/// Checks the fields in order. Yields the characters their names and values
/// hold, or the first name or value over its ceiling.
pub open spec fn fields_check(fs: Seq<FieldModel>) -> Result<nat, Failure>
    decreases fs.len(),
{
    if fs.len() == 0 {
        Ok(0)
    } else {
        match fields_check(fs.drop_last()) {
            Err(e) => Err(e),
            Ok(total) => {
                let f = fs.last();
                if f.name.len() > Limit::FIELD_NAME {
                    Err(Failure::TooBig("field name"@, f.name.len(), Limit::FIELD_NAME as nat))
                } else if f.value.len() > Limit::FIELD_VALUE {
                    Err(Failure::TooBig("field value"@, f.value.len(), Limit::FIELD_VALUE as nat))
                } else {
                    Ok(total + f.name.len() + f.value.len())
                }
            },
        }
    }
}

impl EmbedModel {
    /// An embed with nothing set and no fields.
    pub open spec fn empty() -> EmbedModel {
        EmbedModel {
            author: None,
            title: None,
            description: None,
            url: None,
            timestamp: None,
            color: None,
            fields: Seq::empty(),
            footer: None,
            image: None,
            thumbnail: None,
            video: None,
            provider: None,
        }
    }

    /// Length of the author's name; no author counts as empty.
    pub open spec fn author_len(self) -> nat {
        match self.author {
            Some(a) => a.name.len(),
            None => 0,
        }
    }

    /// Length of the footer text; no footer counts as empty.
    pub open spec fn footer_len(self) -> nat {
        match self.footer {
            Some(f) => f.text.len(),
            None => 0,
        }
    }

    /// The outcome of checking this embed against the limits: author,
    /// title, description, footer, each field in order, the number of
    /// fields, and last the total. The first component over its ceiling is
    /// reported; otherwise the total number of characters.
    pub open spec fn validation(self) -> Result<nat, Failure> {
        let author = self.author_len();
        let title = opt_len(self.title);
        let description = opt_len(self.description);
        let footer = self.footer_len();
        if author > Limit::AUTHOR_NAME {
            Err(Failure::TooBig("author"@, author, Limit::AUTHOR_NAME as nat))
        } else if title > Limit::TITLE {
            Err(Failure::TooBig("title"@, title, Limit::TITLE as nat))
        } else if description > Limit::DESCRIPTION {
            Err(Failure::TooBig("description"@, description, Limit::DESCRIPTION as nat))
        } else if footer > Limit::FOOTER_TEXT {
            Err(Failure::TooBig("footer"@, footer, Limit::FOOTER_TEXT as nat))
        } else {
            match fields_check(self.fields) {
                Err(e) => Err(e),
                Ok(in_fields) => if self.fields.len() > Limit::FIELDS {
                    Err(Failure::TooBig("fields"@, self.fields.len(), Limit::FIELDS as nat))
                } else {
                    let total = author + title + description + footer + in_fields;
                    if total > Limit::EMBED_TOTAL {
                        Err(Failure::TooBig("embed"@, total, Limit::EMBED_TOTAL as nat))
                    } else {
                        Ok(total)
                    }
                },
            }
        }
    }
}

/// Once a prefix of the fields fails, every longer prefix fails the same way.
proof fn lemma_fields_check_error_persists(fs: Seq<FieldModel>, k: int)
    requires
        0 <= k <= fs.len(),
        fields_check(fs.take(k)) is Err,
    ensures
        fields_check(fs) == fields_check(fs.take(k)),
    decreases fs.len() - k,
{
    if k < fs.len() {
        assert(fs.take(k + 1).drop_last() =~= fs.take(k));
        lemma_fields_check_error_persists(fs, k + 1);
    } else {
        assert(fs.take(k) =~= fs);
    }
}

/// Fields that are all within their ceilings pass their check.
proof fn lemma_fields_within(fs: Seq<FieldModel>, k: int)
    requires
        0 <= k <= fs.len(),
        forall|j: int|
            0 <= j < k ==> (#[trigger] fs[j]).name.len() <= Limit::FIELD_NAME
                && fs[j].value.len() <= Limit::FIELD_VALUE,
    ensures
        fields_check(fs.take(k)) is Ok,
    decreases k,
{
    if k > 0 {
        assert(fs.take(k).drop_last() =~= fs.take(k - 1));
        lemma_fields_within(fs, k - 1);
    }
}

/// Characters of the optional text, counted.
fn text_len(s: &Option<String>) -> (r: usize)
    ensures
        r == opt_len(text_of(*s)),
{
    match s {
        Some(v) => v.as_str().unicode_len(),
        None => 0,
    }
}

impl Embed {
    /// Checks the embed against the limits and returns the number of
    /// characters it holds. Reports the first component over its ceiling,
    /// in the order author, title, description, footer, each field (name
    /// before value), number of fields, total.
    pub fn validate(&self) -> (r: Result<usize, WebhookError>)
        ensures
            counted(r) == self@.validation(),
    {
        let author: usize = match &self.author {
            Some(a) => a.name.as_str().unicode_len(),
            None => 0,
        };
        if author > Limit::AUTHOR_NAME {
            return Err(too_big("author", author, Limit::AUTHOR_NAME));
        }
        let title = text_len(&self.title);
        if title > Limit::TITLE {
            return Err(too_big("title", title, Limit::TITLE));
        }
        let description = text_len(&self.description);
        if description > Limit::DESCRIPTION {
            return Err(too_big("description", description, Limit::DESCRIPTION));
        }
        let footer: usize = match &self.footer {
            Some(f) => f.text.as_str().unicode_len(),
            None => 0,
        };
        if footer > Limit::FOOTER_TEXT {
            return Err(too_big("footer", footer, Limit::FOOTER_TEXT));
        }
        let count = self.fields.len();
        let ghost fs = self@.fields;
        let mut in_fields: usize = 0;
        let mut i: usize = 0;
        while i < count
            invariant
                count == self.fields@.len(),
                fs == self@.fields,
                author == self@.author_len() && author <= Limit::AUTHOR_NAME,
                title == opt_len(self@.title) && title <= Limit::TITLE,
                description == opt_len(self@.description) && description <= Limit::DESCRIPTION,
                footer == self@.footer_len() && footer <= Limit::FOOTER_TEXT,
                i <= count,
                in_fields <= 32000,
                i <= Limit::FIELDS ==> in_fields <= i * 1280,
                fields_check(fs.take(i as int)) is Ok,
                i <= Limit::FIELDS ==> fields_check(fs.take(i as int)) == Ok::<nat, Failure>(
                    in_fields as nat,
                ),
            decreases count - i,
        {
            let field = &self.fields[i];
            assert(fs.take(i + 1).drop_last() =~= fs.take(i as int));
            assert(fs.take(i + 1).last() == field@);
            let name = field.name.as_str().unicode_len();
            if name > Limit::FIELD_NAME {
                proof {
                    lemma_fields_check_error_persists(fs, i + 1);
                }
                return Err(too_big("field name", name, Limit::FIELD_NAME));
            }
            let value = field.value.as_str().unicode_len();
            if value > Limit::FIELD_VALUE {
                proof {
                    lemma_fields_check_error_persists(fs, i + 1);
                }
                return Err(too_big("field value", value, Limit::FIELD_VALUE));
            }
            // Past the ceiling on the number of fields the sum is not
            // reported, so it is kept only up to there.
            if i < Limit::FIELDS {
                assert(in_fields + name + value <= (i + 1) * 1280 <= 32000) by (nonlinear_arith)
                    requires
                        in_fields <= i * 1280,
                        name <= 256,
                        value <= 1024,
                        i < 25,
                ;
                in_fields = in_fields + name + value;
            }
            i = i + 1;
        }
        assert(fs.take(count as int) =~= fs);
        if count > Limit::FIELDS {
            return Err(too_big("fields", count, Limit::FIELDS));
        }
        let total = author + title + description + footer + in_fields;
        if total > Limit::EMBED_TOTAL {
            return Err(too_big("embed", total, Limit::EMBED_TOTAL));
        }
        Ok(total)
    }

    /// Creates an embed with nothing set and no fields.
    pub fn new() -> (r: Self)
        ensures
            r@ == EmbedModel::empty(),
    {
        let r = Embed {
            author: None,
            title: None,
            description: None,
            url: None,
            timestamp: None,
            color: None,
            fields: Vec::new(),
            footer: None,
            image: None,
            thumbnail: None,
            video: None,
            provider: None,
        };
        assert(r.fields.deep_view() =~= Seq::<FieldModel>::empty());
        r
    }

    /// Sets the title.
    pub fn title(&mut self, title: &str) -> (r: &mut Self)
        ensures
            (*r)@ == (EmbedModel { title: Some(title@), ..old(self)@ }),
            *final(self) == *final(r),
    {
        self.title = Some(String::from_str(title));
        self
    }

    /// Sets the description.
    pub fn description(&mut self, description: &str) -> (r: &mut Self)
        ensures
            (*r)@ == (EmbedModel { description: Some(description@), ..old(self)@ }),
            *final(self) == *final(r),
    {
        self.description = Some(String::from_str(description));
        self
    }

    /// Sets the URL.
    pub fn url(&mut self, url: &str) -> (r: &mut Self)
        ensures
            (*r)@ == (EmbedModel { url: Some(url@), ..old(self)@ }),
            *final(self) == *final(r),
    {
        self.url = Some(String::from_str(url));
        self
    }

    /// Sets the timestamp, kept as given.
    pub fn timestamp(&mut self, timestamp: &str) -> (r: &mut Self)
        ensures
            (*r)@ == (EmbedModel { timestamp: Some(timestamp@), ..old(self)@ }),
            *final(self) == *final(r),
    {
        self.timestamp = Some(String::from_str(timestamp));
        self
    }

    /// Sets the footer.
    pub fn footer(
        &mut self,
        text: &str,
        icon_url: Option<String>,
        proxy_icon_url: Option<String>,
    ) -> (r: &mut Self)
        ensures
            (*r)@ == (EmbedModel {
                footer: Some(
                    FooterModel {
                        text: text@,
                        icon_url: text_of(icon_url),
                        proxy_icon_url: text_of(proxy_icon_url),
                    },
                ),
                ..old(self)@
            }),
            *final(self) == *final(r),
    {
        self.footer = Some(EmbedFooter { text: String::from_str(text), icon_url, proxy_icon_url });
        self
    }

    /// Sets the image.
    pub fn image(
        &mut self,
        url: Option<String>,
        proxy_url: Option<String>,
        height: Option<u32>,
        width: Option<u32>,
    ) -> (r: &mut Self)
        ensures
            (*r)@ == (EmbedModel {
                image: Some(MediaModel::of(url, proxy_url, height, width)),
                ..old(self)@
            }),
            *final(self) == *final(r),
    {
        self.image = Some(EmbedMedia { url, proxy_url, height, width });
        self
    }

    /// Sets the thumbnail.
    pub fn thumbnail(
        &mut self,
        url: Option<String>,
        proxy_url: Option<String>,
        height: Option<u32>,
        width: Option<u32>,
    ) -> (r: &mut Self)
        ensures
            (*r)@ == (EmbedModel {
                thumbnail: Some(MediaModel::of(url, proxy_url, height, width)),
                ..old(self)@
            }),
            *final(self) == *final(r),
    {
        self.thumbnail = Some(EmbedMedia { url, proxy_url, height, width });
        self
    }

    /// Sets the video.
    pub fn video(
        &mut self,
        url: Option<String>,
        proxy_url: Option<String>,
        height: Option<u32>,
        width: Option<u32>,
    ) -> (r: &mut Self)
        ensures
            (*r)@ == (EmbedModel {
                video: Some(MediaModel::of(url, proxy_url, height, width)),
                ..old(self)@
            }),
            *final(self) == *final(r),
    {
        self.video = Some(EmbedMedia { url, proxy_url, height, width });
        self
    }

    /// Sets the provider.
    pub fn provider(&mut self, name: Option<String>, url: Option<String>) -> (r: &mut Self)
        ensures
            (*r)@ == (EmbedModel {
                provider: Some(ProviderModel { name: text_of(name), url: text_of(url) }),
                ..old(self)@
            }),
            *final(self) == *final(r),
    {
        self.provider = Some(EmbedProvider { name, url });
        self
    }

    /// Sets the author.
    pub fn author(
        &mut self,
        name: &str,
        url: Option<String>,
        icon_url: Option<String>,
        proxy_icon_url: Option<String>,
    ) -> (r: &mut Self)
        ensures
            (*r)@ == (EmbedModel {
                author: Some(
                    AuthorModel {
                        name: name@,
                        url: text_of(url),
                        icon_url: text_of(icon_url),
                        proxy_icon_url: text_of(proxy_icon_url),
                    },
                ),
                ..old(self)@
            }),
            *final(self) == *final(r),
    {
        self.author = Some(
            EmbedAuthor { name: String::from_str(name), url, icon_url, proxy_icon_url },
        );
        self
    }

    /// Appends a field. The number of fields is not checked here: an embed
    /// with too many fields can be built, and `validate` reports it.
    pub fn field(&mut self, name: &str, value: &str, inline: Option<bool>) -> (r: &mut Self)
        ensures
            (*r)@ == (EmbedModel {
                fields: old(self)@.fields.push(FieldModel { name: name@, value: value@, inline }),
                ..old(self)@
            }),
            *final(self) == *final(r),
    {
        let field = EmbedField {
            name: String::from_str(name),
            value: String::from_str(value),
            inline,
        };
        self.fields.push(field);
        proof {
            assert(self.fields.deep_view() =~= old(self).fields.deep_view().push(field@));
        }
        self
    }
}

/// The value of `c` as a hexadecimal digit, if it is one.
pub open spec fn hex_digit(c: char) -> Option<nat> {
    let u = c as u32;
    if 48 <= u <= 57 {
        Some((u - 48) as nat)
    } else if 97 <= u <= 102 {
        Some((u - 87) as nat)
    } else if 65 <= u <= 70 {
        Some((u - 55) as nat)
    } else {
        None
    }
}

/// Whether every character of `s` is a hexadecimal digit.
pub open spec fn all_hex(s: Seq<char>) -> bool {
    forall|i: int| 0 <= i < s.len() ==> (#[trigger] hex_digit(s[i])) is Some
}

/// The number that the hexadecimal digits `s` denote, most significant first.
pub open spec fn hex_value(s: Seq<char>) -> nat
    decreases s.len(),
{
    if s.len() == 0 {
        0
    } else {
        hex_value(s.drop_last()) * 16 + match hex_digit(s.last()) {
            Some(d) => d,
            None => 0,
        }
    }
}

/// The base-16 reading of `s` as an unsigned 32-bit integer: an optional `+`
/// sign followed by at least one hexadecimal digit, with a value that fits.
pub open spec fn hex_u32(s: Seq<char>) -> Option<u32> {
    let digits = if s.len() > 0 && s[0] == '+' {
        s.drop_first()
    } else {
        s
    };
    if digits.len() > 0 && all_hex(digits) && hex_value(digits) <= u32::MAX {
        Some(hex_value(digits) as u32)
    } else {
        None
    }
}

/// The color that the text `s` gives: a hexadecimal reading of `s`, with an
/// optional leading `#` taken off first. Empty or unreadable text gives none.
pub open spec fn color_of(s: Seq<char>) -> Option<u32> {
    if s.len() == 0 {
        None
    } else if s[0] == '#' {
        hex_u32(s.drop_first())
    } else {
        hex_u32(s)
    }
}

/// Relies on `u32::from_str_radix` with radix 16, which accepts an optional
/// `+` followed by one or more hexadecimal digits whose value fits in a
/// `u32`, and reports an error for anything else.
#[verifier::external_body]
fn parse_hex_u32(s: &str) -> (r: Option<u32>)
    ensures
        r == hex_u32(s@),
{
    u32::from_str_radix(s, 16).ok()
}

impl Embed {
    /// Sets the color from hexadecimal text such as `AA11BB` or `#AA11BB`.
    /// Empty or unreadable text leaves the color as it was.
    pub fn color(&mut self, color: &str) -> (r: &mut Self)
        ensures
            (*r)@ == (EmbedModel {
                color: match color_of(color@) {
                    Some(v) => Some(v),
                    None => old(self)@.color,
                },
                ..old(self)@
            }),
            *final(self) == *final(r),
    {
        let n = color.unicode_len();
        if n == 0 {
            return self;
        }
        let hex = if color.get_char(0) == '#' {
            color.substring_char(1, n)
        } else {
            color
        };
        proof {
            if color@[0] == '#' {
                assert(hex@ =~= color@.drop_first());
            }
        }
        match parse_hex_u32(hex) {
            Some(v) => {
                self.color = Some(v);
            },
            None => {},
        }
        self
    }
}

/// A leading `#` on a color does not change the color it gives.
pub proof fn lemma_color_hash_optional(s: Seq<char>)
    requires
        s.len() == 0 || s[0] != '#',
    ensures
        color_of(seq!['#'] + s) == color_of(s),
{
    assert((seq!['#'] + s).drop_first() =~= s);
    if s.len() == 0 {
        assert(hex_u32(s) is None);
    }
}

impl Clone for EmbedAuthor {
    fn clone(&self) -> (r: Self)
        ensures
            r@ == self@,
    {
        EmbedAuthor {
            name: self.name.clone(),
            url: self.url.clone(),
            icon_url: self.icon_url.clone(),
            proxy_icon_url: self.proxy_icon_url.clone(),
        }
    }
}

impl Clone for EmbedField {
    fn clone(&self) -> (r: Self)
        ensures
            r@ == self@,
    {
        EmbedField { name: self.name.clone(), value: self.value.clone(), inline: self.inline }
    }
}

impl Clone for EmbedFooter {
    fn clone(&self) -> (r: Self)
        ensures
            r@ == self@,
    {
        EmbedFooter {
            text: self.text.clone(),
            icon_url: self.icon_url.clone(),
            proxy_icon_url: self.proxy_icon_url.clone(),
        }
    }
}

impl Clone for EmbedMedia {
    fn clone(&self) -> (r: Self)
        ensures
            r@ == self@,
    {
        EmbedMedia {
            url: self.url.clone(),
            proxy_url: self.proxy_url.clone(),
            height: self.height,
            width: self.width,
        }
    }
}

impl Clone for EmbedProvider {
    fn clone(&self) -> (r: Self)
        ensures
            r@ == self@,
    {
        EmbedProvider { name: self.name.clone(), url: self.url.clone() }
    }
}

impl Clone for Embed {
    fn clone(&self) -> (r: Self)
        ensures
            r@ == self@,
    {
        let fields = self.fields.clone();
        assert(fields.deep_view() =~= self.fields.deep_view());
        Embed {
            author: self.author.clone(),
            title: self.title.clone(),
            description: self.description.clone(),
            url: self.url.clone(),
            timestamp: self.timestamp.clone(),
            color: self.color,
            fields,
            footer: self.footer.clone(),
            image: self.image.clone(),
            thumbnail: self.thumbnail.clone(),
            video: self.video.clone(),
            provider: self.provider.clone(),
        }
    }
}

impl Default for Embed {
    fn default() -> (r: Self)
        ensures
            r@ == EmbedModel::empty(),
    {
        Embed::new()
    }
}

/// The check of an embed reports the first component over its ceiling, in
/// the order author, title, description, footer, each field in order (name
/// before value), number of fields, and total; whatever later components
/// hold.
pub proof fn lemma_first_oversized_reported(e: EmbedModel)
    ensures
        e.author_len() > Limit::AUTHOR_NAME ==> e.validation() == Err::<nat, Failure>(
            Failure::TooBig("author"@, e.author_len(), Limit::AUTHOR_NAME as nat),
        ),
        e.author_len() <= Limit::AUTHOR_NAME && opt_len(e.title) > Limit::TITLE ==> e.validation()
            == Err::<nat, Failure>(
            Failure::TooBig("title"@, opt_len(e.title), Limit::TITLE as nat),
        ),
        e.author_len() <= Limit::AUTHOR_NAME && opt_len(e.title) <= Limit::TITLE && opt_len(
            e.description,
        ) > Limit::DESCRIPTION ==> e.validation() == Err::<nat, Failure>(
            Failure::TooBig("description"@, opt_len(e.description), Limit::DESCRIPTION as nat),
        ),
        e.author_len() <= Limit::AUTHOR_NAME && opt_len(e.title) <= Limit::TITLE && opt_len(
            e.description,
        ) <= Limit::DESCRIPTION && e.footer_len() > Limit::FOOTER_TEXT ==> e.validation()
            == Err::<nat, Failure>(
            Failure::TooBig("footer"@, e.footer_len(), Limit::FOOTER_TEXT as nat),
        ),
        e.author_len() <= Limit::AUTHOR_NAME && opt_len(e.title) <= Limit::TITLE && opt_len(
            e.description,
        ) <= Limit::DESCRIPTION && e.footer_len() <= Limit::FOOTER_TEXT ==> match fields_check(
            e.fields,
        ) {
            Err(f) => e.validation() == Err::<nat, Failure>(f),
            Ok(n) => if e.fields.len() > Limit::FIELDS {
                e.validation() == Err::<nat, Failure>(
                    Failure::TooBig("fields"@, e.fields.len(), Limit::FIELDS as nat),
                )
            } else {
                let total = e.author_len() + opt_len(e.title) + opt_len(e.description)
                    + e.footer_len() + n;
                total > Limit::EMBED_TOTAL ==> e.validation() == Err::<nat, Failure>(
                    Failure::TooBig("embed"@, total, Limit::EMBED_TOTAL as nat),
                )
            },
        },
{
}

/// Among the fields, the first one with a name or value over its ceiling is
/// the one reported, name before value, once the components before the
/// fields are within their ceilings; however many fields there are.
pub proof fn lemma_first_oversized_field_reported(e: EmbedModel, k: int)
    requires
        e.author_len() <= Limit::AUTHOR_NAME,
        opt_len(e.title) <= Limit::TITLE,
        opt_len(e.description) <= Limit::DESCRIPTION,
        e.footer_len() <= Limit::FOOTER_TEXT,
        0 <= k < e.fields.len(),
        forall|j: int|
            0 <= j < k ==> (#[trigger] e.fields[j]).name.len() <= Limit::FIELD_NAME
                && e.fields[j].value.len() <= Limit::FIELD_VALUE,
        e.fields[k].name.len() > Limit::FIELD_NAME || e.fields[k].value.len()
            > Limit::FIELD_VALUE,
    ensures
        e.validation() == (if e.fields[k].name.len() > Limit::FIELD_NAME {
            Err::<nat, Failure>(
                Failure::TooBig("field name"@, e.fields[k].name.len(), Limit::FIELD_NAME as nat),
            )
        } else {
            Err::<nat, Failure>(
                Failure::TooBig("field value"@, e.fields[k].value.len(), Limit::FIELD_VALUE as nat),
            )
        }),
{
    let fs = e.fields;
    lemma_fields_within(fs, k);
    assert(fs.take(k + 1).drop_last() =~= fs.take(k));
    assert(fs.take(k + 1).last() == fs[k]);
    lemma_fields_check_error_persists(fs, k + 1);
}

} // verus!
