use yadwh::embed::Embed;
use yadwh::{Limit, WebhookError};

fn too_big(name: &str, size: usize, max: usize) -> WebhookError {
    WebhookError::TooBig(name.to_string(), size, max)
}

#[test]
fn empty_embed_counts_nothing() {
    let e = Embed::new();
    assert_eq!(e.validate(), Ok(0));
}

#[test]
fn embed_total_sums_every_component() {
    let mut e = Embed::new();
    e.author("ab", None, None, None)
        .title("cde")
        .description("fghi")
        .footer("jk", None, None)
        .field("l", "mn", Some(true))
        .field("o", "", None)
        .url("https://example.com/ignored")
        .timestamp("2024-01-01T00:00:00Z");
    assert_eq!(e.validate(), Ok(2 + 3 + 4 + 2 + 1 + 2 + 1));
}

#[test]
fn author_reported_before_title() {
    let mut e = Embed::new();
    e.author(&"a".repeat(257), None, None, None).title(&"t".repeat(300));
    assert_eq!(e.validate(), Err(too_big("author", 257, Limit::AUTHOR_NAME)));
}

#[test]
fn title_reported_before_description_and_footer() {
    let mut e = Embed::new();
    e.title(&"t".repeat(257))
        .description(&"d".repeat(5000))
        .footer(&"f".repeat(3000), None, None);
    assert_eq!(e.validate(), Err(too_big("title", 257, Limit::TITLE)));
}

#[test]
fn description_reported_before_footer() {
    let mut e = Embed::new();
    e.description(&"d".repeat(4097)).footer(&"f".repeat(3000), None, None);
    assert_eq!(e.validate(), Err(too_big("description", 4097, Limit::DESCRIPTION)));
}

#[test]
fn footer_reported_before_fields() {
    let mut e = Embed::new();
    e.footer(&"f".repeat(2049), None, None).field(&"n".repeat(300), "v", None);
    assert_eq!(e.validate(), Err(too_big("footer", 2049, Limit::FOOTER_TEXT)));
}

#[test]
fn first_oversized_field_is_reported() {
    let mut e = Embed::new();
    e.field("ok", "fine", None)
        .field("name", &"v".repeat(1025), None)
        .field(&"n".repeat(257), "value", None);
    assert_eq!(e.validate(), Err(too_big("field value", 1025, Limit::FIELD_VALUE)));
}

#[test]
fn field_name_reported_before_its_value() {
    let mut e = Embed::new();
    e.field(&"n".repeat(257), &"v".repeat(2000), None);
    assert_eq!(e.validate(), Err(too_big("field name", 257, Limit::FIELD_NAME)));
}

#[test]
fn too_many_fields_can_be_built_and_are_reported() {
    let mut e = Embed::new();
    for _ in 0..26 {
        e.field("n", "v", None);
    }
    assert_eq!(e.fields.len(), 26);
    assert_eq!(e.validate(), Err(too_big("fields", 26, Limit::FIELDS)));
}

#[test]
fn fields_at_their_ceiling_pass() {
    let mut e = Embed::new();
    for _ in 0..25 {
        e.field("n", "v", None);
    }
    assert_eq!(e.validate(), Ok(50));
}

#[test]
fn total_over_ceiling_is_reported_with_its_size() {
    let mut e = Embed::new();
    e.description(&"d".repeat(4096)).footer(&"f".repeat(2048), None, None);
    assert_eq!(e.validate(), Err(too_big("embed", 6144, Limit::EMBED_TOTAL)));
}

#[test]
fn lengths_count_characters() {
    let mut e = Embed::new();
    e.title(&"é".repeat(256));
    assert_eq!(e.validate(), Ok(256));
}

#[test]
fn color_with_and_without_hash_agree() {
    let mut a = Embed::new();
    a.color("#CBA6F7");
    let mut b = Embed::new();
    b.color("CBA6F7");
    assert_eq!(a.color, Some(0xCBA6F7));
    assert_eq!(a.color, b.color);
}

#[test]
fn color_lower_case_digits() {
    let mut e = Embed::new();
    e.color("#cba6f7");
    assert_eq!(e.color, Some(13346551));
}

#[test]
fn color_empty_or_unreadable_is_ignored() {
    let mut e = Embed::new();
    e.color("");
    assert_eq!(e.color, None);
    e.color("not-hex");
    assert_eq!(e.color, None);
    e.color("#");
    assert_eq!(e.color, None);
}

#[test]
fn color_unreadable_keeps_previous_color() {
    let mut e = Embed::new();
    e.color("00FF00");
    e.color("zz");
    assert_eq!(e.color, Some(0x00FF00));
    e.color("1FFFFFFFF");
    assert_eq!(e.color, Some(0x00FF00));
}

#[test]
fn color_takes_a_plus_sign() {
    let mut e = Embed::new();
    e.color("+ff");
    assert_eq!(e.color, Some(255));
}

#[test]
fn setters_store_their_values() {
    let mut e = Embed::new();
    e.image(Some("i".to_string()), None, Some(10), Some(20))
        .thumbnail(None, Some("p".to_string()), None, None)
        .video(Some("v".to_string()), None, None, Some(5))
        .provider(Some("prov".to_string()), None)
        .author("me", Some("u".to_string()), None, None);
    assert_eq!(e.image.as_ref().unwrap().height, Some(10));
    assert_eq!(e.image.as_ref().unwrap().url.as_deref(), Some("i"));
    assert_eq!(e.thumbnail.as_ref().unwrap().proxy_url.as_deref(), Some("p"));
    assert_eq!(e.video.as_ref().unwrap().width, Some(5));
    assert_eq!(e.provider.as_ref().unwrap().name.as_deref(), Some("prov"));
    assert_eq!(e.author.as_ref().unwrap().name, "me");
    assert_eq!(e.author.as_ref().unwrap().url.as_deref(), Some("u"));
}

#[test]
fn fields_keep_insertion_order() {
    let mut e = Embed::new();
    e.field("a", "1", None).field("b", "2", Some(true));
    assert_eq!(e.fields[0].name, "a");
    assert_eq!(e.fields[1].name, "b");
    assert_eq!(e.fields[1].inline, Some(true));
}

#[test]
fn clone_keeps_everything() {
    let mut e = Embed::new();
    e.title("t").field("a", "1", None).color("#010203");
    let c = e.clone();
    assert_eq!(c.title.as_deref(), Some("t"));
    assert_eq!(c.fields.len(), 1);
    assert_eq!(c.fields[0].value, "1");
    assert_eq!(c.color, Some(0x010203));
}

#[test]
fn default_embed_is_empty() {
    let e = Embed::default();
    assert!(e.title.is_none() && e.author.is_none() && e.color.is_none());
    assert!(e.fields.is_empty());
}

#[test]
fn oversized_field_reported_before_field_count() {
    let mut e = Embed::new();
    e.field(&"n".repeat(300), "v", None);
    for _ in 0..25 {
        e.field("n", "v", None);
    }
    assert_eq!(e.fields.len(), 26);
    assert_eq!(e.validate(), Err(too_big("field name", 300, Limit::FIELD_NAME)));
}

#[test]
fn field_count_reported_before_total() {
    let mut e = Embed::new();
    for _ in 0..30 {
        e.field("n", &"v".repeat(1000), None);
    }
    assert_eq!(e.validate(), Err(too_big("fields", 30, Limit::FIELDS)));
}
