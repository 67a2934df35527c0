use yadwh::embed::Embed;
use yadwh::message::{
    create_query, create_request, edit_request, message_path, Message, MessageBuilder,
};
use yadwh::{Limit, WebhookError};

fn too_big(name: &str, size: usize, max: usize) -> WebhookError {
    WebhookError::TooBig(name.to_string(), size, max)
}

fn titled(title: &str) -> Embed {
    let mut e = Embed::new();
    e.title(title);
    e
}

#[test]
fn short_message_without_embeds_validates_to_zero() {
    let mut m = MessageBuilder::new();
    assert_eq!(m.username("Bot"), Ok(()));
    assert_eq!(m.content("hi"), Ok(()));
    assert_eq!(m.validate(), Ok(0));
}

#[test]
fn content_at_ceiling_validates() {
    let mut m = MessageBuilder::new();
    assert_eq!(m.content(&"c".repeat(Limit::CONTENT)), Ok(()));
    assert_eq!(m.validate(), Ok(0));
}

#[test]
fn content_over_ceiling_fails() {
    let mut m = MessageBuilder::new();
    assert_eq!(
        m.content(&"c".repeat(Limit::CONTENT + 1)),
        Err(too_big("content", Limit::CONTENT + 1, Limit::CONTENT))
    );
    assert_eq!(m.content.as_ref().map(|c| c.len()), Some(Limit::CONTENT + 1));
    assert_eq!(m.validate(), Err(too_big("content", 2001, 2000)));
}

#[test]
fn username_over_ceiling_fails_first() {
    let mut m = MessageBuilder::new();
    assert_eq!(m.username(&"u".repeat(81)), Err(too_big("username", 81, Limit::USERNAME)));
    m.content(&"c".repeat(3000)).ok();
    assert_eq!(m.validate(), Err(too_big("username", 81, 80)));
}

#[test]
fn username_at_ceiling_is_accepted() {
    let mut m = MessageBuilder::new();
    assert_eq!(m.username(&"u".repeat(80)), Ok(()));
    assert_eq!(m.validate(), Ok(0));
}

#[test]
fn embed_errors_pass_through() {
    let mut m = MessageBuilder::new();
    m.embed(titled("fine")).embed(titled(&"t".repeat(300)));
    assert_eq!(m.validate(), Err(too_big("title", 300, Limit::TITLE)));
}

#[test]
fn embeds_sum_and_aggregate_ceiling() {
    let mut m = MessageBuilder::new();
    m.embed(titled("abc")).embed(titled("de"));
    assert_eq!(m.validate(), Ok(5));

    let mut big = MessageBuilder::new();
    for _ in 0..3 {
        let mut e = Embed::new();
        e.description(&"d".repeat(2500));
        big.embed(e);
    }
    assert_eq!(big.validate(), Err(too_big("embed", 7500, Limit::EMBED_TOTAL)));
}

#[test]
fn eleventh_embed_is_dropped() {
    let mut m = MessageBuilder::new();
    for i in 0..10 {
        m.embed(titled(&format!("e{}", i)));
    }
    assert_eq!(m.embeds.len(), Limit::EMBEDS);
    m.embed(titled("eleventh"));
    assert_eq!(m.embeds.len(), 10);
    assert!(m.embeds.iter().all(|e| e.title.as_deref() != Some("eleventh")));
    assert_eq!(m.embeds[9].title.as_deref(), Some("e9"));
}

#[test]
fn tts_is_set() {
    let mut m = MessageBuilder::new();
    assert_eq!(m.tts, None);
    m.tts(true);
    assert_eq!(m.tts, Some(true));
}

#[test]
fn builder_from_response_keeps_content_and_embeds() {
    let message = Message {
        id: "1".to_string(),
        channel_id: "2".to_string(),
        content: "hello".to_string(),
        timestamp: "t".to_string(),
        edited_timestamp: None,
        tts: true,
        mention_everyone: false,
        embeds: vec![titled("kept")],
        pinned: false,
        webhook_id: "3".to_string(),
        message_type: 0,
    };
    let b = MessageBuilder::from(&message);
    assert_eq!(b.content.as_deref(), Some("hello"));
    assert_eq!(b.username, None);
    assert_eq!(b.tts, None);
    assert_eq!(b.embeds.len(), 1);
    assert_eq!(b.embeds[0].title.as_deref(), Some("kept"));
}

#[test]
fn create_query_with_and_without_thread() {
    assert_eq!(create_query(None), "?wait=true");
    assert_eq!(create_query(Some("77")), "?wait=true&thread_id=77");
}

#[test]
fn message_path_names_the_message() {
    assert_eq!(message_path("123"), "/messages/123");
}

#[test]
fn requests_are_refused_before_sending_when_too_big() {
    let mut m = MessageBuilder::new();
    m.content(&"c".repeat(2001)).ok();
    assert_eq!(create_request(&m, None), Err(too_big("content", 2001, 2000)));
    assert_eq!(edit_request("9", &m), Err(too_big("content", 2001, 2000)));

    let mut ok = MessageBuilder::new();
    ok.content("hi").ok();
    assert_eq!(create_request(&ok, Some("5")), Ok("?wait=true&thread_id=5".to_string()));
    assert_eq!(edit_request("9", &ok), Ok("/messages/9".to_string()));
}

#[test]
fn default_message_is_empty() {
    let m = MessageBuilder::default();
    assert_eq!(m.username, None);
    assert_eq!(m.content, None);
    assert_eq!(m.tts, None);
    assert!(m.embeds.is_empty());
}
