use yadwh::client::{check_status, decimal, decode_body, deletion_result, ROOT_URI};
use yadwh::{Client, WebhookError};

#[test]
fn from_url_reads_id_and_token() {
    let c = Client::from_url("https://host/api/webhooks/1111/abcd").unwrap();
    assert_eq!(c.id, "1111");
    assert_eq!(c.token, "abcd");
}

#[test]
fn from_url_short_is_a_parse_error() {
    assert_eq!(
        Client::from_url("https://host/short").err(),
        Some(WebhookError::BadParse("webhook url".to_string()))
    );
}

#[test]
fn from_url_takes_the_last_two_pieces() {
    let c = Client::from_url("https://discord.com/api/webhooks/extra/42/tok").unwrap();
    assert_eq!(c.id, "42");
    assert_eq!(c.token, "tok");
    let d = Client::from_url("a/b/c/d/e/f/").unwrap();
    assert_eq!(d.id, "f");
    assert_eq!(d.token, "");
}

#[test]
fn url_and_endpoint() {
    let c = Client::new("1", "tk");
    assert_eq!(c.url(), format!("{}/1/tk", ROOT_URI));
    assert_eq!(c.url(), "https://discord.com/api/v10/webhooks/1/tk");
    assert_eq!(c.endpoint("/messages/5"), "https://discord.com/api/v10/webhooks/1/tk/messages/5");
}

#[test]
fn status_classification() {
    assert_eq!(check_status(Some(200)), Ok(()));
    assert_eq!(check_status(Some(204)), Err(WebhookError::NoContent));
    assert_eq!(
        check_status(Some(404)),
        Err(WebhookError::BadStatus("Status Code: 404".to_string()))
    );
    assert_eq!(
        check_status(None),
        Err(WebhookError::Unknown("request to API".to_string()))
    );
}

#[test]
fn body_decoding() {
    assert_eq!(decode_body(Some(b"{\"id\":1}".to_vec())), Ok("{\"id\":1}".to_string()));
    assert_eq!(decode_body(Some("é".as_bytes().to_vec())), Ok("é".to_string()));
    assert_eq!(
        decode_body(Some(vec![0xff, 0xfe])),
        Err(WebhookError::Unknown("unable to convert to json".to_string()))
    );
    assert_eq!(
        decode_body(None),
        Err(WebhookError::Unknown("unable to convert http body".to_string()))
    );
}

#[test]
fn delete_treats_no_content_as_success() {
    let sent = check_status(Some(204)).map(|_| String::new());
    assert_eq!(deletion_result(sent), Ok(()));
    assert_eq!(deletion_result(Ok("{}".to_string())), Ok(()));
    assert_eq!(
        deletion_result(Err(WebhookError::BadStatus("Status Code: 404".to_string()))),
        Err(WebhookError::BadStatus("Status Code: 404".to_string()))
    );
}

#[test]
fn decimal_notation() {
    assert_eq!(decimal(0), "0");
    assert_eq!(decimal(7), "7");
    assert_eq!(decimal(6144), "6144");
    assert_eq!(decimal(usize::MAX), usize::MAX.to_string());
}

#[test]
fn errors_describe_themselves() {
    assert_eq!(WebhookError::NoContent.describe(), "no content.");
    assert_eq!(WebhookError::BadStatus("x".to_string()).describe(), "bad status: x");
    assert_eq!(WebhookError::BadParse("y".to_string()).describe(), "bad parse: y");
    assert_eq!(WebhookError::Unknown("z".to_string()).describe(), "unknown: z");
    assert_eq!(
        WebhookError::TooBig("content".to_string(), 2001, 2000).describe(),
        "content exceeded max character count, 2001 of 2000"
    );
}

#[test]
fn client_clone_keeps_credentials() {
    let c = Client::new("id", "secret").clone();
    assert_eq!(c.id, "id");
    assert_eq!(c.token, "secret");
}
