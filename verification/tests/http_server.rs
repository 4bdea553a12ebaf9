use fpush::http_server::{
    fetch_messages, fetch_messages_at, ContentTypeHeader, FetchMessagesReply, FetchMessagesRequest,
    FetchMessagesResponse, SmsMessage, STATUS_BAD_REQUEST, STATUS_OK, STATUS_UNAUTHORIZED,
    STATUS_UNSUPPORTED_MEDIA_TYPE,
};

const NOW: &str = "2024-02-01T12:00:00+00:00";

fn json() -> ContentTypeHeader {
    ContentTypeHeader::Text("application/json".to_string())
}

fn request(username: &str, password: &str, last_id: Option<&str>, last_sent_id: Option<&str>) -> FetchMessagesRequest {
    FetchMessagesRequest {
        username: username.to_string(),
        password: password.to_string(),
        last_id: last_id.map(|id| id.to_string()),
        last_sent_id: last_sent_id.map(|id| id.to_string()),
        device: "device1".to_string(),
    }
}

fn rejected(status: u16, error: &str) -> FetchMessagesReply {
    FetchMessagesReply::Rejected { status, error: error.to_string() }
}

fn received() -> SmsMessage {
    SmsMessage {
        sms_id: "received-1001".to_string(),
        sending_date: "2024-01-15T10:30:00Z".to_string(),
        sender: Some("+1234567890".to_string()),
        recipient: None,
        sms_text: "Hello, this is a demo received message!".to_string(),
        content_type: "text/plain".to_string(),
        disposition_notification: Some(false),
        displayed: Some(false),
        stream_id: Some("stream-recv-1".to_string()),
    }
}

fn sent() -> SmsMessage {
    SmsMessage {
        sms_id: "sent-2001".to_string(),
        sending_date: "2024-01-15T11:45:00Z".to_string(),
        sender: None,
        recipient: Some("+9876543210".to_string()),
        sms_text: "This is a demo sent message!".to_string(),
        content_type: "text/plain".to_string(),
        disposition_notification: Some(true),
        displayed: None,
        stream_id: Some("stream-sent-1".to_string()),
    }
}

fn served(received_smss: Vec<SmsMessage>, sent_smss: Vec<SmsMessage>) -> FetchMessagesReply {
    FetchMessagesReply::Messages(FetchMessagesResponse {
        date: NOW.to_string(),
        received_smss,
        sent_smss,
    })
}

#[test]
fn status_constants() {
    assert_eq!(STATUS_OK, 200);
    assert_eq!(STATUS_BAD_REQUEST, 400);
    assert_eq!(STATUS_UNAUTHORIZED, 401);
    assert_eq!(STATUS_UNSUPPORTED_MEDIA_TYPE, 415);
}

#[test]
fn empty_username_is_unauthorized() {
    let body = request("", "pass", Some(""), Some(""));
    let reply = fetch_messages_at(&json(), Some(&body), NOW.to_string());
    assert_eq!(
        reply,
        rejected(401, "Invalid credentials: username and password must not be empty")
    );
}

#[test]
fn empty_password_is_unauthorized() {
    let body = request("user", "", None, None);
    let reply = fetch_messages_at(&json(), Some(&body), NOW.to_string());
    assert_eq!(
        reply,
        rejected(401, "Invalid credentials: username and password must not be empty")
    );
}

#[test]
fn plain_text_is_unsupported_whatever_the_body() {
    let plain = ContentTypeHeader::Text("text/plain".to_string());
    let good = request("user", "pass", Some(""), Some(""));
    let bad = request("", "", None, None);
    let expected = rejected(415, "Content-Type must be application/json");
    assert_eq!(fetch_messages_at(&plain, Some(&good), NOW.to_string()), expected);
    assert_eq!(fetch_messages_at(&plain, Some(&bad), NOW.to_string()), expected);
    assert_eq!(fetch_messages_at(&plain, None, NOW.to_string()), expected);
}

#[test]
fn missing_content_type_is_unsupported() {
    let body = request("user", "pass", None, None);
    assert_eq!(
        fetch_messages_at(&ContentTypeHeader::Missing, Some(&body), NOW.to_string()),
        rejected(415, "Content-Type must be application/json")
    );
}

#[test]
fn unreadable_content_type_is_unsupported() {
    let good = request("user", "pass", Some("1"), Some("2"));
    let bad = request("", "", None, None);
    let expected = rejected(415, "Content-Type must be application/json");
    assert_eq!(
        fetch_messages_at(&ContentTypeHeader::Unreadable, Some(&good), NOW.to_string()),
        expected
    );
    assert_eq!(
        fetch_messages_at(&ContentTypeHeader::Unreadable, Some(&bad), NOW.to_string()),
        expected
    );
    assert_eq!(fetch_messages_at(&ContentTypeHeader::Unreadable, None, NOW.to_string()), expected);
}

#[test]
fn content_type_is_judged_before_body_and_credentials() {
    let plain = ContentTypeHeader::Text("text/plain".to_string());
    let empty = request("", "", None, None);
    assert_eq!(
        fetch_messages_at(&plain, None, NOW.to_string()),
        rejected(415, "Content-Type must be application/json")
    );
    assert_eq!(
        fetch_messages_at(&plain, Some(&empty), NOW.to_string()),
        rejected(415, "Content-Type must be application/json")
    );
    assert_eq!(fetch_messages_at(&json(), None, NOW.to_string()), rejected(400, "Invalid JSON body"));
    assert_eq!(
        fetch_messages_at(&json(), Some(&empty), NOW.to_string()),
        rejected(401, "Invalid credentials: username and password must not be empty")
    );
}

#[test]
fn content_type_with_charset_is_json() {
    let header = ContentTypeHeader::Text("application/json; charset=utf-8".to_string());
    let body = request("user", "pass", Some("1"), Some("2"));
    assert_eq!(fetch_messages_at(&header, Some(&body), NOW.to_string()), served(vec![], vec![]));
}

#[test]
fn content_type_is_compared_as_written() {
    let body = request("user", "pass", None, None);
    for value in ["Application/JSON", "application/jso", " application/json", ""] {
        let header = ContentTypeHeader::Text(value.to_string());
        assert_eq!(
            fetch_messages_at(&header, Some(&body), NOW.to_string()),
            rejected(415, "Content-Type must be application/json")
        );
    }
}

#[test]
fn unparseable_body_is_a_bad_request() {
    assert_eq!(
        fetch_messages_at(&json(), None, NOW.to_string()),
        rejected(400, "Invalid JSON body")
    );
}

#[test]
fn request_without_last_ids_gets_both_demo_messages() {
    let body = request("user", "pass", None, None);
    assert_eq!(
        fetch_messages_at(&json(), Some(&body), NOW.to_string()),
        served(vec![received()], vec![sent()])
    );
}

#[test]
fn request_with_empty_last_ids_gets_both_demo_messages() {
    let body = request("user", "pass", Some(""), Some(""));
    assert_eq!(
        fetch_messages_at(&json(), Some(&body), NOW.to_string()),
        served(vec![received()], vec![sent()])
    );
}

#[test]
fn request_with_last_ids_gets_no_messages() {
    let body = request("user", "pass", Some("123"), Some("456"));
    assert_eq!(fetch_messages_at(&json(), Some(&body), NOW.to_string()), served(vec![], vec![]));
}

#[test]
fn last_ids_are_judged_one_by_one() {
    let body = request("user", "pass", Some("123"), None);
    assert_eq!(
        fetch_messages_at(&json(), Some(&body), NOW.to_string()),
        served(vec![], vec![sent()])
    );
    let body = request("user", "pass", Some(""), Some("456"));
    assert_eq!(
        fetch_messages_at(&json(), Some(&body), NOW.to_string()),
        served(vec![received()], vec![])
    );
}

#[test]
fn answer_carries_the_time_it_was_given() {
    let body = request("user", "pass", Some("1"), Some("2"));
    match fetch_messages_at(&json(), Some(&body), "1999-12-31T23:59:59+00:00".to_string()) {
        FetchMessagesReply::Messages(response) => {
            assert_eq!(response.date, "1999-12-31T23:59:59+00:00")
        }
        other => panic!("unexpected reply {:?}", other),
    }
}

#[test]
fn served_request_reads_the_clock_once() {
    let body = request("user", "pass", None, None);
    let mut read = 0;
    let reply = fetch_messages(&json(), Some(&body), || {
        read += 1;
        "2030-06-01T08:00:00+00:00".to_string()
    });
    assert_eq!(read, 1);
    match reply {
        FetchMessagesReply::Messages(response) => {
            assert_eq!(response.date, "2030-06-01T08:00:00+00:00");
            assert_eq!(response.received_smss, vec![received()]);
            assert_eq!(response.sent_smss, vec![sent()]);
        }
        other => panic!("unexpected reply {:?}", other),
    }
}

#[test]
fn served_request_takes_the_time_of_a_real_clock() {
    let body = request("user", "pass", Some("1"), Some("2"));
    match fetch_messages(&json(), Some(&body), || chrono::Utc::now().to_rfc3339()) {
        FetchMessagesReply::Messages(response) => {
            let parsed = chrono::DateTime::parse_from_rfc3339(&response.date);
            assert!(parsed.is_ok());
            assert!(parsed.unwrap().timestamp() > 1_700_000_000);
        }
        other => panic!("unexpected reply {:?}", other),
    }
}

#[test]
fn refused_request_does_not_read_the_clock() {
    let plain = ContentTypeHeader::Text("text/plain".to_string());
    assert_eq!(
        fetch_messages(&plain, None, || panic!("the clock was read")),
        rejected(415, "Content-Type must be application/json")
    );
    assert_eq!(
        fetch_messages(&ContentTypeHeader::Missing, None, || panic!("the clock was read")),
        rejected(415, "Content-Type must be application/json")
    );
    assert_eq!(
        fetch_messages(&ContentTypeHeader::Unreadable, None, || panic!("the clock was read")),
        rejected(415, "Content-Type must be application/json")
    );
    assert_eq!(
        fetch_messages(&json(), None, || panic!("the clock was read")),
        rejected(400, "Invalid JSON body")
    );
    let body = request("", "pass", None, None);
    assert_eq!(
        fetch_messages(&json(), Some(&body), || panic!("the clock was read")),
        rejected(401, "Invalid credentials: username and password must not be empty")
    );
}
