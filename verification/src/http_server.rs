//! The decisions of the demonstration endpoint `POST /fetch_messages`.
//!
//! The endpoint answers with canned message records. Everything it decides is
//! a function of the content type it was sent, of the body as far as it could
//! be read, and of the time of the answer.

use vstd::prelude::*;
use crate::text::{starts_with, text_of};

verus! {

/// Status of an answer that carries message records.
pub const STATUS_OK: u16 = 200;

/// Status of an answer to a body that is no valid request.
pub const STATUS_BAD_REQUEST: u16 = 400;

/// Status of an answer to a request without user name or password.
pub const STATUS_UNAUTHORIZED: u16 = 401;

/// Status of an answer to a request that was not sent as JSON.
pub const STATUS_UNSUPPORTED_MEDIA_TYPE: u16 = 415;

/// The `Content-Type` header of a request, as far as it could be read.
#[derive(Clone, Debug, PartialEq, Eq)]
pub enum ContentTypeHeader {
    /// The request has no such header.
    Missing,
    /// The header is there, but its value cannot be read as text.
    Unreadable,
    /// The value of the header.
    Text(String),
}

/// Mathematical value of a [`ContentTypeHeader`].
pub enum ContentTypeHeaderView {
    Missing,
    Unreadable,
    Text(Seq<char>),
}

impl View for ContentTypeHeader {
    type V = ContentTypeHeaderView;

    open spec fn view(&self) -> ContentTypeHeaderView {
        match self {
            ContentTypeHeader::Missing => ContentTypeHeaderView::Missing,
            ContentTypeHeader::Unreadable => ContentTypeHeaderView::Unreadable,
            ContentTypeHeader::Text(value) => ContentTypeHeaderView::Text(value@),
        }
    }
}

/// The body of a request to the endpoint.
#[derive(Clone, Debug, PartialEq, Eq)]
pub struct FetchMessagesRequest {
    pub username: String,
    pub password: String,
    pub last_id: Option<String>,
    pub last_sent_id: Option<String>,
    pub device: String,
}

/// Mathematical value of a [`FetchMessagesRequest`].
pub struct FetchMessagesRequestView {
    pub username: Seq<char>,
    pub password: Seq<char>,
    pub last_id: Option<Seq<char>>,
    pub last_sent_id: Option<Seq<char>>,
    pub device: Seq<char>,
}

impl View for FetchMessagesRequest {
    type V = FetchMessagesRequestView;

    open spec fn view(&self) -> FetchMessagesRequestView {
        FetchMessagesRequestView {
            username: self.username@,
            password: self.password@,
            last_id: text_of(self.last_id),
            last_sent_id: text_of(self.last_sent_id),
            device: self.device@,
        }
    }
}

/// The value of a body that may have failed to parse.
pub open spec fn body_of(body: Option<&FetchMessagesRequest>) -> Option<FetchMessagesRequestView> {
    match body {
        Some(request) => Some(request@),
        None => None,
    }
}

/// One message record of an answer.
#[derive(Clone, Debug, PartialEq, Eq)]
pub struct SmsMessage {
    pub sms_id: String,
    pub sending_date: String,
    pub sender: Option<String>,
    pub recipient: Option<String>,
    pub sms_text: String,
    pub content_type: String,
    pub disposition_notification: Option<bool>,
    pub displayed: Option<bool>,
    pub stream_id: Option<String>,
}

/// Mathematical value of an [`SmsMessage`].
pub struct SmsMessageView {
    pub sms_id: Seq<char>,
    pub sending_date: Seq<char>,
    pub sender: Option<Seq<char>>,
    pub recipient: Option<Seq<char>>,
    pub sms_text: Seq<char>,
    pub content_type: Seq<char>,
    pub disposition_notification: Option<bool>,
    pub displayed: Option<bool>,
    pub stream_id: Option<Seq<char>>,
}

impl View for SmsMessage {
    type V = SmsMessageView;

    open spec fn view(&self) -> SmsMessageView {
        SmsMessageView {
            sms_id: self.sms_id@,
            sending_date: self.sending_date@,
            sender: text_of(self.sender),
            recipient: text_of(self.recipient),
            sms_text: self.sms_text@,
            content_type: self.content_type@,
            disposition_notification: self.disposition_notification,
            displayed: self.displayed,
            stream_id: text_of(self.stream_id),
        }
    }
}

/// The records of an answer: when it was made, and the messages received and
/// sent since the identifiers that the request named.
#[derive(Clone, Debug, PartialEq, Eq)]
pub struct FetchMessagesResponse {
    pub date: String,
    pub received_smss: Vec<SmsMessage>,
    pub sent_smss: Vec<SmsMessage>,
}

/// Mathematical value of a [`FetchMessagesResponse`].
pub struct FetchMessagesResponseView {
    pub date: Seq<char>,
    pub received_smss: Seq<SmsMessageView>,
    pub sent_smss: Seq<SmsMessageView>,
}

/// The values of a list of records, in order.
pub open spec fn records_of(records: Vec<SmsMessage>) -> Seq<SmsMessageView> {
    Seq::new(records@.len(), |i: int| records@[i]@)
}

impl View for FetchMessagesResponse {
    type V = FetchMessagesResponseView;

    open spec fn view(&self) -> FetchMessagesResponseView {
        FetchMessagesResponseView {
            date: self.date@,
            received_smss: records_of(self.received_smss),
            sent_smss: records_of(self.sent_smss),
        }
    }
}

/// What the endpoint answers.
#[derive(Clone, Debug, PartialEq, Eq)]
pub enum FetchMessagesReply {
    /// The request is refused with this status and this text under `error`.
    Rejected { status: u16, error: String },
    /// The request is served with these records.
    Messages(FetchMessagesResponse),
}

/// Mathematical value of a [`FetchMessagesReply`].
pub enum FetchMessagesReplyView {
    Rejected { status: u16, error: Seq<char> },
    Messages(FetchMessagesResponseView),
}

impl View for FetchMessagesReply {
    type V = FetchMessagesReplyView;

    open spec fn view(&self) -> FetchMessagesReplyView {
        match self {
            FetchMessagesReply::Rejected { status, error } => FetchMessagesReplyView::Rejected {
                status: *status,
                error: error@,
            },
            FetchMessagesReply::Messages(response) => FetchMessagesReplyView::Messages(response@),
        }
    }
}

impl FetchMessagesReplyView {
    /// The HTTP status that the answer is sent with.
    pub open spec fn status(self) -> u16 {
        match self {
            FetchMessagesReplyView::Rejected { status, error } => status,
            FetchMessagesReplyView::Messages(_) => STATUS_OK,
        }
    }
}

/// Whether a content type names JSON, with or without parameters behind it.
pub open spec fn is_json_content_type(value: Seq<char>) -> bool {
    "application/json"@.is_prefix_of(value)
}

/// Whether the endpoint accepts a request with this `Content-Type` header:
/// the header must be there, and its value must be text that names JSON.
pub open spec fn content_type_accepted(header: ContentTypeHeaderView) -> bool {
    match header {
        ContentTypeHeaderView::Missing => false,
        ContentTypeHeaderView::Unreadable => false,
        ContentTypeHeaderView::Text(value) => is_json_content_type(value),
    }
}

/// Whether a request asks for all messages: it names no last identifier, or
/// an empty one.
pub open spec fn asks_from_start(last: Option<Seq<char>>) -> bool {
    match last {
        None => true,
        Some(id) => id.len() == 0,
    }
}

/// The one message that the endpoint reports as received.
pub open spec fn demo_received() -> SmsMessageView {
    SmsMessageView {
        sms_id: "received-1001"@,
        sending_date: "2024-01-15T10:30:00Z"@,
        sender: Some("+1234567890"@),
        recipient: None,
        sms_text: "Hello, this is a demo received message!"@,
        content_type: "text/plain"@,
        disposition_notification: Some(false),
        displayed: Some(false),
        stream_id: Some("stream-recv-1"@),
    }
}

/// The one message that the endpoint reports as sent.
pub open spec fn demo_sent() -> SmsMessageView {
    SmsMessageView {
        sms_id: "sent-2001"@,
        sending_date: "2024-01-15T11:45:00Z"@,
        sender: None,
        recipient: Some("+9876543210"@),
        sms_text: "This is a demo sent message!"@,
        content_type: "text/plain"@,
        disposition_notification: Some(true),
        displayed: None,
        stream_id: Some("stream-sent-1"@),
    }
}

/// The refusal of a request that the endpoint does not serve; `None` for one
/// that it serves. The content type is judged first, then the body, then
/// the credentials.
pub open spec fn refusal(header: ContentTypeHeaderView, body: Option<FetchMessagesRequestView>) -> Option<
    FetchMessagesReplyView,
> {
    if !content_type_accepted(header) {
        Some(
            FetchMessagesReplyView::Rejected {
                status: STATUS_UNSUPPORTED_MEDIA_TYPE,
                error: "Content-Type must be application/json"@,
            },
        )
    } else if body is None {
        Some(
            FetchMessagesReplyView::Rejected {
                status: STATUS_BAD_REQUEST,
                error: "Invalid JSON body"@,
            },
        )
    } else if body->0.username.len() == 0 || body->0.password.len() == 0 {
        Some(
            FetchMessagesReplyView::Rejected {
                status: STATUS_UNAUTHORIZED,
                error: "Invalid credentials: username and password must not be empty"@,
            },
        )
    } else {
        None
    }
}

/// Whether the endpoint serves a request: it was sent as JSON, its body
/// could be read, and it names a user and a password.
pub open spec fn is_served(header: ContentTypeHeaderView, body: Option<FetchMessagesRequestView>) -> bool {
    refusal(header, body) is None
}

/// The records that the endpoint serves to `request` at the time `now`.
pub open spec fn served(request: FetchMessagesRequestView, now: Seq<char>) -> FetchMessagesResponseView {
    FetchMessagesResponseView {
        date: now,
        received_smss: if asks_from_start(request.last_id) {
            seq![demo_received()]
        } else {
            seq![]
        },
        sent_smss: if asks_from_start(request.last_sent_id) {
            seq![demo_sent()]
        } else {
            seq![]
        },
    }
}

/// The answer of the endpoint to a request with this content type and this
/// body (`None` where the body is no valid request), made at the time `now`:
/// its refusal, or the records that it is served.
pub open spec fn fetch_reply(
    header: ContentTypeHeaderView,
    body: Option<FetchMessagesRequestView>,
    now: Seq<char>,
) -> FetchMessagesReplyView {
    match refusal(header, body) {
        Some(reply) => reply,
        None => FetchMessagesReplyView::Messages(served(body->0, now)),
    }
}

fn accepts_content_type(header: &ContentTypeHeader) -> (accepted: bool)
    ensures
        accepted == content_type_accepted(header@),
{
    match header {
        ContentTypeHeader::Missing => false,
        ContentTypeHeader::Unreadable => false,
        ContentTypeHeader::Text(value) => starts_with(value.as_str(), "application/json"),
    }
}

fn from_start(last: &Option<String>) -> (all: bool)
    ensures
        all == asks_from_start(text_of(*last)),
{
    match last {
        None => true,
        Some(id) => id.as_str().is_empty(),
    }
}

fn received_record() -> (record: SmsMessage)
    ensures
        record@ == demo_received(),
{
    SmsMessage {
        sms_id: "received-1001".to_owned(),
        sending_date: "2024-01-15T10:30:00Z".to_owned(),
        sender: Some("+1234567890".to_owned()),
        recipient: None,
        sms_text: "Hello, this is a demo received message!".to_owned(),
        content_type: "text/plain".to_owned(),
        disposition_notification: Some(false),
        displayed: Some(false),
        stream_id: Some("stream-recv-1".to_owned()),
    }
}

fn sent_record() -> (record: SmsMessage)
    ensures
        record@ == demo_sent(),
{
    SmsMessage {
        sms_id: "sent-2001".to_owned(),
        sending_date: "2024-01-15T11:45:00Z".to_owned(),
        sender: None,
        recipient: Some("+9876543210".to_owned()),
        sms_text: "This is a demo sent message!".to_owned(),
        content_type: "text/plain".to_owned(),
        disposition_notification: Some(true),
        displayed: None,
        stream_id: Some("stream-sent-1".to_owned()),
    }
}

fn rejected(status: u16, error: &str) -> (reply: FetchMessagesReply)
    ensures
        reply@ == (FetchMessagesReplyView::Rejected { status, error: error@ }),
{
    FetchMessagesReply::Rejected { status, error: error.to_owned() }
}

/// The refusal of a request that is not served; `None` for one that is.
fn refuse(content_type: &ContentTypeHeader, body: Option<&FetchMessagesRequest>) -> (reply: Option<
    FetchMessagesReply,
>)
    ensures
        match reply {
            Some(reply) => refusal(content_type@, body_of(body)) == Some(reply@),
            None => refusal(content_type@, body_of(body)) is None,
        },
{
    if !accepts_content_type(content_type) {
        return Some(rejected(STATUS_UNSUPPORTED_MEDIA_TYPE, "Content-Type must be application/json"));
    }
    let request = match body {
        Some(request) => request,
        None => {
            return Some(rejected(STATUS_BAD_REQUEST, "Invalid JSON body"));
        },
    };
    if request.username.as_str().is_empty() || request.password.as_str().is_empty() {
        return Some(
            rejected(
                STATUS_UNAUTHORIZED,
                "Invalid credentials: username and password must not be empty",
            ),
        );
    }
    None
}

/// The records for a request that is served at the time `now`.
fn serve(request: &FetchMessagesRequest, now: String) -> (response: FetchMessagesResponse)
    ensures
        response@ == served(request@, now@),
{
    let mut received_smss: Vec<SmsMessage> = Vec::new();
    let mut sent_smss: Vec<SmsMessage> = Vec::new();
    if from_start(&request.last_id) {
        received_smss.push(received_record());
    }
    if from_start(&request.last_sent_id) {
        sent_smss.push(sent_record());
    }
    let response = FetchMessagesResponse { date: now, received_smss, sent_smss };
    assert(response@.received_smss =~= served(request@, now@).received_smss);
    assert(response@.sent_smss =~= served(request@, now@).sent_smss);
    response
}

/// Answers a request to the endpoint at the time `now`.
pub fn fetch_messages_at(
    content_type: &ContentTypeHeader,
    body: Option<&FetchMessagesRequest>,
    now: String,
) -> (reply: FetchMessagesReply)
    ensures
        reply@ == fetch_reply(content_type@, body_of(body), now@),
{
    match refuse(content_type, body) {
        Some(reply) => reply,
        None => match body {
            Some(request) => FetchMessagesReply::Messages(serve(request, now)),
            None => rejected(STATUS_BAD_REQUEST, "Invalid JSON body"),
        },
    }
}

/// Answers a request to the endpoint, with `clock` to tell the time as an
/// RFC 3339 timestamp. The clock is read once for a request that is served,
/// after the request has passed all tests, and not at all for a request
/// that is refused.
pub fn fetch_messages<C: FnOnce() -> String>(
    content_type: &ContentTypeHeader,
    body: Option<&FetchMessagesRequest>,
    clock: C,
) -> (reply: FetchMessagesReply)
    requires
        refusal(content_type@, body_of(body)) is None ==> call_requires(clock, ()),
    ensures
        refusal(content_type@, body_of(body)) matches Some(refused) ==> reply@ == refused,
        refusal(content_type@, body_of(body)) is None ==> exists|now: String|
            call_ensures(clock, (), now) && reply@ == fetch_reply(
                content_type@,
                body_of(body),
                now@,
            ),
{
    match refuse(content_type, body) {
        Some(reply) => reply,
        None => match body {
            Some(request) => {
                let now = clock();
                FetchMessagesReply::Messages(serve(request, now))
            },
            None => rejected(STATUS_BAD_REQUEST, "Invalid JSON body"),
        },
    }
}

/// A request whose content type is text that does not begin with
/// `application/json` is refused as an unsupported media type, whatever its
/// body holds and whenever it is made.
pub proof fn lemma_other_content_type_is_refused(
    value: Seq<char>,
    body: Option<FetchMessagesRequestView>,
    now: Seq<char>,
)
    requires
        !is_json_content_type(value),
    ensures
        fetch_reply(ContentTypeHeaderView::Text(value), body, now).status()
            == STATUS_UNSUPPORTED_MEDIA_TYPE,
        fetch_reply(ContentTypeHeaderView::Text(value), body, now) is Rejected,
{
}

/// `text/plain` is no JSON content type, so a request sent as plain text is
/// refused as an unsupported media type, whatever its body holds.
pub proof fn lemma_plain_text_is_refused(body: Option<FetchMessagesRequestView>, now: Seq<char>)
    ensures
        !is_json_content_type("text/plain"@),
        fetch_reply(ContentTypeHeaderView::Text("text/plain"@), body, now).status()
            == STATUS_UNSUPPORTED_MEDIA_TYPE,
{
    reveal_strlit("text/plain");
    reveal_strlit("application/json");
}

/// A request whose `Content-Type` header is missing or cannot be read as
/// text is refused as an unsupported media type, whatever its body holds.
pub proof fn lemma_no_content_type_is_refused(body: Option<FetchMessagesRequestView>, now: Seq<char>)
    ensures
        fetch_reply(ContentTypeHeaderView::Missing, body, now).status()
            == STATUS_UNSUPPORTED_MEDIA_TYPE,
        fetch_reply(ContentTypeHeaderView::Unreadable, body, now).status()
            == STATUS_UNSUPPORTED_MEDIA_TYPE,
{
}

/// The endpoint judges in a fixed order: first the content type, then the
/// body, then the credentials. Each status stands for exactly one reason,
/// and every refusal carries a text.
pub proof fn lemma_status_order(
    header: ContentTypeHeaderView,
    body: Option<FetchMessagesRequestView>,
    now: Seq<char>,
)
    ensures
        fetch_reply(header, body, now).status() == STATUS_UNSUPPORTED_MEDIA_TYPE
            <==> !content_type_accepted(header),
        fetch_reply(header, body, now).status() == STATUS_BAD_REQUEST <==> content_type_accepted(
            header,
        ) && body is None,
        fetch_reply(header, body, now).status() == STATUS_UNAUTHORIZED <==> content_type_accepted(
            header,
        ) && body is Some && (body->0.username.len() == 0 || body->0.password.len() == 0),
        fetch_reply(header, body, now).status() == STATUS_OK <==> is_served(header, body),
        fetch_reply(header, body, now) is Rejected <==> !is_served(header, body),
        fetch_reply(header, body, now) matches FetchMessagesReplyView::Rejected { status, error }
            ==> error.len() > 0,
{
    reveal_strlit("Content-Type must be application/json");
    reveal_strlit("Invalid JSON body");
    reveal_strlit("Invalid credentials: username and password must not be empty");
}

/// A request that is let through by its content type and whose body could be
/// read, but which names no user or no password, is refused as unauthorized.
pub proof fn lemma_missing_credentials_are_refused(
    header: ContentTypeHeaderView,
    request: FetchMessagesRequestView,
    now: Seq<char>,
)
    requires
        content_type_accepted(header),
        request.username.len() == 0 || request.password.len() == 0,
    ensures
        fetch_reply(header, Some(request), now).status() == STATUS_UNAUTHORIZED,
        fetch_reply(header, Some(request), now) is Rejected,
{
}

/// The endpoint serves records exactly to the requests that pass all three
/// tests, and then each list holds at most its one record.
pub proof fn lemma_served_requests(
    header: ContentTypeHeaderView,
    body: Option<FetchMessagesRequestView>,
    now: Seq<char>,
)
    ensures
        fetch_reply(header, body, now) is Messages <==> content_type_accepted(header) && body is Some
            && body->0.username.len() > 0 && body->0.password.len() > 0,
        fetch_reply(header, body, now) is Messages <==> fetch_reply(header, body, now).status()
            == STATUS_OK,
        fetch_reply(header, body, now) matches FetchMessagesReplyView::Messages(response) ==> {
            &&& response.date == now
            &&& response.received_smss.len() <= 1
            &&& response.sent_smss.len() <= 1
        },
{
}

} // verus!
