//! The HTTP-token backend: what it sends to the push provider for a device
//! token, and what it makes of the provider's answer.
//!
//! The backend itself performs no network call. It builds the request, the
//! caller posts it, and the backend classifies what came back.

use vstd::prelude::*;
use crate::config::{AcrobitsConfig, AcrobitsConfigView, BackendConfig, BackendConfigView};
use crate::outcome::{outcome_of_code, map_acrobits_response_to_error, PushOutcome};

verus! {

/// The action that every request asks of the provider.
pub open spec fn request_verb() -> Seq<char> {
    "NotifyGenericTextMessage"@
}

/// The text of every notification.
pub open spec fn request_message() -> Seq<char> {
    "New Message"@
}

/// The payload of one request to the provider.
#[derive(Clone, Debug, PartialEq, Eq)]
pub struct AcrobitsRequest {
    pub verb: String,
    pub app_id: String,
    pub device_token: String,
    pub message: String,
}

/// Mathematical value of an [`AcrobitsRequest`].
pub struct AcrobitsRequestView {
    pub verb: Seq<char>,
    pub app_id: Seq<char>,
    pub device_token: Seq<char>,
    pub message: Seq<char>,
}

impl View for AcrobitsRequest {
    type V = AcrobitsRequestView;

    open spec fn view(&self) -> AcrobitsRequestView {
        AcrobitsRequestView {
            verb: self.verb@,
            app_id: self.app_id@,
            device_token: self.device_token@,
            message: self.message@,
        }
    }
}

/// The payload that notifies the device `token` of the application `app_id`.
pub open spec fn request_for(app_id: Seq<char>, token: Seq<char>) -> AcrobitsRequestView {
    AcrobitsRequestView {
        verb: request_verb(),
        app_id,
        device_token: token,
        message: request_message(),
    }
}

/// The members of the JSON object that carries a payload, each with its name
/// on the wire, in the order in which they are written.
pub open spec fn wire_fields(request: AcrobitsRequestView) -> Seq<(Seq<char>, Seq<char>)> {
    seq![
        ("verb"@, request.verb),
        ("AppId"@, request.app_id),
        ("DeviceToken"@, request.device_token),
        ("Message"@, request.message),
    ]
}

/// The names and values of a list of members.
pub open spec fn fields_of(fields: Vec<(String, String)>) -> Seq<(Seq<char>, Seq<char>)> {
    Seq::new(fields@.len(), |i: int| (fields@[i].0@, fields@[i].1@))
}

impl AcrobitsRequest {
    /// The members of the JSON object that the provider expects.
    pub fn fields(&self) -> (fields: Vec<(String, String)>)
        ensures
            fields_of(fields) == wire_fields(self@),
    {
        let mut fields: Vec<(String, String)> = Vec::new();
        fields.push(("verb".to_owned(), self.verb.clone()));
        fields.push(("AppId".to_owned(), self.app_id.clone()));
        fields.push(("DeviceToken".to_owned(), self.device_token.clone()));
        fields.push(("Message".to_owned(), self.message.clone()));
        assert(fields_of(fields) =~= wire_fields(self@));
        fields
    }
}

/// A request ready to be posted: the URL, and the payload to send as JSON.
#[derive(Clone, Debug, PartialEq, Eq)]
pub struct PushRequest {
    pub endpoint: String,
    pub payload: AcrobitsRequest,
}

/// Mathematical value of a [`PushRequest`].
pub struct PushRequestView {
    pub endpoint: Seq<char>,
    pub payload: AcrobitsRequestView,
}

impl View for PushRequest {
    type V = PushRequestView;

    open spec fn view(&self) -> PushRequestView {
        PushRequestView { endpoint: self.endpoint@, payload: self.payload@ }
    }
}

/// The request that a backend with this configuration posts for `token`.
pub open spec fn push_request(config: AcrobitsConfigView, token: Seq<char>) -> PushRequestView {
    PushRequestView { endpoint: config.endpoint, payload: request_for(config.app_id, token) }
}

/// The provider's answer: a status code, and a text that is only logged.
#[derive(Clone, Debug, PartialEq, Eq)]
pub struct AcrobitsResponse {
    pub code: u16,
    pub response: String,
}

/// Why a request did not reach the provider, or its answer did not come back.
#[derive(Clone, Copy, Debug, PartialEq, Eq, Structural)]
pub enum TransportFailure {
    /// No answer came in time.
    Timeout,
    /// No connection to the provider could be made.
    Connect,
    /// The exchange broke in some other way.
    Other,
}

/// What came of posting a request.
#[derive(Clone, Debug, PartialEq, Eq)]
pub enum ProviderReply {
    /// The provider answered, and the answer could be read.
    Response(AcrobitsResponse),
    /// The provider answered with a body that is no valid answer.
    Unparseable,
    /// The request failed on the network.
    Failed(TransportFailure),
}

/// The outcome of a push attempt that ended with this reply. An answer is
/// judged by its status code alone. Where no answer could be had or read the
/// attempt may be repeated: the request may or may not have been served.
pub open spec fn outcome_of_reply(reply: ProviderReply) -> PushOutcome {
    match reply {
        ProviderReply::Response(response) => outcome_of_code(response.code),
        ProviderReply::Unparseable => PushOutcome::TransientFailure,
        ProviderReply::Failed(_) => PushOutcome::TransientFailure,
    }
}

/// A backend for one application of the push provider.
#[derive(Debug)]
pub struct FpushAcrobits {
    config: AcrobitsConfig,
}

impl FpushAcrobits {
    /// The configuration that the backend was made from.
    pub closed spec fn spec_config(&self) -> AcrobitsConfigView {
        self.config@
    }

    /// Makes the backend for `config`. A configuration without application
    /// identifier gives no backend but `InitFailure`; every other one gives
    /// a backend that holds it unchanged.
    pub fn init(config: &AcrobitsConfig) -> (backend: Result<Self, PushOutcome>)
        ensures
            backend is Err <==> config@.app_id.len() == 0,
            backend is Err ==> backend == Err::<Self, PushOutcome>(PushOutcome::InitFailure),
            backend is Ok ==> backend->Ok_0.spec_config() == config@,
    {
        if config.app_id().is_empty() {
            return Err(PushOutcome::InitFailure);
        }
        Ok(Self { config: config.clone() })
    }

    /// The configuration that the backend was made from.
    pub fn config(&self) -> (config: &AcrobitsConfig)
        ensures
            config@ == self.spec_config(),
    {
        &self.config
    }

    /// The request that notifies the device `token`.
    pub fn request(&self, token: String) -> (request: PushRequest)
        ensures
            request@ == push_request(self.spec_config(), token@),
    {
        PushRequest {
            endpoint: self.config.endpoint().to_owned(),
            payload: AcrobitsRequest {
                verb: "NotifyGenericTextMessage".to_owned(),
                app_id: self.config.app_id().to_owned(),
                device_token: token,
                message: "New Message".to_owned(),
            },
        }
    }

    /// Notifies the device `token`, with `post` to post the request and
    /// bring back what came of it. `post` is called once, with the request
    /// for `token`, and whatever it brings back has an outcome.
    pub fn send<F: FnOnce(PushRequest) -> ProviderReply>(&self, token: String, post: F) -> (outcome:
        PushOutcome)
        requires
            forall|request: PushRequest|
                request@ == push_request(self.spec_config(), token@) ==> call_requires(
                    post,
                    (request,),
                ),
        ensures
            exists|request: PushRequest, reply: ProviderReply|
                {
                    &&& request@ == push_request(self.spec_config(), token@)
                    &&& call_ensures(post, (request,), reply)
                    &&& outcome == outcome_of_reply(reply)
                },
    {
        let request = self.request(token);
        let reply = post(request);
        Self::outcome(&reply)
    }

    /// The outcome of the attempt whose request ended with `reply`.
    pub fn outcome(reply: &ProviderReply) -> (outcome: PushOutcome)
        ensures
            outcome == outcome_of_reply(*reply),
    {
        match reply {
            ProviderReply::Response(response) => map_acrobits_response_to_error(response.code),
            ProviderReply::Unparseable => PushOutcome::TransientFailure,
            ProviderReply::Failed(_) => PushOutcome::TransientFailure,
        }
    }
}

/// The request that a backend with this configuration posts for `token`.
pub open spec fn backend_request(config: BackendConfigView, token: Seq<char>) -> PushRequestView {
    match config {
        BackendConfigView::HttpToken(config) => push_request(config, token),
    }
}

/// A backend of the service, by the family of its push provider. Every
/// backend can do the same: send a notification to a device token and say
/// what came of it.
#[derive(Debug)]
pub enum Backend {
    /// A provider that is reached by an HTTP request with a device token.
    HttpToken(FpushAcrobits),
}

impl Backend {
    /// The configuration that the backend was made from.
    pub open spec fn spec_config(&self) -> BackendConfigView {
        match self {
            Backend::HttpToken(backend) => BackendConfigView::HttpToken(backend.spec_config()),
        }
    }

    /// Makes the backend for `config`. A configuration from which no
    /// backend can be made gives `InitFailure`; every other one gives a
    /// backend that holds it unchanged.
    pub fn init(config: &BackendConfig) -> (backend: Result<Self, PushOutcome>)
        ensures
            backend is Err <==> !config@.usable(),
            backend is Err ==> backend == Err::<Self, PushOutcome>(PushOutcome::InitFailure),
            backend is Ok ==> backend->Ok_0.spec_config() == config@,
    {
        match config {
            BackendConfig::HttpToken(config) => match FpushAcrobits::init(config) {
                Ok(backend) => Ok(Backend::HttpToken(backend)),
                Err(failure) => Err(failure),
            },
        }
    }

    /// The configuration that the backend was made from.
    pub fn config(&self) -> (config: BackendConfig)
        ensures
            config@ == self.spec_config(),
    {
        match self {
            Backend::HttpToken(backend) => BackendConfig::HttpToken(backend.config().clone()),
        }
    }

    /// The request that notifies the device `token`.
    pub fn request(&self, token: String) -> (request: PushRequest)
        ensures
            request@ == backend_request(self.spec_config(), token@),
    {
        match self {
            Backend::HttpToken(backend) => backend.request(token),
        }
    }

    /// Notifies the device `token`, with `post` to post the request and
    /// bring back what came of it. `post` is called once, with the request
    /// for `token`, and whatever it brings back has an outcome.
    pub fn send<F: FnOnce(PushRequest) -> ProviderReply>(&self, token: String, post: F) -> (outcome:
        PushOutcome)
        requires
            forall|request: PushRequest|
                request@ == backend_request(self.spec_config(), token@) ==> call_requires(
                    post,
                    (request,),
                ),
        ensures
            exists|request: PushRequest, reply: ProviderReply|
                {
                    &&& request@ == backend_request(self.spec_config(), token@)
                    &&& call_ensures(post, (request,), reply)
                    &&& outcome == outcome_of_reply(reply)
                },
    {
        match self {
            Backend::HttpToken(backend) => backend.send(token, post),
        }
    }
}

/// A request that fails on the network, by a timeout, a refused connection
/// or otherwise, ends as a transient failure, and so does an answer that
/// cannot be read.
pub proof fn lemma_network_failure_is_transient(failure: TransportFailure)
    ensures
        outcome_of_reply(ProviderReply::Failed(failure)) == PushOutcome::TransientFailure,
        outcome_of_reply(ProviderReply::Unparseable) == PushOutcome::TransientFailure,
{
}

} // verus!
