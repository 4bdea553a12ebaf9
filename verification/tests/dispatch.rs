use fpush::config::{AcrobitsConfig, BackendConfig};
use fpush::dispatch::{Dispatcher, NotificationIntent};
use fpush::outcome::PushOutcome;
use fpush::push::{AcrobitsResponse, ProviderReply, PushRequest, TransportFailure};

fn config(endpoint: &str, app_id: &str) -> BackendConfig {
    BackendConfig::HttpToken(AcrobitsConfig::new(endpoint.to_string(), app_id.to_string()))
}

fn app_id(dispatcher: &Dispatcher, selector: &str) -> String {
    match dispatcher.backend(selector).unwrap().config() {
        BackendConfig::HttpToken(config) => config.app_id().to_string(),
    }
}

fn endpoint(dispatcher: &Dispatcher, selector: &str) -> String {
    match dispatcher.backend(selector).unwrap().config() {
        BackendConfig::HttpToken(config) => config.endpoint().to_string(),
    }
}

fn intent(selector: &str, token: &str) -> NotificationIntent {
    NotificationIntent::new(selector.to_string(), token.to_string())
}

fn one_backend() -> Dispatcher {
    let modules = vec![("acrobits".to_string(), config("https://push.example/send", "app-7"))];
    Dispatcher::init(&modules).unwrap()
}

fn provider(code: u16, text: &'static str) -> impl FnOnce(PushRequest) -> ProviderReply {
    move |_request| ProviderReply::Response(AcrobitsResponse { code, response: text.to_string() })
}

#[test]
fn intent_keeps_selector_and_token() {
    let intent = intent("acrobits", "tok-1");
    assert_eq!(intent.selector(), "acrobits");
    assert_eq!(intent.token(), "tok-1");
}

#[test]
fn end_to_end_delivered_on_200() {
    let outcome = one_backend().dispatch(&intent("acrobits", "tok-1"), provider(200, "ok"));
    assert_eq!(outcome, PushOutcome::Delivered);
}

#[test]
fn end_to_end_token_blocked_on_404() {
    let outcome = one_backend().dispatch(&intent("acrobits", "tok-1"), provider(404, "gone"));
    assert_eq!(outcome, PushOutcome::TokenBlocked);
}

#[test]
fn dispatch_reports_the_other_codes() {
    let dispatcher = one_backend();
    let intent = intent("acrobits", "tok-1");
    assert_eq!(dispatcher.dispatch(&intent, provider(400, "bad")), PushOutcome::PermanentFailure);
    assert_eq!(dispatcher.dispatch(&intent, provider(500, "down")), PushOutcome::TransientFailure);
    assert_eq!(dispatcher.dispatch(&intent, provider(302, "moved")), PushOutcome::Unknown(302));
}

#[test]
fn dispatch_posts_the_request_of_the_named_backend() {
    let dispatcher = one_backend();
    let outcome = dispatcher.dispatch(&intent("acrobits", "tok-1"), |request| {
        assert_eq!(request.endpoint, "https://push.example/send");
        assert_eq!(request.payload.verb, "NotifyGenericTextMessage");
        assert_eq!(request.payload.app_id, "app-7");
        assert_eq!(request.payload.device_token, "tok-1");
        assert_eq!(request.payload.message, "New Message");
        ProviderReply::Response(AcrobitsResponse { code: 200, response: "ok".to_string() })
    });
    assert_eq!(outcome, PushOutcome::Delivered);
}

#[test]
fn dispatch_to_unknown_backend_posts_nothing() {
    let outcome = one_backend().dispatch(&intent("apns", "tok-1"), |_request| {
        panic!("a request was posted for a backend that is not there")
    });
    assert_eq!(outcome, PushOutcome::UnknownBackend);
}

#[test]
fn dispatch_on_network_failure_is_transient() {
    let dispatcher = one_backend();
    let intent = intent("acrobits", "tok-1");
    let timeout = dispatcher.dispatch(&intent, |_| ProviderReply::Failed(TransportFailure::Timeout));
    assert_eq!(timeout, PushOutcome::TransientFailure);
    let refused = dispatcher.dispatch(&intent, |_| ProviderReply::Failed(TransportFailure::Connect));
    assert_eq!(refused, PushOutcome::TransientFailure);
    let garbled = dispatcher.dispatch(&intent, |_| ProviderReply::Unparseable);
    assert_eq!(garbled, PushOutcome::TransientFailure);
}

#[test]
fn empty_dispatcher_knows_no_backend() {
    let dispatcher = Dispatcher::new();
    assert!(dispatcher.backend("acrobits").is_none());
    assert_eq!(dispatcher.route(&intent("acrobits", "t")).err(), Some(PushOutcome::UnknownBackend));
    assert_eq!(dispatcher.route(&intent("", "t")).err(), Some(PushOutcome::UnknownBackend));
}

#[test]
fn init_of_no_modules_gives_an_empty_dispatcher() {
    let dispatcher = Dispatcher::init(&Vec::new()).unwrap();
    assert!(dispatcher.backend("acrobits").is_none());
}

#[test]
fn init_fails_when_one_backend_cannot_be_made() {
    let modules = vec![
        ("first".to_string(), config("https://one.example", "app-1")),
        ("broken".to_string(), config("https://two.example", "")),
        ("third".to_string(), config("https://three.example", "app-3")),
    ];
    assert_eq!(Dispatcher::init(&modules).err(), Some(PushOutcome::InitFailure));
}

#[test]
fn init_registers_every_module() {
    let modules = vec![
        ("first".to_string(), config("https://one.example", "app-1")),
        ("second".to_string(), config("https://two.example", "app-2")),
    ];
    let dispatcher = Dispatcher::init(&modules).unwrap();
    assert_eq!(dispatcher.backend("first").unwrap().config(), modules[0].1);
    assert_eq!(dispatcher.backend("second").unwrap().config(), modules[1].1);
    assert!(dispatcher.backend("third").is_none());
}

#[test]
fn later_module_under_the_same_selector_counts() {
    let modules = vec![
        ("same".to_string(), config("https://one.example", "app-1")),
        ("other".to_string(), config("https://two.example", "app-2")),
        ("same".to_string(), config("https://three.example", "app-3")),
    ];
    let dispatcher = Dispatcher::init(&modules).unwrap();
    assert_eq!(app_id(&dispatcher, "same"), "app-3");
    assert_eq!(app_id(&dispatcher, "other"), "app-2");
}

#[test]
fn register_replaces_and_adds() {
    let mut dispatcher = Dispatcher::new();
    assert_eq!(dispatcher.register("a".to_string(), &config("https://one.example", "app-1")), Ok(()));
    assert_eq!(dispatcher.register("b".to_string(), &config("https://two.example", "app-2")), Ok(()));
    assert_eq!(dispatcher.register("a".to_string(), &config("https://new.example", "app-9")), Ok(()));
    assert_eq!(endpoint(&dispatcher, "a"), "https://new.example");
    assert_eq!(app_id(&dispatcher, "a"), "app-9");
    assert_eq!(app_id(&dispatcher, "b"), "app-2");
}

#[test]
fn register_without_app_id_changes_nothing() {
    let mut dispatcher = Dispatcher::new();
    assert_eq!(dispatcher.register("a".to_string(), &config("https://one.example", "app-1")), Ok(()));
    assert_eq!(
        dispatcher.register("a".to_string(), &config("https://two.example", "")),
        Err(PushOutcome::InitFailure)
    );
    assert_eq!(
        dispatcher.register("b".to_string(), &config("https://two.example", "")),
        Err(PushOutcome::InitFailure)
    );
    assert_eq!(endpoint(&dispatcher, "a"), "https://one.example");
    assert!(dispatcher.backend("b").is_none());
}

#[test]
fn route_builds_the_request_of_the_backend() {
    let request = one_backend().route(&intent("acrobits", "tok-1")).unwrap();
    assert_eq!(request.endpoint, "https://push.example/send");
    assert_eq!(request.payload.app_id, "app-7");
    assert_eq!(request.payload.device_token, "tok-1");
}

#[test]
fn selectors_are_compared_exactly() {
    let dispatcher = one_backend();
    assert!(dispatcher.backend("acrobits").is_some());
    assert!(dispatcher.backend("Acrobits").is_none());
    assert!(dispatcher.backend("acrobits ").is_none());
    assert!(dispatcher.backend("").is_none());
}
