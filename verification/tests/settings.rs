use fpush::component::{ConnectionState, StreamAction, StreamEvent};
use fpush::config::{AcrobitsConfig, BackendConfig};
use fpush::outcome::PushOutcome;
use fpush::settings::{ComponentSettings, Settings, TimeoutSettings};
use fpush::supervisor::{SupervisorAction, SupervisorEvent, SupervisorState};
use std::time::Duration;

fn component() -> ComponentSettings {
    ComponentSettings::new(
        "push.example.org".to_string(),
        "secret".to_string(),
        "xmpp.example.org".to_string(),
        5347,
    )
}

fn settings(app_id: &str) -> Settings {
    Settings::new(
        component(),
        TimeoutSettings::new(Duration::from_secs(20)),
        vec![(
            "acrobits".to_string(),
            BackendConfig::HttpToken(AcrobitsConfig::new(
                "https://push.example/send".to_string(),
                app_id.to_string(),
            )),
        )],
    )
}

#[test]
fn component_settings_keep_their_parts() {
    let component = component();
    assert_eq!(component.component_hostname(), "push.example.org");
    assert_eq!(component.component_key(), "secret");
    assert_eq!(component.server_hostname(), "xmpp.example.org");
    assert_eq!(component.server_port(), 5347);
}

#[test]
fn timeout_settings_keep_the_wait() {
    let timeout = TimeoutSettings::new(Duration::from_millis(1500));
    assert_eq!(*timeout.xmppconnection_error(), Duration::from_millis(1500));
}

#[test]
fn settings_keep_their_parts() {
    let settings = settings("app-7");
    assert_eq!(settings.component().server_hostname(), "xmpp.example.org");
    assert_eq!(*settings.timeout().xmppconnection_error(), Duration::from_secs(20));
    assert_eq!(settings.push_modules().len(), 1);
    assert_eq!(settings.push_modules()[0].0, "acrobits");
    assert_eq!(
        settings.push_modules()[0].1,
        BackendConfig::HttpToken(AcrobitsConfig::new(
            "https://push.example/send".to_string(),
            "app-7".to_string()
        ))
    );
}

#[test]
fn connection_from_settings_uses_address_and_secret() {
    let mut connection = component().connection();
    assert_eq!(connection.state(), ConnectionState::Disconnected);
    assert_eq!(
        connection.handle(StreamEvent::TransportOpened),
        StreamAction::SendStreamHeader { to: "push.example.org".to_string() }
    );
    assert_eq!(
        connection.handle(StreamEvent::StreamHeader { id: "abc123".to_string() }),
        StreamAction::SendHandshake {
            credential: "b67adbb9f7287b8f2d9c809b39a804b2123fc4c0".to_string()
        }
    );
}

#[test]
fn supervisor_from_settings_waits_the_configured_time() {
    let mut supervisor = settings("app-7").timeout().supervisor();
    assert_eq!(supervisor.state(), SupervisorState::Idle);
    supervisor.handle(SupervisorEvent::Start);
    assert_eq!(
        supervisor.handle(SupervisorEvent::ConnectFailed),
        Some(SupervisorAction::Sleep(Duration::from_secs(20)))
    );
}

#[test]
fn dispatcher_from_settings_holds_the_configured_backends() {
    let dispatcher = settings("app-7").dispatcher().unwrap();
    assert_eq!(dispatcher.backend("acrobits").unwrap().config(), settings("app-7").push_modules()[0].1);
}

#[test]
fn settings_with_an_unusable_backend_give_no_dispatcher() {
    assert_eq!(settings("").dispatcher().err(), Some(PushOutcome::InitFailure));
}
