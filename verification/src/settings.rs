//! The settings of the service: fixed at startup, read ever after.

use vstd::prelude::*;
use std::time::Duration;
use crate::component::{ComponentConnection, ComponentConnectionView, ConnectionState};
use crate::config::BackendConfig;
use crate::dispatch::{all_usable, configured, modules_of, Dispatcher};
use crate::outcome::PushOutcome;
use crate::supervisor::{ConnectionSupervisor, SupervisorState};

verus! {

/// How the component reaches its server and proves who it is.
#[derive(Debug)]
pub struct ComponentSettings {
    component_hostname: String,
    component_key: String,
    server_hostname: String,
    server_port: u16,
}

/// Mathematical value of [`ComponentSettings`].
pub struct ComponentSettingsView {
    /// The address of the component.
    pub component_hostname: Seq<char>,
    /// The secret that the component shares with the server.
    pub component_key: Seq<char>,
    /// The host of the server.
    pub server_hostname: Seq<char>,
    /// The port on which the server accepts components.
    pub server_port: u16,
}

impl View for ComponentSettings {
    type V = ComponentSettingsView;

    closed spec fn view(&self) -> ComponentSettingsView {
        ComponentSettingsView {
            component_hostname: self.component_hostname@,
            component_key: self.component_key@,
            server_hostname: self.server_hostname@,
            server_port: self.server_port,
        }
    }
}

impl ComponentSettings {
    /// The settings of the component `component_hostname`, which shares the
    /// secret `component_key` with the server at `server_hostname` and
    /// `server_port`.
    pub fn new(
        component_hostname: String,
        component_key: String,
        server_hostname: String,
        server_port: u16,
    ) -> (settings: Self)
        ensures
            settings@ == (ComponentSettingsView {
                component_hostname: component_hostname@,
                component_key: component_key@,
                server_hostname: server_hostname@,
                server_port,
            }),
    {
        Self { component_hostname, component_key, server_hostname, server_port }
    }

    /// The address of the component.
    pub fn component_hostname(&self) -> (name: &str)
        ensures
            name@ == self@.component_hostname,
    {
        self.component_hostname.as_str()
    }

    /// The secret that the component shares with the server.
    pub fn component_key(&self) -> (key: &str)
        ensures
            key@ == self@.component_key,
    {
        self.component_key.as_str()
    }

    /// The host of the server.
    pub fn server_hostname(&self) -> (name: &str)
        ensures
            name@ == self@.server_hostname,
    {
        self.server_hostname.as_str()
    }

    /// The port on which the server accepts components.
    pub fn server_port(&self) -> (port: u16)
        ensures
            port == self@.server_port,
    {
        self.server_port
    }

    /// A connection for this component that is not open yet.
    pub fn connection(&self) -> (connection: ComponentConnection)
        ensures
            connection@ == (ComponentConnectionView {
                state: ConnectionState::Disconnected,
                credential_sent: false,
                jid: self@.component_hostname,
                secret: self@.component_key,
            }),
    {
        ComponentConnection::new(self.component_hostname.clone(), self.component_key.clone())
    }
}

/// How long the service waits.
#[derive(Debug)]
pub struct TimeoutSettings {
    xmppconnection_error: Duration,
}

impl TimeoutSettings {
    /// The wait after a failed or lost connection.
    pub closed spec fn spec_xmppconnection_error(&self) -> Duration {
        self.xmppconnection_error
    }

    /// Settings with the wait `xmppconnection_error` after a failed or lost
    /// connection.
    pub fn new(xmppconnection_error: Duration) -> (settings: Self)
        ensures
            settings.spec_xmppconnection_error() == xmppconnection_error,
    {
        Self { xmppconnection_error }
    }

    /// The wait after a failed or lost connection.
    pub fn xmppconnection_error(&self) -> (wait: &Duration)
        ensures
            *wait == self.spec_xmppconnection_error(),
    {
        &self.xmppconnection_error
    }

    /// A supervisor that has not started and waits as these settings say.
    pub fn supervisor(&self) -> (supervisor: ConnectionSupervisor)
        ensures
            supervisor.spec_state() == SupervisorState::Idle,
            supervisor.spec_backoff() == self.spec_xmppconnection_error(),
    {
        ConnectionSupervisor::new(self.xmppconnection_error)
    }
}

/// All that the service is configured with.
#[derive(Debug)]
pub struct Settings {
    component: ComponentSettings,
    timeout: TimeoutSettings,
    push_modules: Vec<(String, BackendConfig)>,
}

impl Settings {
    /// The settings of the component connection.
    pub closed spec fn spec_component(&self) -> ComponentSettings {
        self.component
    }

    /// The waits of the service.
    pub closed spec fn spec_timeout(&self) -> TimeoutSettings {
        self.timeout
    }

    /// The configured backends, each under its selector.
    pub closed spec fn spec_push_modules(&self) -> Vec<(String, BackendConfig)> {
        self.push_modules
    }

    /// Settings made of their three parts.
    pub fn new(
        component: ComponentSettings,
        timeout: TimeoutSettings,
        push_modules: Vec<(String, BackendConfig)>,
    ) -> (settings: Self)
        ensures
            settings.spec_component() == component,
            settings.spec_timeout() == timeout,
            settings.spec_push_modules() == push_modules,
    {
        Self { component, timeout, push_modules }
    }

    /// The settings of the component connection.
    pub fn component(&self) -> (component: &ComponentSettings)
        ensures
            *component == self.spec_component(),
    {
        &self.component
    }

    /// The waits of the service.
    pub fn timeout(&self) -> (timeout: &TimeoutSettings)
        ensures
            *timeout == self.spec_timeout(),
    {
        &self.timeout
    }

    /// The configured backends, each under its selector.
    pub fn push_modules(&self) -> (modules: &Vec<(String, BackendConfig)>)
        ensures
            *modules == self.spec_push_modules(),
    {
        &self.push_modules
    }

    /// The dispatcher over the configured backends. There is none where a
    /// backend cannot be made from its configuration: such settings must
    /// keep the service from starting.
    pub fn dispatcher(&self) -> (dispatcher: Result<Dispatcher, PushOutcome>)
        ensures
            dispatcher is Ok <==> all_usable(modules_of(self.spec_push_modules())),
            dispatcher is Err ==> dispatcher == Err::<Dispatcher, PushOutcome>(
                PushOutcome::InitFailure,
            ),
            dispatcher is Ok ==> dispatcher->Ok_0@ == configured(modules_of(self.spec_push_modules())),
    {
        Dispatcher::init(&self.push_modules)
    }
}

} // verus!
