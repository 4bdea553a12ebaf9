//! Configuration of the HTTP-token backend.

use vstd::prelude::*;

verus! {

/// Where the push provider listens, and the application to notify.
#[derive(Debug, PartialEq, Eq)]
pub struct AcrobitsConfig {
    endpoint: String,
    app_id: String,
}

/// Mathematical value of an [`AcrobitsConfig`].
pub struct AcrobitsConfigView {
    pub endpoint: Seq<char>,
    pub app_id: Seq<char>,
}

impl View for AcrobitsConfig {
    type V = AcrobitsConfigView;

    closed spec fn view(&self) -> AcrobitsConfigView {
        AcrobitsConfigView { endpoint: self.endpoint@, app_id: self.app_id@ }
    }
}

/// The endpoint of a configuration that names none.
pub open spec fn default_endpoint() -> Seq<char> {
    "https://pnm.cloudsoftphone.com/pnm2/send"@
}

impl AcrobitsConfig {
    /// A configuration for the provider at `endpoint` and the application
    /// `app_id`.
    pub fn new(endpoint: String, app_id: String) -> (config: Self)
        ensures
            config@ == (AcrobitsConfigView { endpoint: endpoint@, app_id: app_id@ }),
    {
        Self { endpoint, app_id }
    }

    /// The URL that requests are posted to.
    pub fn endpoint(&self) -> (endpoint: &str)
        ensures
            endpoint@ == self@.endpoint,
    {
        self.endpoint.as_str()
    }

    /// The identifier that the provider gave the application.
    pub fn app_id(&self) -> (app_id: &str)
        ensures
            app_id@ == self@.app_id,
    {
        self.app_id.as_str()
    }
}

impl Clone for AcrobitsConfig {
    fn clone(&self) -> (copy: Self)
        ensures
            copy@ == self@,
    {
        Self { endpoint: self.endpoint.clone(), app_id: self.app_id.clone() }
    }
}

impl Default for AcrobitsConfig {
    /// The provider's public endpoint, and no application: a configuration
    /// that still has to be completed.
    fn default() -> (config: Self)
        ensures
            config@ == (AcrobitsConfigView { endpoint: default_endpoint(), app_id: Seq::empty() }),
    {
        Self { endpoint: "https://pnm.cloudsoftphone.com/pnm2/send".to_owned(), app_id: String::new() }
    }
}

/// The configuration of one backend, by the family of its push provider.
#[derive(Clone, Debug, PartialEq, Eq)]
pub enum BackendConfig {
    /// A provider that is reached by an HTTP request with a device token.
    HttpToken(AcrobitsConfig),
}

/// Mathematical value of a [`BackendConfig`].
pub enum BackendConfigView {
    HttpToken(AcrobitsConfigView),
}

impl View for BackendConfig {
    type V = BackendConfigView;

    open spec fn view(&self) -> BackendConfigView {
        match self {
            BackendConfig::HttpToken(config) => BackendConfigView::HttpToken(config@),
        }
    }
}

impl BackendConfigView {
    /// Whether a backend can be made from the configuration. An HTTP-token
    /// backend needs the identifier of its application.
    pub open spec fn usable(self) -> bool {
        match self {
            BackendConfigView::HttpToken(config) => config.app_id.len() > 0,
        }
    }
}

} // verus!
