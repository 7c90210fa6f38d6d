//! The resolved configuration that the relay consumes.

use vstd::prelude::*;

verus! {

/// The dashboard port used when the configuration names none.
pub const DEFAULT_DASHBOARD_PORT: u16 = 8080;

/// Address of the upstream source of the inbound byte stream.
#[derive(Clone, Debug, PartialEq, Eq)]
pub struct Receiver {
    pub ip: String,
    pub port: u16,
}

/// Mathematical value of a [`Receiver`].
pub struct ReceiverView {
    pub ip: Seq<char>,
    pub port: u16,
}

impl View for Receiver {
    type V = ReceiverView;

    open spec fn view(&self) -> ReceiverView {
        ReceiverView { ip: self.ip@, port: self.port }
    }
}

impl Receiver {
    pub fn new(ip: String, port: u16) -> (receiver: Self)
        ensures
            receiver.ip == ip,
            receiver.port == port,
    {
        Receiver { ip, port }
    }
}

/// The remote collector: where batches are uploaded and who sends them.
#[derive(Clone, Debug, PartialEq, Eq)]
pub struct Service {
    pub url: String,
    pub uuid: String,
}

/// Mathematical value of a [`Service`].
pub struct ServiceView {
    pub url: Seq<char>,
    pub uuid: Seq<char>,
}

impl View for Service {
    type V = ServiceView;

    open spec fn view(&self) -> ServiceView {
        ServiceView { url: self.url@, uuid: self.uuid@ }
    }
}

impl Service {
    pub fn new(url: String, uuid: String) -> (service: Self)
        ensures
            service.url == url,
            service.uuid == uuid,
    {
        Service { url, uuid }
    }
}

/// Everything the relay needs to know about its two endpoints and its
/// dashboard.
#[derive(Clone, Debug, PartialEq, Eq)]
pub struct Config {
    pub receiver: Receiver,
    pub service: Service,
    pub dashboard_port: u16,
}

/// Mathematical value of a [`Config`].
pub struct ConfigView {
    pub receiver: ReceiverView,
    pub service: ServiceView,
    pub dashboard_port: u16,
}

impl View for Config {
    type V = ConfigView;

    open spec fn view(&self) -> ConfigView {
        ConfigView {
            receiver: self.receiver@,
            service: self.service@,
            dashboard_port: self.dashboard_port,
        }
    }
}

impl Config {
    pub fn new(receiver: Receiver, service: Service, dashboard_port: u16) -> (config: Self)
        ensures
            config.receiver == receiver,
            config.service == service,
            config.dashboard_port == dashboard_port,
    {
        Config { receiver, service, dashboard_port }
    }
}

/// The dashboard port of a configuration that does not set one.
pub fn default_dashboard_port() -> (port: u16)
    ensures
        port == DEFAULT_DASHBOARD_PORT,
{
    DEFAULT_DASHBOARD_PORT
}

} // verus!
