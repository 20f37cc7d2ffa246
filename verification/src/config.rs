use vstd::prelude::*;

verus! {

/// The service's configuration: where the MQTT broker is, the UDP port
/// range to forward, and where Prometheus is.
#[derive(Debug, Clone, PartialEq, Eq)]
pub struct Config {
    pub mqtt: Mqtt,
    pub udp: Udp,
    pub prometheus: Prometheus,
}

/// Where the MQTT broker is.
#[derive(Debug, Clone, PartialEq, Eq)]
pub struct Mqtt {
    pub url: String,
}

/// A range of forwarded ports: `size` ports from `start` on.
#[derive(Debug, Clone, Copy, PartialEq, Eq, Structural)]
pub struct Fwd {
    pub start: u16,
    pub size: u16,
}

/// The UDP settings.
#[derive(Debug, Clone, Copy, PartialEq, Eq, Structural)]
pub struct Udp {
    pub fwd: Fwd,
}

/// Where Prometheus is.
#[derive(Debug, Clone, PartialEq, Eq)]
pub struct Prometheus {
    pub url: String,
}

} // verus!
