use vstd::prelude::*;

verus! {

/// Ports the transport binds to: `send_port` for the outbound sender,
/// `receive_port` for the inbound receiver.
#[derive(Clone, Copy, Debug, PartialEq, Eq)]
pub struct OscConfig {
    pub send_port: u16,
    pub receive_port: u16,
}

impl Default for OscConfig {
    /// The synthesized defaults used when no configuration file exists yet.
    fn default() -> (c: Self)
        ensures
            c.send_port == 9000,
            c.receive_port == 9001,
    {
        OscConfig { send_port: 9000, receive_port: 9001 }
    }
}

/// One immutable configuration snapshot. It is replaced wholesale on reload,
/// never mutated in place.
#[derive(Clone, Copy, Debug, PartialEq, Eq)]
pub struct Config {
    pub osc: OscConfig,
}

impl Default for Config {
    fn default() -> (c: Self)
        ensures
            c.osc.send_port == 9000,
            c.osc.receive_port == 9001,
    {
        Config { osc: OscConfig::default() }
    }
}

} // verus!
