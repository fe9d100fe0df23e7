//! Module configuration. The escrow module has no settings: each part is
//! an empty record.

use vstd::prelude::*;
use vstd::string::*;

verus! {

/// Server-side configuration (private part and consensus part).
#[derive(Clone, Copy, Debug, PartialEq, Eq, Structural)]
pub struct EscrowConfig {
    pub private: EscrowConfigPrivate,
    pub consensus: EscrowConfigConsensus,
}

/// Client-visible configuration, handed out when a client joins.
#[derive(Clone, Copy, Debug, PartialEq, Eq, Hash, Structural)]
pub struct EscrowClientConfig;

/// Consensus configuration, identical across all guardians.
#[derive(Clone, Copy, Debug, PartialEq, Eq, Structural)]
pub struct EscrowConfigConsensus;

/// Private configuration of one guardian.
#[derive(Clone, Copy, Debug, PartialEq, Eq, Structural)]
pub struct EscrowConfigPrivate;

impl EscrowConfig {
    /// The configuration every guardian is given.
    pub open spec fn spec_new() -> EscrowConfig {
        EscrowConfig { private: EscrowConfigPrivate, consensus: EscrowConfigConsensus }
    }

    /// The configuration every guardian is given.
    pub fn new() -> (c: EscrowConfig)
        ensures
            c == Self::spec_new(),
    {
        EscrowConfig { private: EscrowConfigPrivate, consensus: EscrowConfigConsensus }
    }
}

impl EscrowClientConfig {
    /// The text of the configuration's `Display` form.
    pub fn to_display_string(&self) -> (r: String)
        ensures
            r@ == "EscrowClientConfig"@,
    {
        "EscrowClientConfig".to_owned()
    }
}

} // verus!
