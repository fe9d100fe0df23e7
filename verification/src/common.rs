//! Types shared by the escrow client and server: what a transaction carries,
//! the status of an escrow, and the errors a guardian answers with.

pub mod config;

use vstd::prelude::*;
use vstd::string::*;

verus! {

/// The unique name of this module kind.
pub const KIND: &'static str = "escrow";

/// A consensus version: a major and a minor number.
#[derive(Clone, Copy, Debug, PartialEq, Eq, Hash, Structural)]
pub struct ModuleConsensusVersion {
    pub major: u32,
    pub minor: u32,
}

/// The consensus version of the guardian's core: a major and a minor number.
#[derive(Clone, Copy, Debug, PartialEq, Eq, Hash, Structural)]
pub struct CoreConsensusVersion {
    pub major: u32,
    pub minor: u32,
}

/// An API version: a major and a minor number.
#[derive(Clone, Copy, Debug, PartialEq, Eq, Hash, Structural)]
pub struct ApiVersion {
    pub major: u32,
    pub minor: u32,
}

/// The consensus version of this module, 0.1.
pub open spec fn spec_module_consensus_version() -> ModuleConsensusVersion {
    ModuleConsensusVersion { major: 0, minor: 1 }
}

/// The consensus version of this module, 0.1.
pub fn module_consensus_version() -> (v: ModuleConsensusVersion)
    ensures
        v == spec_module_consensus_version(),
{
    ModuleConsensusVersion { major: 0, minor: 1 }
}

/// An amount of e-cash in milli-satoshi.
#[derive(Clone, Copy, Debug, PartialEq, Eq, Hash, Structural)]
pub struct Amount {
    pub msats: u64,
}

impl Amount {
    /// The amount of `msats` milli-satoshi.
    pub fn from_msats(msats: u64) -> (a: Amount)
        ensures
            a.msats == msats,
    {
        Amount { msats }
    }

    /// The empty amount.
    pub fn zero() -> (a: Amount)
        ensures
            a.msats == 0,
    {
        Amount { msats: 0 }
    }
}

/// A secp256k1 public key, held as its 33-byte compressed serialisation.
#[derive(Clone, Copy, Debug, PartialEq, Eq, Hash)]
pub struct PublicKey {
    pub serialized: [u8; 33],
}

/// Status of the escrow held for an order.
#[derive(Clone, Copy, Debug, PartialEq, Eq, Hash, Structural)]
pub enum EscrowStatus {
    /// Funds are held in escrow, awaiting fulfilment or cancellation.
    Reserved,
    /// The supplier has been paid: the order is fulfilled.
    Fulfilled,
    /// The customer has been refunded: the order is cancelled.
    Cancelled,
}

/// The name of a status, as its `Debug` form writes it.
pub open spec fn spec_status_name(s: EscrowStatus) -> Seq<char> {
    match s {
        EscrowStatus::Reserved => "Reserved"@,
        EscrowStatus::Fulfilled => "Fulfilled"@,
        EscrowStatus::Cancelled => "Cancelled"@,
    }
}

impl EscrowStatus {
    /// The name of the status, as its `Debug` form writes it.
    pub fn name(&self) -> (r: String)
        ensures
            r@ == spec_status_name(*self),
    {
        proof {
            reveal_strlit("Reserved");
            reveal_strlit("Fulfilled");
            reveal_strlit("Cancelled");
        }
        match self {
            EscrowStatus::Reserved => "Reserved".to_owned(),
            EscrowStatus::Fulfilled => "Fulfilled".to_owned(),
            EscrowStatus::Cancelled => "Cancelled".to_owned(),
        }
    }
}

/// A consensus item; this module submits none.
#[derive(Clone, Copy, Debug, PartialEq, Eq, Hash, Structural)]
pub struct EscrowConsensusItem;

impl EscrowConsensusItem {
    /// The text of the item's `Display` form.
    pub fn to_display_string(&self) -> (r: String)
        ensures
            r@ == "EscrowConsensusItem"@,
    {
        "EscrowConsensusItem".to_owned()
    }
}

/// Input: a customer locks `amount` of e-cash into the escrow of `order_id`.
#[derive(Clone, Debug, PartialEq, Eq, Hash)]
pub struct EscrowInput {
    /// The order this escrow relates to.
    pub order_id: String,
    /// Amount to lock in escrow.
    pub amount: Amount,
    /// The customer's public key (for refund authorisation).
    pub customer_key: PublicKey,
}

impl EscrowInput {
    /// The text of the input's `Display` form, given the text that the
    /// amount's own `Display` writes.
    pub fn display_with_amount(&self, amount_text: &str) -> (r: String)
        ensures
            r@ == "EscrowInput(order="@ + self.order_id@ + ", amount="@ + amount_text@ + ")"@,
    {
        let mut s = "EscrowInput(order=".to_owned();
        s.append(self.order_id.as_str());
        s.append(", amount=");
        s.append(amount_text);
        s.append(")");
        s
    }
}

/// How an escrow is resolved.
#[derive(Clone, Copy, Debug, PartialEq, Eq, Hash)]
pub enum EscrowResolution {
    /// Pay the supplier: the order is fulfilled.
    Fulfil {
        /// The supplier's public key (receives the funds).
        supplier_key: PublicKey,
    },
    /// Refund the customer: the order is cancelled.
    Cancel,
}

/// The status an escrow takes when it is resolved in the given way.
pub open spec fn resolution_status(r: EscrowResolution) -> EscrowStatus {
    match r {
        EscrowResolution::Fulfil { .. } => EscrowStatus::Fulfilled,
        EscrowResolution::Cancel => EscrowStatus::Cancelled,
    }
}

/// The word that names a resolution in an output's `Display` form.
pub open spec fn resolution_word(r: EscrowResolution) -> Seq<char> {
    match r {
        EscrowResolution::Fulfil { .. } => "fulfil"@,
        EscrowResolution::Cancel => "cancel"@,
    }
}

impl EscrowResolution {
    /// The status an escrow takes when it is resolved this way.
    pub fn status(&self) -> (s: EscrowStatus)
        ensures
            s == resolution_status(*self),
    {
        match self {
            EscrowResolution::Fulfil { .. } => EscrowStatus::Fulfilled,
            EscrowResolution::Cancel => EscrowStatus::Cancelled,
        }
    }
}

/// Output: release the funds of `order_id`'s escrow, to the supplier on
/// fulfil or back to the customer on cancel.
#[derive(Clone, Debug, PartialEq, Eq, Hash)]
pub struct EscrowOutput {
    /// The order being resolved.
    pub order_id: String,
    /// Fulfil pays the supplier, cancel refunds the customer.
    pub resolution: EscrowResolution,
}

impl EscrowOutput {
    /// The text of the output's `Display` form.
    pub fn to_display_string(&self) -> (r: String)
        ensures
            r@ == "EscrowOutput(order="@ + self.order_id@ + ", "@ + resolution_word(self.resolution)
                + ")"@,
    {
        proof {
            reveal_strlit("fulfil");
            reveal_strlit("cancel");
        }
        let action = match &self.resolution {
            EscrowResolution::Fulfil { .. } => "fulfil",
            EscrowResolution::Cancel => "cancel",
        };
        let mut s = "EscrowOutput(order=".to_owned();
        s.append(self.order_id.as_str());
        s.append(", ");
        s.append(action);
        s.append(")");
        s
    }
}

/// Outcome of an escrow output, as reported to the client.
#[derive(Clone, Copy, Debug, PartialEq, Eq, Hash, Structural)]
pub struct EscrowOutputOutcome {
    pub status: EscrowStatus,
}

impl EscrowOutputOutcome {
    /// The text of the outcome's `Display` form.
    pub fn to_display_string(&self) -> (r: String)
        ensures
            r@ == "EscrowOutcome("@ + spec_status_name(self.status) + ")"@,
    {
        let mut s = "EscrowOutcome(".to_owned();
        let name = self.status.name();
        s.append(name.as_str());
        s.append(")");
        s
    }
}

/// Errors returned when processing an escrow input (reserve).
#[derive(Clone, Debug, PartialEq, Eq, Hash)]
pub enum EscrowInputError {
    /// The order already has an active escrow.
    AlreadyExists(String),
    /// The amount to lock is zero.
    ZeroAmount,
}

impl EscrowInputError {
    /// The error's message.
    pub fn message(&self) -> (r: String)
        ensures
            match self {
                EscrowInputError::AlreadyExists(id) => r@ == "Order "@ + id@
                    + " already has an active escrow"@,
                EscrowInputError::ZeroAmount => r@ == "Escrow amount must be greater than zero"@,
            },
    {
        match self {
            EscrowInputError::AlreadyExists(id) => {
                let mut s = "Order ".to_owned();
                s.append(id.as_str());
                s.append(" already has an active escrow");
                s
            },
            EscrowInputError::ZeroAmount => "Escrow amount must be greater than zero".to_owned(),
        }
    }
}

/// Errors returned when processing an escrow output (fulfil or cancel).
#[derive(Clone, Debug, PartialEq, Eq, Hash)]
pub enum EscrowOutputError {
    /// No escrow exists for the order.
    NotFound(String),
    /// The escrow of the order was already resolved, with the given status.
    AlreadyResolved(String, EscrowStatus),
}

impl EscrowOutputError {
    /// The error's message.
    pub fn message(&self) -> (r: String)
        ensures
            match self {
                EscrowOutputError::NotFound(id) => r@ == "No escrow found for order "@ + id@,
                EscrowOutputError::AlreadyResolved(id, st) => r@ == "Escrow for order "@ + id@
                    + " is already resolved ("@ + spec_status_name(*st) + ")"@,
            },
    {
        match self {
            EscrowOutputError::NotFound(id) => {
                let mut s = "No escrow found for order ".to_owned();
                s.append(id.as_str());
                s
            },
            EscrowOutputError::AlreadyResolved(id, st) => {
                let mut s = "Escrow for order ".to_owned();
                s.append(id.as_str());
                s.append(" is already resolved (");
                let name = st.name();
                s.append(name.as_str());
                s.append(")");
                s
            },
        }
    }
}

/// The wire types of the module.
pub struct EscrowModuleTypes;

/// Parts of the module shared by client and server.
#[derive(Debug)]
pub struct EscrowCommonInit;

impl EscrowCommonInit {
    /// The consensus version the module is built for.
    pub fn consensus_version() -> (v: ModuleConsensusVersion)
        ensures
            v == spec_module_consensus_version(),
    {
        module_consensus_version()
    }

    /// The kind of the module.
    pub fn kind() -> (k: &'static str)
        ensures
            k@ == KIND@,
    {
        KIND
    }
}

} // verus!
