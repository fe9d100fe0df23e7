//! The guardian's side of the escrow module: the rules by which an input
//! locks funds for an order and an output releases them, the audit of what
//! the federation owes, and the module's setup.

pub mod db;
pub mod laws;

use vstd::prelude::*;
use vstd::string::*;

use crate::common::config::{EscrowClientConfig, EscrowConfig};
use crate::common::{
    module_consensus_version, resolution_status, spec_module_consensus_version, Amount, ApiVersion,
    CoreConsensusVersion,
    EscrowConsensusItem, EscrowInput, EscrowInputError, EscrowOutput, EscrowOutputError,
    EscrowOutputOutcome, EscrowResolution, EscrowStatus, ModuleConsensusVersion, PublicKey,
};
use crate::dump::{select_tables, spec_selected_tables};
use db::{spec_all_prefixes, DbKeyPrefix, EscrowKey, EscrowRecord};

verus! {

/// The amounts a transaction item moves: an amount of e-cash and the fee on it.
#[derive(Clone, Copy, Debug, PartialEq, Eq, Structural)]
pub struct TransactionItemAmounts {
    pub amount: Amount,
    pub fee: Amount,
}

/// What the guardians learn from an accepted input: the amounts it brings
/// in, and the key that must sign the transaction.
#[derive(Clone, Copy, Debug, PartialEq, Eq)]
pub struct InputMeta {
    pub amount: TransactionItemAmounts,
    pub pub_key: PublicKey,
}

/// What an accepted output releases: the held amount with its fee, and the
/// key of the party the funds go to.
#[derive(Clone, Copy, Debug, PartialEq, Eq)]
pub struct EscrowRelease {
    pub amount: TransactionItemAmounts,
    pub payee: PublicKey,
}

/// The API versions a guardian supports: the core consensus version, the
/// module consensus version and the module's API versions.
#[derive(Clone, Debug, PartialEq, Eq)]
pub struct SupportedModuleApiVersions {
    pub core_consensus: CoreConsensusVersion,
    pub module_consensus: ModuleConsensusVersion,
    pub api_versions: Vec<ApiVersion>,
}

/// Whether the stored escrow of an order, if any, still holds funds.
pub open spec fn is_active(existing: Option<EscrowRecord>) -> bool {
    existing matches Some(rec) && rec.status == EscrowStatus::Reserved
}

/// Whether an input of `amount` is accepted for an order whose stored
/// escrow is `existing`: the amount is not zero and no escrow of the order
/// still holds funds.
pub open spec fn reserve_allowed(existing: Option<EscrowRecord>, amount: Amount) -> bool {
    amount.msats != 0 && !is_active(existing)
}

/// The record an accepted input stores for its order.
pub open spec fn reserved_record(amount: Amount, customer_key: PublicKey) -> EscrowRecord {
    EscrowRecord { amount, customer_key, status: EscrowStatus::Reserved, released_to: None }
}

/// An amount of e-cash moved with no fee.
pub open spec fn fee_free(amount: Amount) -> TransactionItemAmounts {
    TransactionItemAmounts { amount, fee: Amount { msats: 0 } }
}

/// What an accepted input of `amount`, signed by `customer_key`, reports.
pub open spec fn spec_input_meta(amount: Amount, customer_key: PublicKey) -> InputMeta {
    InputMeta { amount: fee_free(amount), pub_key: customer_key }
}

/// Who the funds of an escrow go to when it is resolved in the given way:
/// the supplier named by a fulfil, the customer who locked them on cancel.
pub open spec fn release_payee(rec: EscrowRecord, res: EscrowResolution) -> PublicKey {
    match res {
        EscrowResolution::Fulfil { supplier_key } => supplier_key,
        EscrowResolution::Cancel => rec.customer_key,
    }
}

/// The record an accepted output stores: the escrow with the status its
/// resolution gives it and the party its funds go to, amount and customer
/// key unchanged.
pub open spec fn resolved_record(rec: EscrowRecord, res: EscrowResolution) -> EscrowRecord {
    EscrowRecord {
        status: resolution_status(res),
        released_to: Some(release_payee(rec, res)),
        ..rec
    }
}

/// What an accepted output of an escrow reports: its amount, no fee, paid
/// to the party the resolution names.
pub open spec fn spec_release(rec: EscrowRecord, res: EscrowResolution) -> EscrowRelease {
    EscrowRelease { amount: fee_free(rec.amount), payee: release_payee(rec, res) }
}

/// An amount as a liability in a signed 64-bit number: `-msats` for every
/// amount down to `i64::MIN` (that is, up to 2^63 msat), and `i64::MIN`, the
/// largest liability a signed 64-bit number holds, for any larger amount.
pub open spec fn negated_msats(msats: u64) -> int {
    if msats <= 0x8000_0000_0000_0000 {
        -(msats as int)
    } else {
        i64::MIN as int
    }
}

/// What one escrow adds to the federation's audit: a held escrow is owed
/// (negative), a resolved one is settled (zero).
pub open spec fn spec_audit_liability(rec: EscrowRecord) -> int {
    if rec.status == EscrowStatus::Reserved {
        negated_msats(rec.amount.msats)
    } else {
        0
    }
}

/// The tables a database dump that asks for `names` covers, in order.
pub open spec fn spec_selected_prefixes(names: Seq<String>) -> Seq<DbKeyPrefix> {
    spec_selected_tables(spec_all_prefixes(), names)
}

/// The message with which a consensus item is refused.
pub open spec fn consensus_item_refusal() -> Seq<char> {
    "The escrow module does not use consensus items"@
}

/// What one escrow adds to the federation's audit. A held escrow is a
/// liability: its amount negated, or `i64::MIN` where the amount is beyond
/// what a signed 64-bit number can hold negated; a fulfilled or cancelled
/// escrow is settled and adds nothing. No item is ever positive.
pub fn audit_liability(record: &EscrowRecord) -> (r: i64)
    ensures
        r as int == spec_audit_liability(*record),
        r <= 0,
{
    match record.status {
        EscrowStatus::Reserved => {
            let m = record.amount.msats;
            if m <= 0x7fff_ffff_ffff_ffff {
                let signed = m as i64;
                -signed
            } else {
                i64::MIN
            }
        },
        EscrowStatus::Fulfilled | EscrowStatus::Cancelled => 0,
    }
}

/// The tables of the module that a database dump asking for
/// `prefix_names` covers: all of them when the list is empty, else those
/// whose lower-case name it holds.
pub fn selected_prefixes(prefix_names: &Vec<String>) -> (r: Vec<DbKeyPrefix>)
    ensures
        r@ == spec_selected_prefixes(prefix_names@),
{
    select_tables(&DbKeyPrefix::all(), prefix_names)
}

/// Module initialiser, registered with the guardian daemon.
#[derive(Debug, Clone, Copy)]
pub struct EscrowInit;

impl EscrowInit {
    /// The module consensus versions this build supports.
    pub fn versions(&self) -> (v: Vec<ModuleConsensusVersion>)
        ensures
            v@ == seq![spec_module_consensus_version()],
    {
        vec![module_consensus_version()]
    }

    /// The API versions this module supports, given the core consensus
    /// version of the guardian.
    pub fn supported_api_versions(&self, core: CoreConsensusVersion) -> (r:
        SupportedModuleApiVersions)
        ensures
            r.core_consensus == core,
            r.module_consensus == spec_module_consensus_version(),
            r.api_versions@ == seq![ApiVersion { major: 0, minor: 0 }],
    {
        SupportedModuleApiVersions {
            core_consensus: core,
            module_consensus: module_consensus_version(),
            api_versions: vec![ApiVersion { major: 0, minor: 0 }],
        }
    }

    /// Configurations made by a trusted dealer: one per peer, in the order
    /// given, every one the same.
    pub fn trusted_dealer_gen(&self, peers: &[u16]) -> (r: Vec<(u16, EscrowConfig)>)
        ensures
            r@.len() == peers@.len(),
            forall|i: int|
                0 <= i < peers@.len() ==> (#[trigger] r@[i]).0 == peers@[i] && r@[i].1
                    == EscrowConfig::spec_new(),
    {
        let mut r: Vec<(u16, EscrowConfig)> = Vec::new();
        let mut i: usize = 0;
        while i < peers.len()
            invariant
                i <= peers@.len(),
                r@.len() == i,
                forall|j: int|
                    0 <= j < i ==> (#[trigger] r@[j]).0 == peers@[j] && r@[j].1
                        == EscrowConfig::spec_new(),
            decreases peers@.len() - i,
        {
            r.push((peers[i], EscrowConfig::new()));
            i = i + 1;
        }
        r
    }

    /// The configuration made by distributed key generation: the same
    /// empty configuration for every guardian.
    pub fn distributed_gen(&self) -> (c: EscrowConfig)
        ensures
            c == EscrowConfig::spec_new(),
    {
        EscrowConfig::new()
    }

    /// The client configuration derived from the consensus configuration.
    pub fn get_client_config(&self, config: &EscrowConfig) -> (c: EscrowClientConfig)
        ensures
            c == EscrowClientConfig,
    {
        EscrowClientConfig
    }

    /// Checks a guardian's configuration; every configuration is valid.
    pub fn validate_config(&self, identity: u16, config: &EscrowConfig) -> (r: Result<(), String>)
        ensures
            r is Ok,
    {
        Ok(())
    }
}

/// The escrow module: holds funds in escrow for marketplace orders.
#[derive(Debug, Clone, Copy)]
pub struct Escrow {
    pub cfg: EscrowConfig,
}

impl Escrow {
    /// The module with the given configuration.
    pub fn new(cfg: EscrowConfig) -> (s: Self)
        ensures
            s.cfg == cfg,
    {
        Self { cfg }
    }

    /// The consensus items this guardian proposes: none.
    pub fn consensus_proposal(&self) -> (r: Vec<EscrowConsensusItem>)
        ensures
            r@.len() == 0,
    {
        Vec::new()
    }

    /// Handles a consensus item from a peer: the module uses none, so
    /// every item is refused.
    pub fn process_consensus_item(&self, item: &EscrowConsensusItem, peer: u16) -> (r: Result<(), String>)
        ensures
            r matches Err(m) && m@ == consensus_item_refusal(),
    {
        Err("The escrow module does not use consensus items".to_owned())
    }

    /// Processes an escrow input (reserve), which locks `input.amount` for
    /// `input.order_id`, given `existing`, the escrow stored under
    /// `EscrowKey::of_order(&input.order_id)`. A zero amount is refused
    /// first; then an order whose escrow still holds funds is refused.
    /// Otherwise the result holds the entry to store (the order's key and a
    /// reserved record with the input's amount and customer key) and what
    /// the input brings in: its amount, no fee, and the customer's key as the
    /// signing key. A record whose escrow was already resolved is replaced.
    pub fn process_input(&self, existing: Option<EscrowRecord>, input: &EscrowInput) -> (r: Result<
        ((EscrowKey, EscrowRecord), InputMeta),
        EscrowInputError,
    >)
        ensures
            r matches Err(EscrowInputError::ZeroAmount) <==> input.amount.msats == 0,
            r matches Err(EscrowInputError::AlreadyExists(_)) <==> (input.amount.msats != 0
                && is_active(existing)),
            r matches Err(EscrowInputError::AlreadyExists(id)) ==> id@ == input.order_id@,
            r is Ok <==> reserve_allowed(existing, input.amount),
            r matches Ok(((key, rec), meta)) ==> key.0@ == input.order_id@ && rec == reserved_record(
                input.amount,
                input.customer_key,
            ) && meta == spec_input_meta(input.amount, input.customer_key),
    {
        if input.amount.msats == 0 {
            return Err(EscrowInputError::ZeroAmount);
        }
        if let Some(record) = existing {
            if record.status == EscrowStatus::Reserved {
                return Err(EscrowInputError::AlreadyExists(input.order_id.clone()));
            }
        }
        let record = EscrowRecord {
            amount: input.amount,
            customer_key: input.customer_key,
            status: EscrowStatus::Reserved,
            released_to: None,
        };
        let meta = InputMeta {
            amount: TransactionItemAmounts { amount: input.amount, fee: Amount::zero() },
            pub_key: input.customer_key,
        };
        Ok(((EscrowKey::of_order(&input.order_id), record), meta))
    }

    /// Processes an escrow output (fulfil or cancel), which releases the
    /// funds held for `output.order_id`, given `existing`, the escrow stored
    /// under `EscrowKey::of_order(&output.order_id)`. An order with no
    /// escrow is refused; so is one whose escrow was already resolved, with
    /// its status. Otherwise the result holds the entry to store (the
    /// order's key and the record with the status set by the resolution and
    /// the party the funds go to, amount and customer key unchanged) and
    /// what the output releases: the held amount, no fee, paid to the
    /// supplier on fulfil and back to the customer on cancel.
    pub fn process_output(&self, existing: Option<EscrowRecord>, output: &EscrowOutput) -> (r:
        Result<((EscrowKey, EscrowRecord), EscrowRelease), EscrowOutputError>)
        ensures
            r matches Err(EscrowOutputError::NotFound(_)) <==> existing is None,
            r matches Err(EscrowOutputError::NotFound(id)) ==> id@ == output.order_id@,
            r matches Err(EscrowOutputError::AlreadyResolved(_, _)) <==> (existing is Some
                && !is_active(existing)),
            r matches Err(EscrowOutputError::AlreadyResolved(id, st)) ==> id@ == output.order_id@
                && st == existing->0.status,
            r is Ok <==> is_active(existing),
            r matches Ok(((key, rec), release)) ==> key.0@ == output.order_id@ && rec
                == resolved_record(existing->0, output.resolution) && release == spec_release(
                existing->0,
                output.resolution,
            ),
    {
        let record = match existing {
            Some(record) => record,
            None => {
                return Err(EscrowOutputError::NotFound(output.order_id.clone()));
            },
        };
        if record.status != EscrowStatus::Reserved {
            return Err(EscrowOutputError::AlreadyResolved(output.order_id.clone(), record.status));
        }
        let payee = match output.resolution {
            EscrowResolution::Fulfil { supplier_key } => supplier_key,
            EscrowResolution::Cancel => record.customer_key,
        };
        let updated = EscrowRecord {
            status: output.resolution.status(),
            released_to: Some(payee),
            ..record
        };
        let release = EscrowRelease {
            amount: TransactionItemAmounts { amount: record.amount, fee: Amount::zero() },
            payee,
        };
        Ok(((EscrowKey::of_order(&output.order_id), updated), release))
    }

    /// The outcome of an output, looked up by its position in a
    /// transaction: escrows are not tracked that way, so there is none.
    pub fn output_status(&self) -> (r: Option<EscrowOutputOutcome>)
        ensures
            r is None,
    {
        None
    }
}

} // verus!
