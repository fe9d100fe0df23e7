//! The client's side of the escrow module: the transactions it builds to
//! reserve, fulfil and cancel an escrow, and its own record of each.

pub mod db;

use vstd::prelude::*;

use crate::common::{
    resolution_status, Amount, ApiVersion, EscrowInput, EscrowOutput, EscrowResolution,
    EscrowStatus, PublicKey,
};
use crate::dump::{select_tables, spec_selected_tables};
use db::{
    spec_all_prefixes, ClientEscrowKey, ClientEscrowRecord, DbKeyPrefix,
};


verus! {

/// Context of the client's state machines; it carries nothing.
#[derive(Clone, Copy, Debug)]
pub struct EscrowClientContext;

/// Client module initialiser.
#[derive(Debug, Clone, Copy)]
pub struct EscrowClientInit;

impl EscrowClientInit {
    /// The API versions the client module speaks.
    pub fn supported_api_versions(&self) -> (v: Vec<ApiVersion>)
        ensures
            v@ == seq![ApiVersion { major: 0, minor: 0 }],
    {
        vec![ApiVersion { major: 0, minor: 0 }]
    }
}

/// The client's record of an escrow after it is resolved with `status`:
/// the amount is kept.
pub open spec fn with_status(rec: ClientEscrowRecord, status: EscrowStatus) -> ClientEscrowRecord {
    ClientEscrowRecord { status, ..rec }
}

/// The record the client keeps of an escrow it resolves: its stored record
/// with the new status, or none where it has no record of the order.
pub open spec fn spec_marked(
    existing: Option<ClientEscrowRecord>,
    status: EscrowStatus,
) -> Option<ClientEscrowRecord> {
    match existing {
        Some(rec) => Some(with_status(rec, status)),
        None => None,
    }
}

/// The fee the client expects on an escrow input: none.
pub fn input_fee(input: &EscrowInput) -> (r: Option<Amount>)
    ensures
        r == Some(Amount { msats: 0 }),
{
    Some(Amount::zero())
}

/// The fee the client expects on an escrow output: none.
pub fn output_fee(output: &EscrowOutput) -> (r: Option<Amount>)
    ensures
        r == Some(Amount { msats: 0 }),
{
    Some(Amount::zero())
}

/// The state-machine context of the client module.
pub fn context() -> (c: EscrowClientContext)
    ensures
        c == EscrowClientContext,
{
    EscrowClientContext
}

/// Reserves funds in escrow for a marketplace order: the entry the client
/// stores (the order's key and a reserved record of `amount`) and the input
/// that locks `amount` for the order, signed by `customer_key`.
pub fn reserve(order_id: String, amount: Amount, customer_key: PublicKey) -> (r: (
    (ClientEscrowKey, ClientEscrowRecord),
    EscrowInput,
))
    ensures
        r.0.0.0@ == order_id@,
        r.0.1 == (ClientEscrowRecord { amount, status: EscrowStatus::Reserved }),
        r.1.order_id@ == order_id@,
        r.1.amount == amount,
        r.1.customer_key == customer_key,
{
    let key = ClientEscrowKey::of_order(&order_id);
    let record = ClientEscrowRecord { amount, status: EscrowStatus::Reserved };
    (
        (key, record),
        EscrowInput { order_id, amount, customer_key },
    )
}

/// The client's side of resolving an order's escrow in the given way, given
/// its stored record of the order: the entry to store back (the record
/// with the resolution's status, if there was one) and the output that
/// asks for the resolution.
fn resolve(
    existing: Option<ClientEscrowRecord>,
    order_id: String,
    resolution: EscrowResolution,
) -> (r: (Option<(ClientEscrowKey, ClientEscrowRecord)>, EscrowOutput))
    ensures
        r.0 is Some <==> existing is Some,
        r.0 matches Some((k, rec)) ==> k.0@ == order_id@ && Some(rec) == spec_marked(
            existing,
            resolution_status(resolution),
        ),
        r.1.order_id@ == order_id@,
        r.1.resolution == resolution,
{
    let status = resolution.status();
    let write = match existing {
        Some(record) => Some(
            (ClientEscrowKey::of_order(&order_id), ClientEscrowRecord { status, ..record }),
        ),
        None => None,
    };
    (write, EscrowOutput { order_id, resolution })
}

/// Fulfils an escrow, paying the supplier: the client's record of the order
/// (if it has one) marked fulfilled, and the output that releases the funds
/// to `supplier_key`.
pub fn fulfil(
    existing: Option<ClientEscrowRecord>,
    order_id: String,
    supplier_key: PublicKey,
) -> (r: (Option<(ClientEscrowKey, ClientEscrowRecord)>, EscrowOutput))
    ensures
        r.0 is Some <==> existing is Some,
        r.0 matches Some((k, rec)) ==> k.0@ == order_id@ && Some(rec) == spec_marked(
            existing,
            EscrowStatus::Fulfilled,
        ),
        r.1.order_id@ == order_id@,
        r.1.resolution == (EscrowResolution::Fulfil { supplier_key }),
{
    resolve(existing, order_id, EscrowResolution::Fulfil { supplier_key })
}

/// Cancels an escrow, refunding the customer: the client's record of the
/// order (if it has one) marked cancelled, and the output that returns the
/// funds.
pub fn cancel(existing: Option<ClientEscrowRecord>, order_id: String) -> (r: (
    Option<(ClientEscrowKey, ClientEscrowRecord)>,
    EscrowOutput,
))
    ensures
        r.0 is Some <==> existing is Some,
        r.0 matches Some((k, rec)) ==> k.0@ == order_id@ && Some(rec) == spec_marked(
            existing,
            EscrowStatus::Cancelled,
        ),
        r.1.order_id@ == order_id@,
        r.1.resolution == EscrowResolution::Cancel,
{
    resolve(existing, order_id, EscrowResolution::Cancel)
}

/// Lists the escrows of the client's table, given its entries: each order
/// id with its record, in the order of the entries.
pub fn list_escrows(entries: &Vec<(ClientEscrowKey, ClientEscrowRecord)>) -> (r: Vec<
    (String, ClientEscrowRecord),
>)
    ensures
        r@.len() == entries@.len(),
        forall|i: int|
            0 <= i < entries@.len() ==> (#[trigger] r@[i]).0@ == entries@[i].0.0@ && r@[i].1
                == entries@[i].1,
{
    let mut r: Vec<(String, ClientEscrowRecord)> = Vec::new();
    let mut i: usize = 0;
    while i < entries.len()
        invariant
            i <= entries@.len(),
            r@.len() == i,
            forall|j: int|
                0 <= j < i ==> (#[trigger] r@[j]).0@ == entries@[j].0.0@ && r@[j].1
                    == entries@[j].1,
        decreases entries@.len() - i,
    {
        let entry = &entries[i];
        r.push((entry.0.0.clone(), entry.1));
        i = i + 1;
    }
    r
}

/// The tables a database dump that asks for `names` considers, in order.
pub open spec fn spec_selected_prefixes(names: Seq<String>) -> Seq<DbKeyPrefix> {
    spec_selected_tables(spec_all_prefixes(), names)
}

/// The tables of the client module that a database dump asking for
/// `prefix_names` considers: all of them when the list is empty, else those
/// whose lower-case name it holds.
pub fn selected_prefixes(prefix_names: &Vec<String>) -> (r: Vec<DbKeyPrefix>)
    ensures
        r@ == spec_selected_prefixes(prefix_names@),
{
    select_tables(&DbKeyPrefix::all(), prefix_names)
}

/// The tables of the client's database dump that hold entries: of the
/// tables a dump covers, those of the client's escrows. The reserved
/// ranges hold nothing to dump.
pub fn dumped_prefixes(prefix_names: &Vec<String>) -> (r: Vec<DbKeyPrefix>)
    ensures
        r@ == spec_selected_prefixes(prefix_names@).filter(
            |p: DbKeyPrefix| p == DbKeyPrefix::ActiveEscrow,
        ),
{
    let selected = selected_prefixes(prefix_names);
    let ghost pred = |p: DbKeyPrefix| p == DbKeyPrefix::ActiveEscrow;
    let mut r: Vec<DbKeyPrefix> = Vec::new();
    let mut i: usize = 0;
    while i < selected.len()
        invariant
            i <= selected@.len(),
            pred == (|p: DbKeyPrefix| p == DbKeyPrefix::ActiveEscrow),
            r@ == selected@.take(i as int).filter(pred),
        decreases selected@.len() - i,
    {
        let p = selected[i];
        proof {
            reveal_with_fuel(Seq::filter, 1);
            assert(selected@.take(i + 1).drop_last() =~= selected@.take(i as int));
        }
        match p {
            DbKeyPrefix::ActiveEscrow => r.push(p),
            DbKeyPrefix::ExternalReservedStart
            | DbKeyPrefix::CoreInternalReservedStart
            | DbKeyPrefix::CoreInternalReservedEnd => {},
        }
        i = i + 1;
    }
    assert(selected@.take(selected@.len() as int) =~= selected@);
    r
}

} // verus!
