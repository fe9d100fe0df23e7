//! What holds of the escrow rules across calls: an escrow releases exactly
//! what it locked, is resolved at most once, and the federation's audit
//! always matches the funds it holds for an order.

use vstd::prelude::*;

use crate::client::{spec_marked, with_status};
use crate::client::db::ClientEscrowRecord;
use crate::common::{resolution_status, Amount, EscrowResolution, EscrowStatus, PublicKey};
use super::db::{spec_all_prefixes, spec_prefix_name, DbKeyPrefix, EscrowRecord};
use crate::dump::{law_dump_covers_exactly_the_asked_tables, spec_selected_tables};
use crate::text::ascii_lower;
use vstd::string::*;
use super::{
    spec_selected_prefixes, is_active, reserve_allowed, reserved_record, resolved_record,
    spec_audit_liability, spec_input_meta, spec_release,
};

verus! {

/// A transaction item naming one order: an input that locks `amount` for it,
/// or an output that resolves its escrow.
#[derive(Clone, Copy, Debug)]
pub enum OrderEvent {
    Reserve { amount: Amount, customer_key: PublicKey },
    Resolve { resolution: EscrowResolution },
}

/// The funds the federation holds for an order whose stored escrow is
/// `existing`: the amount while it is reserved, nothing otherwise.
pub open spec fn held(existing: Option<EscrowRecord>) -> int {
    if is_active(existing) {
        existing->0.amount.msats as int
    } else {
        0
    }
}

/// The stored escrow after one item, and the e-cash it moves into the
/// escrow (positive for an accepted input, negative for an accepted
/// output). A refused item changes nothing and moves nothing. Acceptance,
/// the stored record and the amounts are those that `Escrow::process_input`
/// and `Escrow::process_output` state.
pub open spec fn apply_event(existing: Option<EscrowRecord>, ev: OrderEvent) -> (
    Option<EscrowRecord>,
    int,
) {
    match ev {
        OrderEvent::Reserve { amount, customer_key } => {
            if reserve_allowed(existing, amount) {
                (
                    Some(reserved_record(amount, customer_key)),
                    spec_input_meta(amount, customer_key).amount.amount.msats as int,
                )
            } else {
                (existing, 0)
            }
        },
        OrderEvent::Resolve { resolution } => {
            if is_active(existing) {
                (
                    Some(resolved_record(existing->0, resolution)),
                    -(spec_release(existing->0, resolution).amount.amount.msats as int),
                )
            } else {
                (existing, 0)
            }
        },
    }
}

/// The stored escrow after a sequence of items, and the net e-cash they
/// moved into the escrow.
pub open spec fn replay(existing: Option<EscrowRecord>, events: Seq<OrderEvent>) -> (
    Option<EscrowRecord>,
    int,
)
    decreases events.len(),
{
    if events.len() == 0 {
        (existing, 0)
    } else {
        let step = apply_event(existing, events[0]);
        let rest = replay(step.0, events.drop_first());
        (rest.0, step.1 + rest.1)
    }
}

/// An accepted input creates an escrow that an output can resolve, in
/// either way; the output releases exactly the amount the input brought in,
/// with no fee on either side, and the resolved escrow keeps its amount and
/// customer key.
pub proof fn law_escrow_releases_what_it_locked(
    existing: Option<EscrowRecord>,
    amount: Amount,
    customer_key: PublicKey,
    resolution: EscrowResolution,
)
    requires
        reserve_allowed(existing, amount),
    ensures
        is_active(Some(reserved_record(amount, customer_key))),
        spec_release(reserved_record(amount, customer_key), resolution).amount == spec_input_meta(
            amount,
            customer_key,
        ).amount,
        spec_input_meta(amount, customer_key).amount.fee.msats == 0,
        resolved_record(reserved_record(amount, customer_key), resolution).status
            == resolution_status(resolution),
        resolved_record(reserved_record(amount, customer_key), resolution).amount == amount,
        resolved_record(reserved_record(amount, customer_key), resolution).customer_key
            == customer_key,
{
}

/// Released funds go where the resolution says: a fulfil pays the supplier
/// it names, a cancel refunds the customer who locked them, and the stored
/// escrow records that party. Two fulfils naming different suppliers release
/// to different parties and store different records.
pub proof fn law_release_goes_to_the_named_party(
    rec: EscrowRecord,
    supplier_key: PublicKey,
    other_supplier_key: PublicKey,
)
    requires
        is_active(Some(rec)),
    ensures
        spec_release(rec, EscrowResolution::Fulfil { supplier_key }).payee == supplier_key,
        resolved_record(rec, EscrowResolution::Fulfil { supplier_key }).released_to == Some(
            supplier_key,
        ),
        spec_release(rec, EscrowResolution::Cancel).payee == rec.customer_key,
        resolved_record(rec, EscrowResolution::Cancel).released_to == Some(rec.customer_key),
        reserved_record(rec.amount, rec.customer_key).released_to is None,
        supplier_key != other_supplier_key ==> spec_release(
            rec,
            EscrowResolution::Fulfil { supplier_key },
        ) != spec_release(rec, EscrowResolution::Fulfil { supplier_key: other_supplier_key })
            && resolved_record(rec, EscrowResolution::Fulfil { supplier_key }) != resolved_record(
            rec,
            EscrowResolution::Fulfil { supplier_key: other_supplier_key },
        ),
{
}

/// An escrow is resolved at most once: once an output resolved it, it holds
/// nothing, every further output is refused as already resolved with the
/// status of the first resolution, and fulfilled and cancelled are the only
/// statuses it can take.
pub proof fn law_resolution_is_final(rec: EscrowRecord, resolution: EscrowResolution)
    requires
        is_active(Some(rec)),
    ensures
        !is_active(Some(resolved_record(rec, resolution))),
        held(Some(resolved_record(rec, resolution))) == 0,
        resolved_record(rec, resolution).status == EscrowStatus::Fulfilled
            || resolved_record(rec, resolution).status == EscrowStatus::Cancelled,
{
}

/// An order has at most one active escrow: while its escrow holds funds,
/// every input for it is refused; a zero amount is never locked.
pub proof fn law_one_active_escrow_per_order(existing: Option<EscrowRecord>, amount: Amount)
    ensures
        is_active(existing) ==> !reserve_allowed(existing, amount),
        amount.msats == 0 ==> !reserve_allowed(existing, amount),
{
}

/// Once an order's escrow is resolved, or where it has none, the order can
/// be reserved again with any amount that is not zero.
pub proof fn law_resolved_order_can_be_reserved_again(
    existing: Option<EscrowRecord>,
    resolution: EscrowResolution,
    amount: Amount,
)
    requires
        amount.msats != 0,
    ensures
        reserve_allowed(None, amount),
        is_active(existing) ==> reserve_allowed(
            Some(resolved_record(existing->0, resolution)),
            amount,
        ),
{
}

/// The audit never counts an escrow as an asset: every item is at most
/// zero, a resolved escrow counts zero, and a reserved escrow whose amount
/// fits a signed 64-bit number counts as a liability of exactly the funds it
/// holds.
pub proof fn law_audit_matches_held_funds(rec: EscrowRecord)
    ensures
        spec_audit_liability(rec) <= 0,
        rec.status != EscrowStatus::Reserved ==> spec_audit_liability(rec) == 0,
        rec.amount.msats <= i64::MAX ==> spec_audit_liability(rec) == -held(Some(rec)),
{
}

proof fn lemma_replay_conserves(existing: Option<EscrowRecord>, events: Seq<OrderEvent>)
    ensures
        replay(existing, events).1 == held(replay(existing, events).0) - held(existing),
    decreases events.len(),
{
    if events.len() > 0 {
        let step = apply_event(existing, events[0]);
        lemma_replay_conserves(step.0, events.drop_first());
    }
}

/// Whatever sequence of inputs and outputs reaches an order, the net e-cash
/// they moved into its escrow equals the change in the funds held for it:
/// nothing is created or lost. From no escrow, the net amount brought in is
/// exactly what the final escrow holds.
pub proof fn law_escrow_conserves_funds(existing: Option<EscrowRecord>, events: Seq<OrderEvent>)
    ensures
        replay(existing, events).1 == held(replay(existing, events).0) - held(existing),
        replay(None, events).1 == held(replay(None, events).0),
{
    lemma_replay_conserves(existing, events);
    lemma_replay_conserves(None, events);
}

/// Whether every amount that a sequence of items asks to lock fits a signed
/// 64-bit number.
pub open spec fn amounts_fit(events: Seq<OrderEvent>) -> bool {
    forall|i: int|
        0 <= i < events.len() ==> (#[trigger] events[i] matches OrderEvent::Reserve { amount, .. }
            ==> amount.msats <= i64::MAX)
}

/// Whether a stored escrow, if any, holds an amount that fits a signed
/// 64-bit number.
pub open spec fn record_fits(existing: Option<EscrowRecord>) -> bool {
    existing matches Some(rec) ==> rec.amount.msats <= i64::MAX
}

proof fn lemma_replay_keeps_fit(existing: Option<EscrowRecord>, events: Seq<OrderEvent>)
    requires
        record_fits(existing),
        amounts_fit(events),
    ensures
        record_fits(replay(existing, events).0),
    decreases events.len(),
{
    if events.len() > 0 {
        let step = apply_event(existing, events[0]);
        assert forall|i: int| 0 <= i < events.drop_first().len() implies (
        #[trigger] events.drop_first()[i] matches OrderEvent::Reserve { amount, .. }
            ==> amount.msats <= i64::MAX) by {
            assert(events.drop_first()[i] == events[i + 1]);
        }
        lemma_replay_keeps_fit(step.0, events.drop_first());
    }
}

/// What the audit reports of an order is the net e-cash its escrow took in:
/// for any sequence of items on an order that had no escrow, where every
/// amount asked to be locked fits a signed 64-bit number, the audit
/// liability of the final escrow is the negated net intake, and with no
/// escrow stored the net intake is zero.
pub proof fn law_audit_equals_net_intake(events: Seq<OrderEvent>)
    requires
        amounts_fit(events),
    ensures
        replay(None, events).0 matches Some(rec) ==> spec_audit_liability(rec) == -replay(
            None,
            events,
        ).1,
        replay(None, events).0 is None ==> replay(None, events).1 == 0,
{
    lemma_replay_conserves(None, events);
    lemma_replay_keeps_fit(None, events);
}

/// The client and the guardians agree on how an escrow ends: the status the
/// client records when it resolves an order is the status the guardians
/// store when they accept the same output, and both keep the amount.
pub proof fn law_client_and_server_agree(
    client_rec: ClientEscrowRecord,
    server_rec: EscrowRecord,
    resolution: EscrowResolution,
)
    requires
        is_active(Some(server_rec)),
        client_rec.amount == server_rec.amount,
    ensures
        spec_marked(Some(client_rec), resolution_status(resolution))->0.status
            == resolved_record(server_rec, resolution).status,
        spec_marked(Some(client_rec), resolution_status(resolution))->0.amount
            == resolved_record(server_rec, resolution).amount,
        with_status(client_rec, resolution_status(resolution)).status == resolution_status(
            resolution,
        ),
{
}

/// A guardian's database dump covers its escrow table exactly when no
/// name is asked for or `escrow` is asked at any position of the list, and
/// covers nothing when names are asked but none of them is `escrow`.
pub proof fn law_server_dump_covers_the_escrow_table_when_asked(names: Seq<String>, i: int)
    ensures
        names.len() == 0 ==> spec_selected_prefixes(names) == seq![DbKeyPrefix::Escrow],
        0 <= i < names.len() && names[i]@ == "escrow"@ ==> spec_selected_prefixes(names)
            == seq![DbKeyPrefix::Escrow],
        names.len() > 0 && (forall|j: int| 0 <= j < names.len() ==> (#[trigger] names[j])@
            != "escrow"@) ==> spec_selected_prefixes(names) == Seq::<DbKeyPrefix>::empty(),
{
    reveal_strlit("Escrow");
    reveal_strlit("escrow");
    assert(ascii_lower(spec_prefix_name(DbKeyPrefix::Escrow)) =~= "escrow"@);
    let all = spec_all_prefixes();
    let sel = spec_selected_tables(all, names);
    law_dump_covers_exactly_the_asked_tables(all, names, DbKeyPrefix::Escrow, i);
    assert(all[0] == DbKeyPrefix::Escrow);
    assert(all.contains(DbKeyPrefix::Escrow));
    all.lemma_filter_len(|q: DbKeyPrefix| crate::dump::table_selected(names, q));
    assert(sel.len() <= 1);
    if sel.contains(DbKeyPrefix::Escrow) {
        assert(sel =~= seq![DbKeyPrefix::Escrow]);
    } else {
        if sel.len() == 1 {
            let q = sel[0];
            assert(q == DbKeyPrefix::Escrow);
            assert(sel.contains(q));
        }
        assert(sel =~= Seq::<DbKeyPrefix>::empty());
    }
}

} // verus!
