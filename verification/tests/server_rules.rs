use fedimint_escrow::common::config::{EscrowClientConfig, EscrowConfig};
use fedimint_escrow::common::{
    Amount, CoreConsensusVersion, EscrowInput, EscrowInputError, EscrowOutput,
    EscrowOutputError, EscrowResolution, EscrowStatus, PublicKey,
};
use fedimint_escrow::dump::DumpTable;
use fedimint_escrow::server::db::{DbKeyPrefix, EscrowKey, EscrowRecord};
use fedimint_escrow::server::{audit_liability, selected_prefixes, Escrow, EscrowInit};

fn key(b: u8) -> PublicKey {
    let mut serialized = [0u8; 33];
    serialized[0] = 0x02;
    serialized[32] = b;
    PublicKey { serialized }
}

fn module() -> Escrow {
    Escrow::new(EscrowConfig::new())
}

fn input(order: &str, msats: u64) -> EscrowInput {
    EscrowInput { order_id: order.to_string(), amount: Amount::from_msats(msats), customer_key: key(1) }
}

fn output(order: &str, resolution: EscrowResolution) -> EscrowOutput {
    EscrowOutput { order_id: order.to_string(), resolution }
}

fn record(msats: u64, status: EscrowStatus) -> EscrowRecord {
    EscrowRecord { amount: Amount::from_msats(msats), customer_key: key(1), status, released_to: None }
}

fn released(msats: u64, status: EscrowStatus, to: PublicKey) -> EscrowRecord {
    EscrowRecord { released_to: Some(to), ..record(msats, status) }
}

#[test]
fn input_of_zero_amount_is_refused() {
    let r = module().process_input(None, &input("o1", 0));
    assert_eq!(r, Err(EscrowInputError::ZeroAmount));
}

#[test]
fn zero_amount_is_refused_before_an_active_escrow() {
    let existing = Some(record(10, EscrowStatus::Reserved));
    let r = module().process_input(existing, &input("o1", 0));
    assert_eq!(r, Err(EscrowInputError::ZeroAmount));
}

#[test]
fn input_for_an_order_with_an_active_escrow_is_refused() {
    let existing = Some(record(10, EscrowStatus::Reserved));
    let r = module().process_input(existing, &input("o1", 7));
    assert_eq!(r, Err(EscrowInputError::AlreadyExists("o1".to_string())));
}

#[test]
fn input_for_a_new_order_reserves_it() {
    let ((k, rec), meta) = module().process_input(None, &input("o1", 1500)).unwrap();
    assert_eq!(k, EscrowKey("o1".to_string()));
    assert_eq!(rec, record(1500, EscrowStatus::Reserved));
    assert_eq!(meta.amount.amount.msats, 1500);
    assert_eq!(meta.amount.fee.msats, 0);
    assert_eq!(meta.pub_key, key(1));
}

#[test]
fn input_for_a_resolved_order_reserves_it_again() {
    for status in [EscrowStatus::Fulfilled, EscrowStatus::Cancelled] {
        let existing = Some(EscrowRecord {
            amount: Amount::from_msats(3),
            customer_key: key(9),
            status,
            released_to: Some(key(9)),
        });
        let ((_, rec), meta) = module().process_input(existing, &input("o1", 42)).unwrap();
        assert_eq!(rec, record(42, EscrowStatus::Reserved));
        assert_eq!(meta.amount.amount.msats, 42);
    }
}

#[test]
fn output_for_an_unknown_order_is_refused() {
    let r = module().process_output(None, &output("o9", EscrowResolution::Cancel));
    assert_eq!(r, Err(EscrowOutputError::NotFound("o9".to_string())));
}

#[test]
fn output_for_a_resolved_escrow_is_refused_with_its_status() {
    let existing = Some(record(5, EscrowStatus::Fulfilled));
    let r = module().process_output(existing, &output("o2", EscrowResolution::Cancel));
    assert_eq!(
        r,
        Err(EscrowOutputError::AlreadyResolved("o2".to_string(), EscrowStatus::Fulfilled))
    );
}

#[test]
fn fulfil_pays_out_the_held_amount() {
    let existing = Some(record(2500, EscrowStatus::Reserved));
    let res = EscrowResolution::Fulfil { supplier_key: key(7) };
    let ((k, rec), release) = module().process_output(existing, &output("o3", res)).unwrap();
    assert_eq!(k, EscrowKey("o3".to_string()));
    assert_eq!(rec, released(2500, EscrowStatus::Fulfilled, key(7)));
    assert_eq!(release.amount.amount.msats, 2500);
    assert_eq!(release.amount.fee.msats, 0);
    assert_eq!(release.payee, key(7));
}

#[test]
fn cancel_refunds_the_held_amount() {
    let existing = Some(record(900, EscrowStatus::Reserved));
    let ((_, rec), release) =
        module().process_output(existing, &output("o4", EscrowResolution::Cancel)).unwrap();
    assert_eq!(rec, released(900, EscrowStatus::Cancelled, key(1)));
    assert_eq!(release.amount.amount.msats, 900);
    assert_eq!(release.payee, key(1));
}

#[test]
fn fulfil_pays_the_supplier_it_names() {
    let existing = Some(record(10, EscrowStatus::Reserved));
    let a = EscrowResolution::Fulfil { supplier_key: key(4) };
    let b = EscrowResolution::Fulfil { supplier_key: key(5) };
    let ((_, rec_a), rel_a) = module().process_output(existing, &output("o", a)).unwrap();
    let ((_, rec_b), rel_b) = module().process_output(existing, &output("o", b)).unwrap();
    assert_eq!(rel_a.payee, key(4));
    assert_eq!(rel_b.payee, key(5));
    assert_ne!(rec_a, rec_b);
}

#[test]
fn escrow_lifecycle_releases_what_it_locked_once() {
    let m = module();
    let ((_, reserved), meta) = m.process_input(None, &input("o5", 1234)).unwrap();
    let res = EscrowResolution::Fulfil { supplier_key: key(3) };
    let ((_, resolved), release) = m.process_output(Some(reserved), &output("o5", res)).unwrap();
    assert_eq!(release.amount, meta.amount);
    assert_eq!(resolved.released_to, Some(key(3)));
    assert_eq!(resolved.amount, reserved.amount);
    assert_eq!(resolved.customer_key, reserved.customer_key);
    let again = m.process_output(Some(resolved), &output("o5", EscrowResolution::Cancel));
    assert_eq!(
        again,
        Err(EscrowOutputError::AlreadyResolved("o5".to_string(), EscrowStatus::Fulfilled))
    );
}

#[test]
fn held_funds_match_the_net_flow_of_a_sequence() {
    let m = module();
    let mut stored: Option<EscrowRecord> = None;
    let mut net: i128 = 0;
    let steps: Vec<Result<u64, EscrowResolution>> = vec![
        Ok(100),
        Ok(50),
        Err(EscrowResolution::Cancel),
        Err(EscrowResolution::Cancel),
        Ok(0),
        Ok(70),
        Err(EscrowResolution::Fulfil { supplier_key: key(2) }),
        Ok(30),
    ];
    for step in steps {
        match step {
            Ok(msats) => {
                if let Ok(((_, rec), meta)) = m.process_input(stored, &input("o6", msats)) {
                    stored = Some(rec);
                    net += i128::from(meta.amount.amount.msats);
                }
            }
            Err(res) => {
                if let Ok(((_, rec), release)) = m.process_output(stored, &output("o6", res)) {
                    stored = Some(rec);
                    net -= i128::from(release.amount.amount.msats);
                }
            }
        }
    }
    assert_eq!(net, 30);
    let rec = stored.unwrap();
    assert_eq!(rec.status, EscrowStatus::Reserved);
    assert_eq!(i128::from(audit_liability(&rec)), -net);
}

#[test]
fn audit_counts_reserved_escrows_as_liabilities() {
    assert_eq!(audit_liability(&record(5000, EscrowStatus::Reserved)), -5000);
    assert_eq!(audit_liability(&record(i64::MAX as u64, EscrowStatus::Reserved)), -i64::MAX);
    assert_eq!(audit_liability(&record(5000, EscrowStatus::Fulfilled)), 0);
    assert_eq!(audit_liability(&record(5000, EscrowStatus::Cancelled)), 0);
}

#[test]
fn audit_counts_amounts_beyond_i64_as_the_largest_liability() {
    assert_eq!(audit_liability(&record(0x8000_0000_0000_0000, EscrowStatus::Reserved)), i64::MIN);
    assert_eq!(audit_liability(&record(u64::MAX, EscrowStatus::Reserved)), i64::MIN);
    assert_eq!(
        audit_liability(&record(0x8000_0000_0000_0001, EscrowStatus::Reserved)),
        i64::MIN
    );
    assert_eq!(audit_liability(&record(u64::MAX, EscrowStatus::Fulfilled)), 0);
}

#[test]
fn dump_covers_all_tables_when_no_name_is_asked() {
    assert_eq!(selected_prefixes(&vec![]), vec![DbKeyPrefix::Escrow]);
}

#[test]
fn dump_selects_tables_by_lower_case_name() {
    assert_eq!(selected_prefixes(&vec!["escrow".to_string()]), vec![DbKeyPrefix::Escrow]);
    assert_eq!(
        selected_prefixes(&vec!["other".to_string(), "escrow".to_string()]),
        vec![DbKeyPrefix::Escrow]
    );
    assert_eq!(selected_prefixes(&vec!["Escrow".to_string()]), vec![]);
    assert_eq!(selected_prefixes(&vec!["other".to_string()]), vec![]);
}

#[test]
fn server_prefix_names_and_bytes() {
    assert_eq!(DbKeyPrefix::Escrow.to_u8(), 0x01);
    assert_eq!(DbKeyPrefix::Escrow.to_display_string(), "Escrow");
    assert_eq!(DbKeyPrefix::Escrow.lowercase_name(), "escrow");
    assert_eq!(DbKeyPrefix::all(), vec![DbKeyPrefix::Escrow]);
}

#[test]
fn module_setup() {
    let init = EscrowInit;
    let v = init.versions();
    assert_eq!(v.len(), 1);
    assert_eq!((v[0].major, v[0].minor), (0, 1));
    let api = init.supported_api_versions(CoreConsensusVersion { major: 2, minor: 1 });
    assert_eq!(api.core_consensus, CoreConsensusVersion { major: 2, minor: 1 });
    assert_eq!((api.module_consensus.major, api.module_consensus.minor), (0, 1));
    assert_eq!(api.api_versions.len(), 1);
    assert_eq!((api.api_versions[0].major, api.api_versions[0].minor), (0, 0));
    let cfgs = init.trusted_dealer_gen(&[3, 1, 4]);
    assert_eq!(cfgs.iter().map(|(p, _)| *p).collect::<Vec<_>>(), vec![3, 1, 4]);
    assert!(cfgs.iter().all(|(_, c)| *c == EscrowConfig::new()));
    assert_eq!(init.distributed_gen(), EscrowConfig::new());
    assert_eq!(init.get_client_config(&EscrowConfig::new()), EscrowClientConfig);
    assert_eq!(init.validate_config(0, &EscrowConfig::new()), Ok(()));
}

#[test]
fn module_takes_no_consensus_items() {
    let m = module();
    assert!(m.consensus_proposal().is_empty());
    let item = fedimint_escrow::common::EscrowConsensusItem;
    assert_eq!(
        m.process_consensus_item(&item, 2),
        Err("The escrow module does not use consensus items".to_string())
    );
    assert_eq!(m.output_status(), None);
    assert_eq!(m.cfg, EscrowConfig::new());
}
