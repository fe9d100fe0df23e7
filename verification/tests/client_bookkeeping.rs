use fedimint_escrow::dump::DumpTable;
use fedimint_escrow::client::db::{ClientEscrowKey, ClientEscrowRecord, DbKeyPrefix};
use fedimint_escrow::client::{
    cancel, context, dumped_prefixes, fulfil, input_fee, list_escrows, output_fee, reserve,
    selected_prefixes, EscrowClientContext, EscrowClientInit,
};
use fedimint_escrow::common::{Amount, EscrowResolution, EscrowStatus, PublicKey};
use fedimint_escrow::server::db::EscrowRecord;
use fedimint_escrow::server::Escrow;
use fedimint_escrow::common::config::EscrowConfig;

fn key(b: u8) -> PublicKey {
    PublicKey { serialized: [b; 33] }
}

fn rec(msats: u64, status: EscrowStatus) -> ClientEscrowRecord {
    ClientEscrowRecord { amount: Amount::from_msats(msats), status }
}

#[test]
fn reserve_records_and_builds_the_input() {
    let ((k, r), input) = reserve("ord".to_string(), Amount::from_msats(400), key(5));
    assert_eq!(k, ClientEscrowKey("ord".to_string()));
    assert_eq!(ClientEscrowKey::of_order(&"ord".to_string()), k);
    assert_eq!(r, rec(400, EscrowStatus::Reserved));
    assert_eq!(input.order_id, "ord");
    assert_eq!(input.amount.msats, 400);
    assert_eq!(input.customer_key, key(5));
}

#[test]
fn fulfil_marks_the_record_and_builds_the_output() {
    let (write, output) = fulfil(Some(rec(400, EscrowStatus::Reserved)), "ord".to_string(), key(8));
    assert_eq!(write, Some((ClientEscrowKey("ord".to_string()), rec(400, EscrowStatus::Fulfilled))));
    assert_eq!(output.order_id, "ord");
    assert_eq!(output.resolution, EscrowResolution::Fulfil { supplier_key: key(8) });
}

#[test]
fn fulfil_without_a_record_writes_nothing() {
    let (write, output) = fulfil(None, "ord".to_string(), key(8));
    assert_eq!(write, None);
    assert_eq!(output.resolution, EscrowResolution::Fulfil { supplier_key: key(8) });
}

#[test]
fn cancel_marks_the_record_and_builds_the_output() {
    let (write, output) = cancel(Some(rec(10, EscrowStatus::Reserved)), "o".to_string());
    assert_eq!(write, Some((ClientEscrowKey("o".to_string()), rec(10, EscrowStatus::Cancelled))));
    assert_eq!(output.order_id, "o");
    assert_eq!(output.resolution, EscrowResolution::Cancel);
    let (none, _) = cancel(None, "o".to_string());
    assert_eq!(none, None);
}

#[test]
fn client_and_server_agree_on_how_an_escrow_ends() {
    let ((_, client_rec), input) = reserve("o".to_string(), Amount::from_msats(60), key(1));
    let server = Escrow::new(EscrowConfig::new());
    let ((_, server_rec), _) = server.process_input(None, &input).unwrap();
    let (write, output) = cancel(Some(client_rec), "o".to_string());
    let ((_, server_after), release) = server.process_output(Some(server_rec), &output).unwrap();
    let (_, client_after) = write.unwrap();
    assert_eq!(client_after.status, server_after.status);
    assert_eq!(client_after.amount, server_after.amount);
    assert_eq!(release.amount.amount.msats, 60);
    assert_eq!(release.payee, key(1));
    let _: EscrowRecord = server_after;
}

#[test]
fn list_escrows_pairs_order_ids_with_records() {
    let entries = vec![
        (ClientEscrowKey("a".to_string()), rec(1, EscrowStatus::Reserved)),
        (ClientEscrowKey("b".to_string()), rec(2, EscrowStatus::Cancelled)),
    ];
    assert_eq!(
        list_escrows(&entries),
        vec![
            ("a".to_string(), rec(1, EscrowStatus::Reserved)),
            ("b".to_string(), rec(2, EscrowStatus::Cancelled)),
        ]
    );
    assert!(list_escrows(&vec![]).is_empty());
}

#[test]
fn client_charges_no_fees() {
    let (_, input) = reserve("o".to_string(), Amount::from_msats(9), key(1));
    assert_eq!(input_fee(&input), Some(Amount::from_msats(0)));
    let (_, output) = cancel(None, "o".to_string());
    assert_eq!(output_fee(&output), Some(Amount::from_msats(0)));
}

#[test]
fn client_setup() {
    let v = EscrowClientInit.supported_api_versions();
    assert_eq!(v.len(), 1);
    assert_eq!((v[0].major, v[0].minor), (0, 0));
    let _: EscrowClientContext = context();
}

#[test]
fn client_prefixes() {
    assert_eq!(
        DbKeyPrefix::all().iter().map(|p| p.to_u8()).collect::<Vec<_>>(),
        vec![0x01, 0xb0, 0xd0, 0xff]
    );
    assert_eq!(DbKeyPrefix::ActiveEscrow.to_display_string(), "ActiveEscrow");
    assert_eq!(DbKeyPrefix::ActiveEscrow.lowercase_name(), "activeescrow");
    assert_eq!(DbKeyPrefix::CoreInternalReservedEnd.lowercase_name(), "coreinternalreservedend");
}

#[test]
fn client_dump_selection() {
    assert_eq!(selected_prefixes(&vec![]), DbKeyPrefix::all());
    assert_eq!(dumped_prefixes(&vec![]), vec![DbKeyPrefix::ActiveEscrow]);
    let names = vec!["coreinternalreservedend".to_string(), "activeescrow".to_string()];
    assert_eq!(
        selected_prefixes(&names),
        vec![DbKeyPrefix::ActiveEscrow, DbKeyPrefix::CoreInternalReservedEnd]
    );
    assert_eq!(dumped_prefixes(&names), vec![DbKeyPrefix::ActiveEscrow]);
    let reserved_only = vec!["externalreservedstart".to_string()];
    assert_eq!(selected_prefixes(&reserved_only), vec![DbKeyPrefix::ExternalReservedStart]);
    assert!(dumped_prefixes(&reserved_only).is_empty());
    assert!(dumped_prefixes(&vec!["ActiveEscrow".to_string()]).is_empty());
}
