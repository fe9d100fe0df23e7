use fedimint_escrow::common::config::EscrowClientConfig;
use fedimint_escrow::common::{
    module_consensus_version, Amount, EscrowCommonInit, EscrowConsensusItem, EscrowInput,
    EscrowInputError, EscrowOutput, EscrowOutputError, EscrowOutputOutcome, EscrowResolution,
    EscrowStatus, PublicKey, KIND,
};
use fedimint_escrow::text::contains_text;

fn key() -> PublicKey {
    PublicKey { serialized: [3u8; 33] }
}

#[test]
fn module_identity() {
    assert_eq!(KIND, "escrow");
    assert_eq!(EscrowCommonInit::kind(), "escrow");
    let v = module_consensus_version();
    assert_eq!((v.major, v.minor), (0, 1));
    assert_eq!(EscrowCommonInit::consensus_version(), v);
}

#[test]
fn amounts() {
    assert_eq!(Amount::zero().msats, 0);
    assert_eq!(Amount::from_msats(77).msats, 77);
}

#[test]
fn status_names() {
    assert_eq!(EscrowStatus::Reserved.name(), "Reserved");
    assert_eq!(EscrowStatus::Fulfilled.name(), "Fulfilled");
    assert_eq!(EscrowStatus::Cancelled.name(), "Cancelled");
}

#[test]
fn resolution_statuses() {
    assert_eq!(EscrowResolution::Fulfil { supplier_key: key() }.status(), EscrowStatus::Fulfilled);
    assert_eq!(EscrowResolution::Cancel.status(), EscrowStatus::Cancelled);
}

#[test]
fn display_texts() {
    let input = EscrowInput {
        order_id: "order-7".to_string(),
        amount: Amount::from_msats(5),
        customer_key: key(),
    };
    assert_eq!(input.display_with_amount("5 msat"), "EscrowInput(order=order-7, amount=5 msat)");
    let fulfil = EscrowOutput {
        order_id: "order-7".to_string(),
        resolution: EscrowResolution::Fulfil { supplier_key: key() },
    };
    assert_eq!(fulfil.to_display_string(), "EscrowOutput(order=order-7, fulfil)");
    let cancel = EscrowOutput { order_id: "x".to_string(), resolution: EscrowResolution::Cancel };
    assert_eq!(cancel.to_display_string(), "EscrowOutput(order=x, cancel)");
    let outcome = EscrowOutputOutcome { status: EscrowStatus::Cancelled };
    assert_eq!(outcome.to_display_string(), "EscrowOutcome(Cancelled)");
    assert_eq!(EscrowConsensusItem.to_display_string(), "EscrowConsensusItem");
    assert_eq!(EscrowClientConfig.to_display_string(), "EscrowClientConfig");
}

#[test]
fn error_messages() {
    assert_eq!(
        EscrowInputError::AlreadyExists("o1".to_string()).message(),
        "Order o1 already has an active escrow"
    );
    assert_eq!(EscrowInputError::ZeroAmount.message(), "Escrow amount must be greater than zero");
    assert_eq!(EscrowOutputError::NotFound("o2".to_string()).message(), "No escrow found for order o2");
    assert_eq!(
        EscrowOutputError::AlreadyResolved("o3".to_string(), EscrowStatus::Fulfilled).message(),
        "Escrow for order o3 is already resolved (Fulfilled)"
    );
}

#[test]
fn text_membership() {
    let names = vec!["a".to_string(), "bc".to_string()];
    assert!(contains_text(&names, &"bc".to_string()));
    assert!(!contains_text(&names, &"b".to_string()));
    assert!(!contains_text(&vec![], &"a".to_string()));
}
