//! Input validation, the documented check order, expiry enforcement,
//! cancellation, mediation, and the fee clamp.

use digital_contract::engine::{
    cancel_contract, create_contract, mediate_dispute, sign_contract,
};
use digital_contract::fees::platform_fee;
use digital_contract::types::{ContractError, ContractStatus, Identity};

fn id(n: u128) -> Identity {
    Identity::new(0, n)
}

fn create_two_party(
    mediator: Option<Identity>,
    expiry: Option<i64>,
) -> digital_contract::record::Contract {
    create_contract(
        id(901),
        id(1),
        id(900),
        1_000,
        String::from("hash"),
        String::from("title"),
        vec![id(1), id(2)],
        mediator,
        expiry,
        0,
    )
    .expect("creation must succeed")
    .record
}

#[test]
fn single_party_contract_is_rejected() {
    let err = create_contract(
        id(901),
        id(1),
        id(900),
        1_000,
        String::from("hash"),
        String::from("title"),
        vec![id(1)],
        None,
        None,
        0,
    )
    .expect_err("one party is too few");
    assert_eq!(err, ContractError::InvalidPartyCount);
}

#[test]
fn eleven_party_contract_is_rejected() {
    let parties: Vec<Identity> = (1u128..=11).map(id).collect();
    let err = create_contract(
        id(901),
        id(1),
        id(900),
        1_000,
        String::from("hash"),
        String::from("title"),
        parties,
        None,
        None,
        0,
    )
    .expect_err("eleven parties are too many");
    assert_eq!(err, ContractError::InvalidPartyCount);
}

#[test]
fn ten_party_contract_is_accepted() {
    let parties: Vec<Identity> = (1u128..=10).map(id).collect();
    let out = create_contract(
        id(901),
        id(1),
        id(900),
        1_000,
        String::from("hash"),
        String::from("title"),
        parties,
        None,
        None,
        0,
    )
    .expect("ten parties are allowed");
    assert_eq!(out.record.signatures.len(), 10);
}

#[test]
fn overlong_document_hash_is_rejected() {
    let err = create_contract(
        id(901),
        id(1),
        id(900),
        1_000,
        "x".repeat(65),
        String::from("title"),
        vec![id(1), id(2)],
        None,
        None,
        0,
    )
    .expect_err("65 characters are too many");
    assert_eq!(err, ContractError::DocumentHashTooLong);
}

#[test]
fn sixty_four_character_hash_is_accepted() {
    create_contract(
        id(901),
        id(1),
        id(900),
        1_000,
        "x".repeat(64),
        String::from("title"),
        vec![id(1), id(2)],
        None,
        None,
        0,
    )
    .expect("64 characters fit");
}

#[test]
fn overlong_title_is_rejected() {
    let err = create_contract(
        id(901),
        id(1),
        id(900),
        1_000,
        String::from("hash"),
        "t".repeat(101),
        vec![id(1), id(2)],
        None,
        None,
        0,
    )
    .expect_err("101 characters are too many");
    assert_eq!(err, ContractError::TitleTooLong);
}

#[test]
fn hash_check_precedes_title_and_party_checks() {
    let err = create_contract(
        id(901),
        id(1),
        id(900),
        1_000,
        "x".repeat(65),
        "t".repeat(101),
        vec![id(1)],
        None,
        None,
        0,
    )
    .expect_err("everything is wrong; the hash check is first");
    assert_eq!(err, ContractError::DocumentHashTooLong);
}

#[test]
fn signing_at_the_deadline_is_allowed() {
    let mut rec = create_two_party(None, Some(2_000));
    sign_contract(&mut rec, id(901), id(2), id(900), 2_000)
        .expect("the deadline itself is still in time");
    assert_eq!(rec.signatures, vec![false, true]);
}

#[test]
fn signing_after_the_deadline_is_rejected() {
    let mut rec = create_two_party(None, Some(2_000));
    let err = sign_contract(&mut rec, id(901), id(2), id(900), 2_001)
        .expect_err("the deadline has passed");
    assert_eq!(err, ContractError::ContractExpired);
    assert_eq!(rec.signatures, vec![false, false]);
}

#[test]
fn expiry_is_reported_before_the_signer_check() {
    let mut rec = create_two_party(None, Some(2_000));
    // A stranger signing an expired record: the expiry check comes first.
    let err = sign_contract(&mut rec, id(901), id(77), id(900), 3_000)
        .expect_err("expired and unauthorized");
    assert_eq!(err, ContractError::ContractExpired);
}

#[test]
fn inactive_status_is_reported_before_expiry_and_signer_checks() {
    let mut rec = create_two_party(None, Some(2_000));
    cancel_contract(&mut rec, id(901), id(1)).expect("the creator may cancel");
    let err = sign_contract(&mut rec, id(901), id(77), id(900), 3_000)
        .expect_err("cancelled, expired and unauthorized");
    assert_eq!(err, ContractError::ContractNotActive);
}

#[test]
fn expired_record_still_reads_active_and_may_be_cancelled() {
    let mut rec = create_two_party(None, Some(2_000));
    let err = sign_contract(&mut rec, id(901), id(2), id(900), 9_000)
        .expect_err("the deadline has passed");
    assert_eq!(err, ContractError::ContractExpired);
    // Expiry is lazy: the stored status never becomes Expired.
    assert_eq!(rec.status, ContractStatus::Active);
    cancel_contract(&mut rec, id(901), id(1)).expect("cancel is not blocked by expiry");
    assert_eq!(rec.status, ContractStatus::Cancelled);
}

#[test]
fn creator_may_cancel() {
    let mut rec = create_two_party(None, None);
    let event = cancel_contract(&mut rec, id(901), id(1)).expect("the creator may cancel");
    assert_eq!(rec.status, ContractStatus::Cancelled);
    assert_eq!(event.contract_id, id(901));
    assert_eq!(event.cancelled_by, id(1));
}

#[test]
fn mediator_may_cancel() {
    let mut rec = create_two_party(Some(id(50)), None);
    cancel_contract(&mut rec, id(901), id(50)).expect("the mediator may cancel");
    assert_eq!(rec.status, ContractStatus::Cancelled);
}

#[test]
fn other_parties_may_not_cancel() {
    let mut rec = create_two_party(Some(id(50)), None);
    let err = cancel_contract(&mut rec, id(901), id(2))
        .expect_err("an ordinary party may not cancel");
    assert_eq!(err, ContractError::UnauthorizedCancellation);
    assert_eq!(rec.status, ContractStatus::Active);
}

#[test]
fn cancelled_record_rejects_every_operation() {
    let mut rec = create_two_party(Some(id(50)), None);
    cancel_contract(&mut rec, id(901), id(1)).expect("the creator may cancel");
    let err = sign_contract(&mut rec, id(901), id(2), id(900), 1_010)
        .expect_err("cancelled records cannot be signed");
    assert_eq!(err, ContractError::ContractNotActive);
    let err = cancel_contract(&mut rec, id(901), id(1))
        .expect_err("cancelled records cannot be cancelled again");
    assert_eq!(err, ContractError::ContractNotActive);
    let err = mediate_dispute(&mut rec, id(901), id(50), String::from("moot"))
        .expect_err("cancelled records cannot be disputed");
    assert_eq!(err, ContractError::ContractNotActive);
    assert_eq!(rec.status, ContractStatus::Cancelled);
}

#[test]
fn mediator_may_mediate() {
    let mut rec = create_two_party(Some(id(50)), None);
    let event = mediate_dispute(&mut rec, id(901), id(50), String::from("split the goods"))
        .expect("the mediator may mediate");
    assert_eq!(rec.status, ContractStatus::Disputed);
    assert_eq!(event.contract_id, id(901));
    assert_eq!(event.mediator, id(50));
    assert_eq!(event.resolution, "split the goods");
}

#[test]
fn non_mediator_may_not_mediate() {
    let mut rec = create_two_party(Some(id(50)), None);
    let err = mediate_dispute(&mut rec, id(901), id(1), String::from("nope"))
        .expect_err("the creator is not the mediator");
    assert_eq!(err, ContractError::UnauthorizedMediator);
    assert_eq!(rec.status, ContractStatus::Active);
}

#[test]
fn mediation_requires_a_mediator_to_be_set() {
    let mut rec = create_two_party(None, None);
    let err = mediate_dispute(&mut rec, id(901), id(1), String::from("nope"))
        .expect_err("no mediator is set");
    assert_eq!(err, ContractError::UnauthorizedMediator);
}

#[test]
fn disputed_record_rejects_signing() {
    let mut rec = create_two_party(Some(id(50)), None);
    mediate_dispute(&mut rec, id(901), id(50), String::from("resolved")).expect("mediate");
    let err = sign_contract(&mut rec, id(901), id(2), id(900), 1_010)
        .expect_err("disputed records cannot be signed");
    assert_eq!(err, ContractError::ContractNotActive);
}

#[test]
fn fee_is_floored_for_small_values() {
    assert_eq!(platform_fee(0), 1_000_000);
    assert_eq!(platform_fee(999_999_999), 1_000_000);
    assert_eq!(platform_fee(1_000_000_000), 1_000_000);
}

#[test]
fn fee_is_proportional_in_the_middle_band() {
    assert_eq!(platform_fee(1_000_000_001), 1_000_000);
    assert_eq!(platform_fee(5_000_000_000), 5_000_000);
    assert_eq!(platform_fee(99_999_999_999), 99_999_999);
}

#[test]
fn fee_is_capped_for_large_values() {
    assert_eq!(platform_fee(100_000_000_000), 100_000_000);
    assert_eq!(platform_fee(u64::MAX), 100_000_000);
}
