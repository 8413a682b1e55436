//! The engine's laws: properties that hold of every record and every call,
//! proved once here from the operations' own specifications.

use crate::engine::{
    cancel_ok, create_ok, created_record, mediate_ok, sign_charges, sign_err, sign_expired,
    sign_ok, sign_post,
};
use crate::fees::spec_platform_fee;
use crate::record::{all_signed, first_index_of, lemma_first_index_of, ContractView};
use crate::types::{ContractError, ContractStatus, Identity};
use vstd::prelude::*;

verus! {

/// A freshly created record is `Active`, has every signature slot false, is
/// not fully signed, and is well-formed.
pub proof fn lemma_create_initial_state(
    creator: Identity,
    document_hash: Seq<char>,
    title: Seq<char>,
    parties: Seq<Identity>,
    mediator: Option<Identity>,
    expiry_timestamp: Option<i64>,
    contract_value_lamports: u64,
    now: i64,
)
    requires
        create_ok(document_hash, title, parties),
    ensures
        ({
            let r = created_record(
                creator,
                document_hash,
                title,
                parties,
                mediator,
                expiry_timestamp,
                contract_value_lamports,
                now,
            );
            &&& r.status == ContractStatus::Active
            &&& !r.is_fully_signed
            &&& r.signatures.len() == parties.len()
            &&& forall|i: int| 0 <= i < r.signatures.len() ==> !r.signatures[i]
            &&& r.wf()
        }),
{
    let r = created_record(
        creator,
        document_hash,
        title,
        parties,
        mediator,
        expiry_timestamp,
        contract_value_lamports,
        now,
    );
    assert(!all_signed(r.signatures)) by {
        assert(!r.signatures[0]);
    }
}

/// A record becomes fully signed exactly at the signature that flips the
/// last remaining false slot, and it completes atomically at that same call:
/// afterwards the status is `Completed` iff the record is fully signed, and
/// otherwise the record stays `Active`.
pub proof fn lemma_completion_exactly_at_last_signature(
    r: ContractView,
    signer: Identity,
    now: i64,
)
    requires
        r.wf(),
        sign_ok(r, signer, now),
    ensures
        ({
            let i = first_index_of(r.parties, signer);
            let post = sign_post(r, signer);
            &&& (post.is_fully_signed <==> (forall|j: int|
                0 <= j < r.signatures.len() && j != i ==> r.signatures[j]))
            &&& (post.status == ContractStatus::Completed <==> post.is_fully_signed)
            &&& (!post.is_fully_signed ==> post.status == ContractStatus::Active)
        }),
{
    lemma_first_index_of(r.parties, signer);
    let i = first_index_of(r.parties, signer);
    let post = sign_post(r, signer);
    assert(post.signatures[i]);
    if forall|j: int| 0 <= j < r.signatures.len() && j != i ==> r.signatures[j] {
        assert forall|j: int| 0 <= j < post.signatures.len() implies post.signatures[j] by {
            if j != i {
                assert(r.signatures[j]);
            }
        }
    }
    if all_signed(post.signatures) {
        assert forall|j: int|
            0 <= j < r.signatures.len() && j != i implies r.signatures[j] by {
            assert(post.signatures[j]);
        }
    }
}

/// Rejection of a repeated signature is stable: after a party signs
/// successfully without completing the record, a second signing attempt by
/// the same party within the expiry deadline is refused as `AlreadySigned`,
/// and it would not charge the secondary fee again.
pub proof fn lemma_sign_rejection_idempotent(
    r: ContractView,
    signer: Identity,
    now1: i64,
    now2: i64,
)
    requires
        r.wf(),
        sign_ok(r, signer, now1),
        sign_post(r, signer).status == ContractStatus::Active,
        !sign_expired(sign_post(r, signer), now2),
    ensures
        !sign_ok(sign_post(r, signer), signer, now2),
        sign_err(sign_post(r, signer), signer, now2) == ContractError::AlreadySigned,
        !sign_charges(sign_post(r, signer), signer),
{
    lemma_first_index_of(r.parties, signer);
    let i = first_index_of(r.parties, signer);
    let post = sign_post(r, signer);
    assert(post.parties == r.parties);
    assert(post.signatures[i]);
}

/// A recorded signature is permanent: after a party signs successfully, no
/// later signing call by that party can succeed, at any time, and none would
/// charge the secondary fee again.
pub proof fn lemma_second_signature_never_succeeds(
    r: ContractView,
    signer: Identity,
    now1: i64,
    now2: i64,
)
    requires
        r.wf(),
        sign_ok(r, signer, now1),
    ensures
        !sign_ok(sign_post(r, signer), signer, now2),
        !sign_charges(sign_post(r, signer), signer),
{
    lemma_first_index_of(r.parties, signer);
    let i = first_index_of(r.parties, signer);
    let post = sign_post(r, signer);
    assert(post.parties == r.parties);
    assert(post.signatures[i]);
}

/// Terminal statuses are final: once a record's status has left `Active`, no
/// signing, cancellation or mediation call can succeed on it.
pub proof fn lemma_terminal_status_is_final(r: ContractView, actor: Identity, now: i64)
    requires
        r.status != ContractStatus::Active,
    ensures
        !sign_ok(r, actor, now),
        !cancel_ok(r, actor),
        !mediate_ok(r, actor),
{
}

/// On a freshly created record the stored fee is exactly the proportional
/// fee of the contract value — the amount the creation itself charges the
/// creator — the secondary fee is still owed, and it is owed precisely by
/// the party at index 1.
pub proof fn lemma_creation_fee(
    creator: Identity,
    document_hash: Seq<char>,
    title: Seq<char>,
    parties: Seq<Identity>,
    mediator: Option<Identity>,
    expiry_timestamp: Option<i64>,
    contract_value_lamports: u64,
    now: i64,
)
    requires
        create_ok(document_hash, title, parties),
    ensures
        ({
            let r = created_record(
                creator,
                document_hash,
                title,
                parties,
                mediator,
                expiry_timestamp,
                contract_value_lamports,
                now,
            );
            &&& r.platform_fee_lamports == spec_platform_fee(contract_value_lamports)
            &&& !r.party2_fee_paid
            &&& forall|signer: Identity|
                sign_charges(r, signer) <==> first_index_of(parties, signer) == 1
        }),
{
}

/// The secondary fee is charged exactly once: the first signature by party
/// index 1 charges the stored fee amount — unchanged since creation — and
/// latches the flag, after which no signature by anyone charges it again.
pub proof fn lemma_secondary_fee_charged_once(
    r: ContractView,
    p1: Identity,
    p2: Identity,
    now1: i64,
)
    requires
        r.wf(),
        sign_ok(r, p1, now1),
        sign_charges(r, p1),
    ensures
        sign_post(r, p1).party2_fee_paid,
        sign_post(r, p1).platform_fee_lamports == r.platform_fee_lamports,
        !sign_charges(sign_post(r, p1), p2),
{
}

} // verus!
