//! The four operations of the engine: `create_contract`, `sign_contract`,
//! `cancel_contract` and `mediate_dispute`.
//!
//! Each operation is a pure state transition.  It validates its
//! preconditions in the documented order (first failure wins), mutates the
//! record, and returns the currency transfers and events that the host must
//! apply atomically with the record update.  A failed operation never
//! mutates the record.

use crate::fees::{platform_fee, spec_platform_fee};
use crate::record::{
    all_signed, all_signed_exec, find_party_index, first_index_of, has_party, Contract,
    ContractView, MAX_DOCUMENT_HASH_LENGTH, MAX_PARTIES, MAX_TITLE_LENGTH, MIN_PARTIES,
};
use crate::types::{
    ContractCancelled, ContractCreated, ContractError, ContractSigned, ContractStatus,
    DisputeMediated, Identity, TransferRequest,
};
use vstd::pervasive::VecAdditionalExecFns;
use vstd::prelude::*;
use vstd::string::StrSliceExecFns;

verus! {

/// Everything a successful `create_contract` hands back to the host: the new
/// record to store, the creation fee to collect from the creator, and the
/// event to emit.
#[derive(Debug)]
pub struct CreateOutcome {
    pub record: Contract,
    pub fee_transfer: TransferRequest,
    pub event: ContractCreated,
}

/// Everything a successful `sign_contract` hands back to the host: the
/// secondary fee to collect, if this signature owes it, and the event to
/// emit.
#[derive(Debug)]
pub struct SignOutcome {
    pub fee_transfer: Option<TransferRequest>,
    pub event: ContractSigned,
}

/// The validation `create_contract` performs on its inputs.
pub open spec fn create_ok(document_hash: Seq<char>, title: Seq<char>, parties: Seq<
    Identity,
>) -> bool {
    &&& document_hash.len() <= MAX_DOCUMENT_HASH_LENGTH
    &&& title.len() <= MAX_TITLE_LENGTH
    &&& MIN_PARTIES <= parties.len() <= MAX_PARTIES
}

/// Which rejection `create_contract` reports, first failed check first.
pub open spec fn create_err(document_hash: Seq<char>, title: Seq<char>, parties: Seq<
    Identity,
>) -> ContractError {
    if document_hash.len() > MAX_DOCUMENT_HASH_LENGTH {
        ContractError::DocumentHashTooLong
    } else if title.len() > MAX_TITLE_LENGTH {
        ContractError::TitleTooLong
    } else {
        ContractError::InvalidPartyCount
    }
}

/// The record `create_contract` allocates on success: all signatures false,
/// status `Active`, the fee computed by the proportional fee policy.
pub open spec fn created_record(
    creator: Identity,
    document_hash: Seq<char>,
    title: Seq<char>,
    parties: Seq<Identity>,
    mediator: Option<Identity>,
    expiry_timestamp: Option<i64>,
    contract_value_lamports: u64,
    now: i64,
) -> ContractView {
    ContractView {
        creator,
        document_hash,
        title,
        parties,
        mediator,
        signatures: Seq::new(parties.len(), |i: int| false),
        status: ContractStatus::Active,
        created_at: now,
        expiry_timestamp,
        is_fully_signed: false,
        contract_value_lamports,
        platform_fee_lamports: spec_platform_fee(contract_value_lamports),
        party2_fee_paid: false,
    }
}

/// True iff the record carries an expiry deadline that lies before `now`.
/// Expiry is enforced lazily: only signing checks it, the stored status is
/// never rewritten to `Expired`.
pub open spec fn sign_expired(r: ContractView, now: i64) -> bool {
    match r.expiry_timestamp {
        Some(expiry) => now > expiry,
        None => false,
    }
}

/// The preconditions of `sign_contract`, in the order they are checked.
pub open spec fn sign_ok(r: ContractView, signer: Identity, now: i64) -> bool {
    &&& r.status == ContractStatus::Active
    &&& !sign_expired(r, now)
    &&& has_party(r.parties, signer)
    &&& !r.signatures[first_index_of(r.parties, signer)]
}

/// Which rejection `sign_contract` reports, first failed check first.
pub open spec fn sign_err(r: ContractView, signer: Identity, now: i64) -> ContractError {
    if r.status != ContractStatus::Active {
        ContractError::ContractNotActive
    } else if sign_expired(r, now) {
        ContractError::ContractExpired
    } else if !has_party(r.parties, signer) {
        ContractError::UnauthorizedSigner
    } else {
        ContractError::AlreadySigned
    }
}

/// True iff this signature owes the secondary platform fee: the signer is
/// party index 1 and that fee has not been collected yet.
pub open spec fn sign_charges(r: ContractView, signer: Identity) -> bool {
    first_index_of(r.parties, signer) == 1 && !r.party2_fee_paid
}

/// The record after a successful signature: the signer's slot flips to true,
/// the secondary-fee flag latches if this signature paid it, and if every
/// slot is now set the record completes atomically.
pub open spec fn sign_post(r: ContractView, signer: Identity) -> ContractView {
    let i = first_index_of(r.parties, signer);
    let signatures = r.signatures.update(i, true);
    ContractView {
        signatures,
        party2_fee_paid: r.party2_fee_paid || i == 1,
        is_fully_signed: all_signed(signatures),
        status: if all_signed(signatures) {
            ContractStatus::Completed
        } else {
            r.status
        },
        ..r
    }
}

/// Only the creator or the designated mediator may cancel.
pub open spec fn cancel_authorized(r: ContractView, actor: Identity) -> bool {
    actor == r.creator || r.mediator == Some(actor)
}

/// The preconditions of `cancel_contract`, in the order they are checked.
pub open spec fn cancel_ok(r: ContractView, actor: Identity) -> bool {
    cancel_authorized(r, actor) && r.status == ContractStatus::Active
}

/// Which rejection `cancel_contract` reports, first failed check first.
pub open spec fn cancel_err(r: ContractView, actor: Identity) -> ContractError {
    if !cancel_authorized(r, actor) {
        ContractError::UnauthorizedCancellation
    } else {
        ContractError::ContractNotActive
    }
}

/// The record after a cancellation: only the status changes.  Fees already
/// collected are not refunded.
pub open spec fn cancel_post(r: ContractView) -> ContractView {
    ContractView { status: ContractStatus::Cancelled, ..r }
}

/// Only the designated mediator may mediate, and only if one is set.
pub open spec fn mediate_authorized(r: ContractView, actor: Identity) -> bool {
    r.mediator == Some(actor)
}

/// The preconditions of `mediate_dispute`, in the order they are checked.
pub open spec fn mediate_ok(r: ContractView, actor: Identity) -> bool {
    mediate_authorized(r, actor) && r.status == ContractStatus::Active
}

/// Which rejection `mediate_dispute` reports, first failed check first.
pub open spec fn mediate_err(r: ContractView, actor: Identity) -> ContractError {
    if !mediate_authorized(r, actor) {
        ContractError::UnauthorizedMediator
    } else {
        ContractError::ContractNotActive
    }
}

/// The record after a mediation: only the status changes.
pub open spec fn mediate_post(r: ContractView) -> ContractView {
    ContractView { status: ContractStatus::Disputed, ..r }
}

/// Allocates a new contract record.
///
/// On success the record starts `Active` with every signature slot false,
/// and the creation fee — `clamp(value * 10 / 10_000, MIN, MAX)` — is owed
/// by the creator.  The host must store the record, execute the transfer and
/// emit the event atomically; if the transfer fails, nothing is persisted.
pub fn create_contract(
    contract_id: Identity,
    creator: Identity,
    fee_recipient: Identity,
    now: i64,
    document_hash: String,
    title: String,
    parties: Vec<Identity>,
    mediator: Option<Identity>,
    expiry_timestamp: Option<i64>,
    contract_value_lamports: u64,
) -> (r: Result<CreateOutcome, ContractError>)
    ensures
        match r {
            Ok(out) => {
                &&& create_ok(document_hash@, title@, parties@)
                &&& out.record@ == created_record(
                    creator,
                    document_hash@,
                    title@,
                    parties@,
                    mediator,
                    expiry_timestamp,
                    contract_value_lamports,
                    now,
                )
                &&& out.record@.wf()
                &&& out.fee_transfer == (TransferRequest {
                    from: creator,
                    to: fee_recipient,
                    amount: spec_platform_fee(contract_value_lamports),
                })
                &&& out.event.contract_id == contract_id
                &&& out.event.creator == creator
                &&& out.event.parties@ == parties@
                &&& out.event.document_hash@ == document_hash@
                &&& out.event.title@ == title@
            },
            Err(e) => {
                &&& !create_ok(document_hash@, title@, parties@)
                &&& e == create_err(document_hash@, title@, parties@)
            },
        },
{
    if document_hash.as_str().unicode_len() > MAX_DOCUMENT_HASH_LENGTH {
        return Err(ContractError::DocumentHashTooLong);
    }
    if title.as_str().unicode_len() > MAX_TITLE_LENGTH {
        return Err(ContractError::TitleTooLong);
    }
    let n = parties.len();
    if n < MIN_PARTIES || n > MAX_PARTIES {
        return Err(ContractError::InvalidPartyCount);
    }
    let mut signatures: Vec<bool> = Vec::new();
    let mut k: usize = 0;
    while k < n
        invariant
            k <= n,
            signatures@.len() == k,
            forall|j: int| 0 <= j < k ==> !signatures@[j],
        decreases n - k,
    {
        signatures.push(false);
        k += 1;
    }
    let fee = platform_fee(contract_value_lamports);
    let record = Contract {
        creator,
        document_hash,
        title,
        parties,
        mediator,
        signatures,
        status: ContractStatus::Active,
        created_at: now,
        expiry_timestamp,
        is_fully_signed: false,
        contract_value_lamports,
        platform_fee_lamports: fee,
        party2_fee_paid: false,
    };
    let fee_transfer = TransferRequest { from: creator, to: fee_recipient, amount: fee };
    let event = ContractCreated {
        contract_id,
        creator,
        parties: record.parties.clone(),
        document_hash: record.document_hash.clone(),
        title: record.title.clone(),
    };
    proof {
        assert(record@ =~= created_record(
            creator,
            document_hash@,
            title@,
            parties@,
            mediator,
            expiry_timestamp,
            contract_value_lamports,
            now,
        ));
        assert(event.parties@ =~= parties@);
        assert(!all_signed(record@.signatures)) by {
            assert(!record@.signatures[0]);
        }
    }
    Ok(CreateOutcome { record, fee_transfer, event })
}

/// Records one party's signature.
///
/// Preconditions are checked in the documented order: the record must be
/// `Active`, within its expiry deadline, the signer must be a party, and
/// that party must not have signed yet.  If the signer is party index 1 and
/// the secondary fee is still owed, the returned transfer collects it; the
/// host must execute it atomically with the signature flip.  When the last
/// slot flips, the record completes in the same call.
pub fn sign_contract(
    record: &mut Contract,
    contract_id: Identity,
    signer: Identity,
    fee_recipient: Identity,
    now: i64,
) -> (r: Result<SignOutcome, ContractError>)
    requires
        old(record)@.wf(),
    ensures
        final(record)@.wf(),
        match r {
            Ok(out) => {
                &&& sign_ok(old(record)@, signer, now)
                &&& final(record)@ == sign_post(old(record)@, signer)
                &&& out.fee_transfer == (if sign_charges(old(record)@, signer) {
                    Some(
                        TransferRequest {
                            from: signer,
                            to: fee_recipient,
                            amount: old(record)@.platform_fee_lamports,
                        },
                    )
                } else {
                    Option::<TransferRequest>::None
                })
                &&& out.event == (ContractSigned {
                    contract_id,
                    signer,
                    party_index: first_index_of(old(record)@.parties, signer) as u8,
                    is_fully_signed: sign_post(old(record)@, signer).is_fully_signed,
                })
            },
            Err(e) => {
                &&& !sign_ok(old(record)@, signer, now)
                &&& e == sign_err(old(record)@, signer, now)
                &&& final(record)@ == old(record)@
            },
        },
{
    if record.status != ContractStatus::Active {
        return Err(ContractError::ContractNotActive);
    }
    if let Some(expiry) = record.expiry_timestamp {
        if now > expiry {
            return Err(ContractError::ContractExpired);
        }
    }
    let idx = match find_party_index(&record.parties, signer) {
        Some(i) => i,
        None => {
            return Err(ContractError::UnauthorizedSigner);
        },
    };
    if record.signatures[idx] {
        return Err(ContractError::AlreadySigned);
    }
    let mut fee_transfer: Option<TransferRequest> = None;
    if idx == 1 && !record.party2_fee_paid {
        fee_transfer = Some(
            TransferRequest { from: signer, to: fee_recipient, amount: record.platform_fee_lamports },
        );
        record.party2_fee_paid = true;
    }
    record.signatures.set(idx, true);
    if all_signed_exec(&record.signatures) {
        record.is_fully_signed = true;
        record.status = ContractStatus::Completed;
    }
    let event = ContractSigned {
        contract_id,
        signer,
        party_index: idx as u8,
        is_fully_signed: record.is_fully_signed,
    };
    proof {
        assert(record@ =~= sign_post(old(record)@, signer));
    }
    Ok(SignOutcome { fee_transfer, event })
}

/// Cancels an active contract.
///
/// Only the creator or the designated mediator may cancel, and only while
/// the record is `Active`.  Fees already collected are not refunded: the
/// operation changes the status and nothing else.
pub fn cancel_contract(record: &mut Contract, contract_id: Identity, actor: Identity) -> (r: Result<
    ContractCancelled,
    ContractError,
>)
    requires
        old(record)@.wf(),
    ensures
        final(record)@.wf(),
        match r {
            Ok(event) => {
                &&& cancel_ok(old(record)@, actor)
                &&& final(record)@ == cancel_post(old(record)@)
                &&& event == (ContractCancelled { contract_id, cancelled_by: actor })
            },
            Err(e) => {
                &&& !cancel_ok(old(record)@, actor)
                &&& e == cancel_err(old(record)@, actor)
                &&& final(record)@ == old(record)@
            },
        },
{
    let authorized = actor == record.creator || (match record.mediator {
        Some(m) => m == actor,
        None => false,
    });
    if !authorized {
        return Err(ContractError::UnauthorizedCancellation);
    }
    if record.status != ContractStatus::Active {
        return Err(ContractError::ContractNotActive);
    }
    record.status = ContractStatus::Cancelled;
    Ok(ContractCancelled { contract_id, cancelled_by: actor })
}

/// Marks an active contract disputed.
///
/// Only the designated mediator may mediate — and only if the record has
/// one — and only while the record is `Active`.  The resolution text is
/// carried in the event verbatim; the engine does not interpret it.
pub fn mediate_dispute(
    record: &mut Contract,
    contract_id: Identity,
    actor: Identity,
    resolution: String,
) -> (r: Result<DisputeMediated, ContractError>)
    requires
        old(record)@.wf(),
    ensures
        final(record)@.wf(),
        match r {
            Ok(event) => {
                &&& mediate_ok(old(record)@, actor)
                &&& final(record)@ == mediate_post(old(record)@)
                &&& event.contract_id == contract_id
                &&& event.mediator == actor
                &&& event.resolution@ == resolution@
            },
            Err(e) => {
                &&& !mediate_ok(old(record)@, actor)
                &&& e == mediate_err(old(record)@, actor)
                &&& final(record)@ == old(record)@
            },
        },
{
    let authorized = match record.mediator {
        Some(m) => m == actor,
        None => false,
    };
    if !authorized {
        return Err(ContractError::UnauthorizedMediator);
    }
    if record.status != ContractStatus::Active {
        return Err(ContractError::ContractNotActive);
    }
    record.status = ContractStatus::Disputed;
    Ok(DisputeMediated { contract_id, mediator: actor, resolution })
}

} // verus!
