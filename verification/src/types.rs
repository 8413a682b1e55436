//! Plain value types shared by the whole engine: identities, statuses,
//! errors, and the side-effect requests handed back to the host.

use vstd::prelude::*;

verus! {

/// An authenticated identity, as the host hands it to the engine: an opaque
/// 256-bit key, split into two halves so that equality is plain structural
/// equality on integers.
#[derive(Clone, Copy, Debug, PartialEq, Eq, Structural)]
pub struct Identity {
    pub hi: u128,
    pub lo: u128,
}

impl Identity {
    pub fn new(hi: u128, lo: u128) -> (r: Identity)
        ensures
            r == (Identity { hi, lo }),
    {
        Identity { hi, lo }
    }
}

/// The lifecycle status of a contract record.  `Active` is the initial
/// status; every other status is terminal.
#[derive(Clone, Copy, Debug, PartialEq, Eq, Structural)]
pub enum ContractStatus {
    Active,
    Completed,
    Cancelled,
    Expired,
    Disputed,
}

/// The typed rejections of the four operations.  Every failure is reported as
/// one of these, and no operation that fails mutates the record.
#[derive(Clone, Copy, Debug, PartialEq, Eq, Structural)]
pub enum ContractError {
    UnauthorizedSigner,
    ContractNotActive,
    ContractExpired,
    AlreadySigned,
    DocumentHashTooLong,
    TitleTooLong,
    InvalidPartyCount,
    UnauthorizedCancellation,
    UnauthorizedMediator,
}

/// A currency transfer the host must execute atomically with the operation
/// that requested it: `amount` moves from `from` to `to`.
#[derive(Clone, Copy, Debug, PartialEq, Eq, Structural)]
pub struct TransferRequest {
    pub from: Identity,
    pub to: Identity,
    pub amount: u64,
}

/// Event emitted when a contract record is created.
#[derive(Clone, Debug)]
pub struct ContractCreated {
    pub contract_id: Identity,
    pub creator: Identity,
    pub parties: Vec<Identity>,
    pub document_hash: String,
    pub title: String,
}

/// Event emitted when a party signs.
#[derive(Clone, Copy, Debug, PartialEq, Eq, Structural)]
pub struct ContractSigned {
    pub contract_id: Identity,
    pub signer: Identity,
    pub party_index: u8,
    pub is_fully_signed: bool,
}

/// Event emitted when a contract is cancelled.
#[derive(Clone, Copy, Debug, PartialEq, Eq, Structural)]
pub struct ContractCancelled {
    pub contract_id: Identity,
    pub cancelled_by: Identity,
}

/// Event emitted when the mediator marks a contract disputed; carries the
/// resolution text verbatim.
#[derive(Clone, Debug)]
pub struct DisputeMediated {
    pub contract_id: Identity,
    pub mediator: Identity,
    pub resolution: String,
}

} // verus!
