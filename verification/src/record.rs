//! The contract record: the one piece of state the engine acts on, its
//! mathematical view, and the helpers that search the party list and the
//! signature list.

use crate::types::{ContractStatus, Identity};
use vstd::prelude::*;

verus! {

/// Longest accepted document fingerprint, in characters.
pub const MAX_DOCUMENT_HASH_LENGTH: usize = 64;

/// Longest accepted title, in characters.
pub const MAX_TITLE_LENGTH: usize = 100;

/// Fewest parties a contract may have.
pub const MIN_PARTIES: usize = 2;

/// Most parties a contract may have.
pub const MAX_PARTIES: usize = 10;

/// One agreement record.  `parties` is ordered: index 0 is the
/// creator/payer-of-record, index 1 is the party subject to the secondary
/// fee.  `signatures` is index-aligned with `parties`.  All fields but
/// `signatures`, `status`, `is_fully_signed` and `party2_fee_paid` are
/// immutable after creation.
#[derive(Clone, Debug)]
pub struct Contract {
    pub creator: Identity,
    pub document_hash: String,
    pub title: String,
    pub parties: Vec<Identity>,
    pub mediator: Option<Identity>,
    pub signatures: Vec<bool>,
    pub status: ContractStatus,
    pub created_at: i64,
    pub expiry_timestamp: Option<i64>,
    pub is_fully_signed: bool,
    pub contract_value_lamports: u64,
    pub platform_fee_lamports: u64,
    pub party2_fee_paid: bool,
}

/// The mathematical value of a [`Contract`]: the same fields, with the
/// collections replaced by sequences.
#[verifier::ext_equal]
pub ghost struct ContractView {
    pub creator: Identity,
    pub document_hash: Seq<char>,
    pub title: Seq<char>,
    pub parties: Seq<Identity>,
    pub mediator: Option<Identity>,
    pub signatures: Seq<bool>,
    pub status: ContractStatus,
    pub created_at: i64,
    pub expiry_timestamp: Option<i64>,
    pub is_fully_signed: bool,
    pub contract_value_lamports: u64,
    pub platform_fee_lamports: u64,
    pub party2_fee_paid: bool,
}

impl View for Contract {
    type V = ContractView;

    open spec fn view(&self) -> ContractView {
        ContractView {
            creator: self.creator,
            document_hash: self.document_hash@,
            title: self.title@,
            parties: self.parties@,
            mediator: self.mediator,
            signatures: self.signatures@,
            status: self.status,
            created_at: self.created_at,
            expiry_timestamp: self.expiry_timestamp,
            is_fully_signed: self.is_fully_signed,
            contract_value_lamports: self.contract_value_lamports,
            platform_fee_lamports: self.platform_fee_lamports,
            party2_fee_paid: self.party2_fee_paid,
        }
    }
}

/// True iff every entry of a signature sequence is set.
pub open spec fn all_signed(signatures: Seq<bool>) -> bool {
    forall|i: int| 0 <= i < signatures.len() ==> signatures[i]
}

/// True iff `who` appears somewhere in `parties`.
pub open spec fn has_party(parties: Seq<Identity>, who: Identity) -> bool {
    exists|i: int| 0 <= i < parties.len() && parties[i] == who
}

/// The first index at which `who` appears in `parties`, or -1 if it does not
/// appear at all.
pub open spec fn first_index_of(parties: Seq<Identity>, who: Identity) -> int
    decreases parties.len(),
{
    if parties.len() == 0 {
        -1
    } else if parties[0] == who {
        0
    } else if first_index_of(parties.subrange(1, parties.len() as int), who) < 0 {
        -1
    } else {
        1 + first_index_of(parties.subrange(1, parties.len() as int), who)
    }
}

/// `first_index_of` finds `who` exactly when `who` is present, and what it
/// finds is the first occurrence.
pub proof fn lemma_first_index_of(parties: Seq<Identity>, who: Identity)
    ensures
        has_party(parties, who) <==> 0 <= first_index_of(parties, who) < parties.len(),
        !has_party(parties, who) ==> first_index_of(parties, who) == -1,
        has_party(parties, who) ==> parties[first_index_of(parties, who)] == who,
        forall|j: int| 0 <= j < first_index_of(parties, who) ==> parties[j] != who,
    decreases parties.len(),
{
    if parties.len() == 0 {
        assert(!has_party(parties, who));
    } else if parties[0] == who {
        assert(has_party(parties, who));
    } else {
        let rest = parties.subrange(1, parties.len() as int);
        lemma_first_index_of(rest, who);
        assert(has_party(parties, who) ==> has_party(rest, who)) by {
            if has_party(parties, who) {
                let i = choose|i: int| 0 <= i < parties.len() && parties[i] == who;
                assert(rest[i - 1] == who);
            }
        }
        assert(has_party(rest, who) ==> has_party(parties, who)) by {
            if has_party(rest, who) {
                let i = choose|i: int| 0 <= i < rest.len() && rest[i] == who;
                assert(parties[i + 1] == who);
            }
        }
        let f = first_index_of(parties, who);
        if first_index_of(rest, who) >= 0 {
            assert(f == 1 + first_index_of(rest, who));
            assert forall|j: int| 0 <= j < f implies parties[j] != who by {
                if j > 0 {
                    assert(rest[j - 1] == parties[j]);
                }
            }
        }
    }
}

impl ContractView {
    /// Well-formedness: the invariant every operation establishes and
    /// preserves.  The signature list is index-aligned with the party list,
    /// the immutable length bounds hold, the fully-signed cache agrees with
    /// the signature list, and a fully signed record is `Completed`.
    pub open spec fn wf(self) -> bool {
        &&& self.signatures.len() == self.parties.len()
        &&& MIN_PARTIES <= self.parties.len() <= MAX_PARTIES
        &&& self.document_hash.len() <= MAX_DOCUMENT_HASH_LENGTH
        &&& self.title.len() <= MAX_TITLE_LENGTH
        &&& (self.is_fully_signed <==> all_signed(self.signatures))
        &&& (self.is_fully_signed ==> self.status == ContractStatus::Completed)
    }
}

/// Finds the first index of `who` in `parties`, if any.
pub fn find_party_index(parties: &Vec<Identity>, who: Identity) -> (r: Option<usize>)
    ensures
        match r {
            Some(i) => {
                &&& i == first_index_of(parties@, who)
                &&& i < parties@.len()
                &&& parties@[i as int] == who
                &&& forall|j: int| 0 <= j < i ==> parties@[j] != who
            },
            None => !has_party(parties@, who),
        },
{
    let n = parties.len();
    let mut k: usize = 0;
    while k < n
        invariant
            k <= n,
            n == parties@.len(),
            forall|j: int| 0 <= j < k ==> parties@[j] != who,
        decreases n - k,
    {
        if parties[k] == who {
            proof {
                lemma_first_index_of(parties@, who);
                assert(has_party(parties@, who));
            }
            return Some(k);
        }
        k += 1;
    }
    proof {
        assert(!has_party(parties@, who)) by {
            if has_party(parties@, who) {
                let i = choose|i: int| 0 <= i < parties@.len() && parties@[i] == who;
                assert(parties@[i] != who);
            }
        }
    }
    None
}

/// Reports whether every signature slot is set.
pub fn all_signed_exec(signatures: &Vec<bool>) -> (b: bool)
    ensures
        b == all_signed(signatures@),
{
    let n = signatures.len();
    let mut k: usize = 0;
    while k < n
        invariant
            k <= n,
            n == signatures@.len(),
            forall|j: int| 0 <= j < k ==> signatures@[j],
        decreases n - k,
    {
        if !signatures[k] {
            return false;
        }
        k += 1;
    }
    true
}

} // verus!
