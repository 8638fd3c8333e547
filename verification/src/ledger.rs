//! The calls this library asks of the token ledger.
//!
//! The ledger is a service outside this library. An operation never reaches
//! it: it says which call it needs next, and is run again with the ledger's
//! reply.

use vstd::prelude::*;
use crate::address::Address;
use crate::authority::{seeds, seeds_for, spec_derive, Label};
use crate::error::{LedgerError, LuloError};

verus! {

/// The ledger's answer to one call.
pub type Reply = Result<(), LedgerError>;

/// The tuple that reproduces a derived address: proof, to the ledger, that
/// the caller may act as that address.
#[derive(Clone, Copy, Debug, PartialEq, Eq)]
pub struct Seeds {
    pub label: Label,
    pub parent: Option<Address>,
    pub bump: u8,
}

impl Seeds {
    /// The seeds that sign for the derived address: the label, the parent's
    /// bytes where there is a parent, and the bump.
    pub open spec fn spec_parts(self) -> Seq<Seq<u8>> {
        seeds_for(self.label, self.parent).push(seq![self.bump])
    }

    /// The seeds that sign for the derived address, as bytes.
    pub fn parts(&self) -> (parts: Vec<Vec<u8>>)
        ensures
            parts.deep_view() == self.spec_parts(),
    {
        let mut parts = seeds(self.label, self.parent);
        let ghost before = parts.deep_view();
        let mut last: Vec<u8> = Vec::new();
        last.push(self.bump);
        parts.push(last);
        proof {
            assert(last@ =~= seq![self.bump]);
            assert(parts.deep_view() =~~= before.push(seq![self.bump]));
        }
        parts
    }
}

/// On whose authority a call is made.
#[derive(Clone, Copy, Debug, PartialEq, Eq)]
pub enum Authority {
    /// The caller's own signature.
    Signer(Address),
    /// A derived address, with the seeds that reproduce it.
    Derived { address: Address, seeds: Seeds },
}

impl Authority {
    /// The address that the call is made as.
    pub open spec fn spec_address(&self) -> Address {
        match *self {
            Authority::Signer(signer) => signer,
            Authority::Derived { address, .. } => address,
        }
    }

    /// The address that the call is made as.
    #[verifier::when_used_as_spec(spec_address)]
    pub fn address(&self) -> (address: Address)
        ensures
            address == self.spec_address(),
    {
        match self {
            Authority::Signer(signer) => *signer,
            Authority::Derived { address, .. } => *address,
        }
    }

    /// The seeds that sign for the authority: none for a signature, which
    /// signs for itself.
    pub open spec fn spec_signer_seeds(self) -> Seq<Seq<u8>> {
        match self {
            Authority::Signer(_) => Seq::empty(),
            Authority::Derived { seeds, .. } => seeds.spec_parts(),
        }
    }

    /// The seeds that sign for the authority, as bytes.
    pub fn signer_seeds(&self) -> (parts: Vec<Vec<u8>>)
        ensures
            parts.deep_view() == self.spec_signer_seeds(),
    {
        match self {
            Authority::Signer(_) => {
                let parts: Vec<Vec<u8>> = Vec::new();
                proof {
                    assert(parts.deep_view() =~~= Seq::<Seq<u8>>::empty());
                }
                parts
            },
            Authority::Derived { seeds, .. } => seeds.parts(),
        }
    }

    /// A derived authority is sound under `program` when its seeds derive
    /// its address with its bump. A signature needs no derivation.
    pub open spec fn sound(self, program: Address) -> bool {
        match self {
            Authority::Signer(_) => true,
            Authority::Derived { address, seeds } => spec_derive(
                seeds.label,
                seeds.parent,
                program,
            ) == Some((address@, seeds.bump)),
        }
    }
}

/// One call to the token ledger.
#[derive(Clone, Copy, Debug, PartialEq, Eq)]
pub enum LedgerCall {
    /// Create `amount` units of `mint` in the account `to`.
    MintTo { mint: Address, to: Address, authority: Authority, amount: u64 },
    /// Destroy `amount` units of `mint` held in the account `from`.
    Burn { mint: Address, from: Address, authority: Authority, amount: u64 },
    /// Move `amount` units from the account `from` to the account `to`.
    Transfer { from: Address, to: Address, authority: Authority, amount: u64 },
}

impl LedgerCall {
    /// On whose authority the call is made.
    pub open spec fn spec_authority(&self) -> Authority {
        match *self {
            LedgerCall::MintTo { authority, .. } => authority,
            LedgerCall::Burn { authority, .. } => authority,
            LedgerCall::Transfer { authority, .. } => authority,
        }
    }

    /// On whose authority the call is made.
    #[verifier::when_used_as_spec(spec_authority)]
    pub fn authority(&self) -> (authority: Authority)
        ensures
            authority == self.spec_authority(),
    {
        match self {
            LedgerCall::MintTo { authority, .. } => *authority,
            LedgerCall::Burn { authority, .. } => *authority,
            LedgerCall::Transfer { authority, .. } => *authority,
        }
    }

    /// The units that the call, once accepted, adds to `account`.
    pub open spec fn credit(self, account: Address) -> int {
        match self {
            LedgerCall::MintTo { to, amount, .. } => if to == account {
                amount as int
            } else {
                0
            },
            LedgerCall::Burn { .. } => 0,
            LedgerCall::Transfer { to, amount, .. } => if to == account {
                amount as int
            } else {
                0
            },
        }
    }

    /// The units that the call, once accepted, takes from `account`.
    pub open spec fn debit(self, account: Address) -> int {
        match self {
            LedgerCall::MintTo { .. } => 0,
            LedgerCall::Burn { from, amount, .. } => if from == account {
                amount as int
            } else {
                0
            },
            LedgerCall::Transfer { from, amount, .. } => if from == account {
                amount as int
            } else {
                0
            },
        }
    }

    /// The balance of `account` after the ledger accepted the call, where it
    /// was `before`.
    pub open spec fn balance_after(self, account: Address, before: int) -> int {
        before + self.credit(account) - self.debit(account)
    }
}

/// What an operation needs next.
#[derive(Clone, Copy, Debug, PartialEq, Eq)]
pub enum Step {
    /// The ledger must make this call; run the operation again with its
    /// reply. No record has changed yet.
    Invoke(LedgerCall),
    /// Nothing: the operation is complete and the records hold its effects.
    Done,
}

/// How one ledger call decides an operation: a failed check refuses it, a
/// missing reply asks for the call, a refusal by the ledger is passed on, and
/// an accepted call completes it.
pub open spec fn resolve(check: Result<LedgerCall, LuloError>, reply: Option<Reply>) -> Result<
    Step,
    LuloError,
> {
    match check {
        Err(e) => Err(e),
        Ok(call) => match reply {
            None => Ok(Step::Invoke(call)),
            Some(Err(e)) => Err(LuloError::Ledger(e)),
            Some(Ok(_)) => Ok(Step::Done),
        },
    }
}

} // verus!
