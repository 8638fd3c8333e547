//! The records that this library keeps: vaults, branches, positions and the
//! global state; and what it reads of a token account.

use vstd::prelude::*;
use crate::address::Address;

verus! {

/// How many collateral positions a registry holds at most.
pub const MAX_POSITIONS: u64 = 5;

/// A record together with the address it is kept at.
#[derive(Debug, PartialEq, Eq)]
pub struct Account<T> {
    pub key: Address,
    pub data: T,
}

impl<T: Copy> Clone for Account<T> {
    fn clone(&self) -> (copy: Account<T>)
        ensures
            copy == *self,
    {
        *self
    }
}

impl<T: Copy> Copy for Account<T> {

}

/// A vault: the debt of all its branches and how many of them are open.
#[derive(Clone, Copy, Debug, PartialEq, Eq)]
pub struct Vault {
    /// Who administers the vault.
    pub admin: Address,
    /// The authority tag of the vault.
    pub bump: u8,
    /// The debt ever paid out through the vault's branches.
    pub balance: u64,
    /// How many branches of the vault are open.
    pub active_branches: u64,
    /// Where the vault's positions registry is kept.
    pub positions: Address,
}

/// The collateral positions of a vault: at most five references.
#[derive(Clone, Copy, Debug, PartialEq, Eq)]
pub struct Positions {
    pub vault: Address,
    pub num_positions: u64,
    pub positions: [Address; 5],
}

impl Positions {
    /// A registry never counts more positions than it has room for.
    pub open spec fn wf(&self) -> bool {
        self.num_positions <= MAX_POSITIONS
    }

    /// A registry that holds nothing: no position is counted and every slot
    /// is the zero address.
    pub open spec fn is_empty(&self) -> bool {
        &&& self.num_positions == 0
        &&& forall|i: int| 0 <= i < 5 ==> (#[trigger] self.positions[i]).is_zero()
    }
}

/// An amount of one asset held as collateral.
#[derive(Clone, Copy, Debug, PartialEq, Eq)]
pub struct CollateralPosition {
    pub amount: u64,
    pub mint: Address,
}

/// A minting line of a vault.
#[derive(Clone, Copy, Debug, PartialEq, Eq)]
pub struct Branch {
    /// Whether the branch may still pay out.
    pub active: bool,
    /// The vault that the branch belongs to.
    pub vault: Address,
    /// The mint of the branch's capability token.
    pub mint: Address,
    /// The debt paid out through the branch.
    pub balance: u64,
}

impl Branch {
    /// Whether the record was never a branch: it is inactive, names no vault
    /// and no mint, and owes nothing. A record that `open_branch` has written
    /// names its vault, and is never blank again.
    pub open spec fn spec_is_blank(&self) -> bool {
        &&& !self.active
        &&& self.vault.is_zero()
        &&& self.mint.is_zero()
        &&& self.balance == 0
    }

    /// Whether the record was never a branch.
    #[verifier::when_used_as_spec(spec_is_blank)]
    pub fn is_blank(&self) -> (blank: bool)
        ensures
            blank == self.spec_is_blank(),
    {
        !self.active && self.vault.is_zero() && self.mint.is_zero() && self.balance == 0
    }
}

/// The risk parameters of one accepted collateral asset.
#[derive(Clone, Copy, Debug, PartialEq, Eq)]
pub struct Collateral {
    pub initialized: bool,
    pub mint: Address,
    pub fee: u64,
    pub equity_value: u64,
}

/// The global state: one per deployment.
#[derive(Clone, Copy, Debug, PartialEq, Eq)]
pub struct State {
    /// Who initialized the deployment.
    pub admin: Address,
    /// The pay-unit mint.
    pub pay_mint: Address,
    /// The bump of the pay-unit mint's derived authority.
    pub pay_mint_bump: u8,
}

impl State {
    /// The global state that a stored record holds: none while the record
    /// names no admin, and the record itself once it does.
    pub open spec fn spec_existing(stored: State) -> Option<State> {
        if stored.admin.is_zero() {
            None
        } else {
            Some(stored)
        }
    }

    /// The global state that a stored record holds, or `None` while the
    /// record is still blank. `initialize` writes the caller as admin and
    /// refuses a caller at the zero address, so a state that it has created
    /// is always read as existing.
    #[verifier::when_used_as_spec(spec_existing)]
    pub fn existing(stored: State) -> (state: Option<State>)
        ensures
            state == State::spec_existing(stored),
    {
        if stored.admin.is_zero() {
            None
        } else {
            Some(stored)
        }
    }
}

/// What this library reads of a token account.
#[derive(Clone, Copy, Debug, PartialEq, Eq)]
pub struct TokenAccount {
    /// The asset that the account holds.
    pub mint: Address,
    /// Who owns the account.
    pub owner: Address,
    /// How many units it holds.
    pub amount: u64,
}

impl Default for Positions {
    fn default() -> (p: Positions)
        ensures
            p.vault.is_zero(),
            p.is_empty(),
            p.wf(),
    {
        let zero = Address::default();
        Positions { vault: zero, num_positions: 0, positions: [zero;5] }
    }
}

impl Default for CollateralPosition {
    fn default() -> (p: CollateralPosition)
        ensures
            p.amount == 0,
            p.mint.is_zero(),
    {
        CollateralPosition { amount: 0, mint: Address::default() }
    }
}

impl Default for Branch {
    fn default() -> (b: Branch)
        ensures
            b.is_blank(),
    {
        Branch { active: false, vault: Address::default(), mint: Address::default(), balance: 0 }
    }
}

impl Default for Collateral {
    fn default() -> (c: Collateral)
        ensures
            !c.initialized,
            c.mint.is_zero(),
            c.fee == 0,
            c.equity_value == 0,
    {
        Collateral { initialized: false, mint: Address::default(), fee: 0, equity_value: 0 }
    }
}

} // verus!
