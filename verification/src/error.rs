//! Why an operation was refused.

use vstd::prelude::*;
use crate::authority::Label;

verus! {

/// The token ledger's own refusal of a call, carried as the ledger gave it.
#[derive(Clone, Copy, Debug, PartialEq, Eq, Structural)]
pub struct LedgerError {
    /// The ledger's error code.
    pub code: u64,
}

/// A rule that the accounts handed to an operation must meet.
#[derive(Clone, Copy, Debug, PartialEq, Eq, Structural)]
pub enum Check {
    /// The caller is the vault's admin.
    Admin,
    /// The caller has an address: the zero address is nobody's.
    SignerAddress,
    /// The vault sits at an address: the zero address is no vault's.
    VaultAddress,
    /// The branch belongs to the vault it is named with.
    BranchVault,
    /// The capability account holds exactly one unit.
    CapabilityAmount,
    /// The capability account is of the branch's capability mint.
    CapabilityMint,
    /// The capability account is owned by the caller.
    CapabilityOwner,
    /// The recipient account is of the asset that the operation pays out.
    RecipientMint,
    /// The settlement account is of the pay-unit mint.
    SettleMint,
    /// The settlement account is owned by the caller.
    SettleOwner,
}

/// The failure of an operation. Whatever the failure, no record has changed.
#[derive(Clone, Copy, Debug, PartialEq, Eq, Structural)]
pub enum LuloError {
    /// A payment or a closure was asked of a branch that is closed.
    InactiveBranch,
    /// A branch was to be opened in a record that is or was a branch.
    BranchExists,
    /// The accounts do not meet the named rule.
    Constraint(Check),
    /// The account that should sit at the authority derived for the label
    /// sits elsewhere, or the label derives no address.
    Derivation(Label),
    /// A balance or a count would leave the range of `u64`.
    Overflow,
    /// The token ledger refused a call.
    Ledger(LedgerError),
}

} // verus!
