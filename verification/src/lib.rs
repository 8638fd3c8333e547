//! A collateral-backed credit ledger: vaults, their branches, and the
//! pay-units minted against them.
//!
//! An administrator opens a vault and attaches branches to it. The holder of
//! a branch's capability token pays out of the branch: pay-units are minted
//! to a recipient, and the branch and its vault owe them. Pay-units are
//! settled by a swap, which burns them and pays the same number of reserve
//! units out of the controller's reserve.
//!
//! The tokens live on a ledger outside this library, and so do the records'
//! storage and the callers' signatures. An operation here takes the accounts
//! of one call as plain values and decides. Where it needs the ledger it
//! returns the call to make, as a [`Step`], and is run again with the
//! ledger's reply; it writes its records only once every call it asked for
//! was accepted. Whenever it returns an error no record has changed, and
//! what the ledger did for it is the host's to discard.
//!
//! Minting and the reserve are controlled by derived authorities, addresses
//! without a key: see [`authority`]. What a vault's records add up to over
//! any sequence of calls is proved in [`book`].

pub mod address;
pub mod authority;
pub mod book;
pub mod branch;
pub mod error;
pub mod initialize;
pub mod ledger;
pub mod pay;
pub mod records;
pub mod swap;
pub mod vault;

pub use address::Address;
pub use authority::{derive_authority, Derived, Label};
pub use branch::{
    close_branch, open_branch, open_branch_with_authority, CloseBranch, OpenBranch, Reclaim,
};
pub use error::{Check, LedgerError, LuloError};
pub use initialize::{initialize, initialize_with_authority, Initialize};
pub use ledger::{Authority, LedgerCall, Reply, Seeds, Step};
pub use pay::{pay, pay_with_authority, Pay};
pub use records::{
    Account, Branch, Collateral, CollateralPosition, Positions, State, TokenAccount, Vault,
};
pub use swap::{swap, swap_with_authorities, Swap};
pub use vault::{close_vault, open_vault, CloseVault, OpenVault};
