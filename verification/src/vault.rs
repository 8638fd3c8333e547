//! Opening and closing vaults.

use vstd::prelude::*;
use crate::address::Address;
use crate::error::LuloError;
use crate::records::{Account, Positions, Vault};

verus! {

/// The accounts of `open_vault`.
#[derive(Clone, Copy, Debug, PartialEq, Eq)]
pub struct OpenVault {
    /// The caller, who becomes the vault's admin.
    pub signer: Address,
    /// The record that becomes the vault.
    pub vault: Account<Vault>,
    /// The record that becomes the vault's positions registry.
    pub positions: Account<Positions>,
}

/// The accounts of `close_vault`: none.
#[derive(Clone, Copy, Debug, PartialEq, Eq, Structural)]
pub struct CloseVault {

}

/// The vault that `open_vault` writes: administered by the caller, without
/// debt or branches, and pointing at its registry. The authority tag is not
/// part of what is written and stays.
pub open spec fn opened_vault(ctx: OpenVault) -> Vault {
    Vault {
        admin: ctx.signer,
        bump: ctx.vault.data.bump,
        balance: 0,
        active_branches: 0,
        positions: ctx.positions.key,
    }
}

/// Opens a vault.
///
/// Writes the vault and its positions registry together: the vault belongs
/// to the caller and has neither debt nor branches, and the registry belongs
/// to the vault and is empty. It cannot fail.
pub fn open_vault(ctx: &mut OpenVault) -> (r: Result<(), LuloError>)
    ensures
        r == Ok::<(), LuloError>(()),
        final(ctx).signer == old(ctx).signer,
        final(ctx).vault.key == old(ctx).vault.key,
        final(ctx).positions.key == old(ctx).positions.key,
        final(ctx).vault.data == opened_vault(*old(ctx)),
        final(ctx).positions.data.vault == old(ctx).vault.key,
        final(ctx).positions.data.is_empty(),
        final(ctx).positions.data.wf(),
{
    let zero = Address::default();
    ctx.positions.data = Positions { vault: ctx.vault.key, num_positions: 0, positions: [zero;5] };
    ctx.vault.data.admin = ctx.signer;
    ctx.vault.data.balance = 0;
    ctx.vault.data.positions = ctx.positions.key;
    ctx.vault.data.active_branches = 0;
    Ok(())
}

/// Closes a vault. It asks nothing of the vault and changes nothing.
pub fn close_vault(ctx: &CloseVault) -> (r: Result<(), LuloError>)
    ensures
        r == Ok::<(), LuloError>(()),
{
    Ok(())
}

} // verus!
