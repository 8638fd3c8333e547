//! Opening and closing the branches of a vault.

use vstd::prelude::*;
use crate::address::Address;
use crate::authority::{
    bump_for, bump_of, derive_authority, found, lands_on, spec_derive, Derived, Label,
};
use crate::error::{Check, LuloError};
use crate::ledger::{resolve, Authority, LedgerCall, Reply, Seeds, Step};
use crate::records::{Account, Branch, TokenAccount, Vault};

verus! {

/// The accounts of `open_branch`.
#[derive(Clone, Copy, Debug, PartialEq, Eq)]
pub struct OpenBranch {
    /// The caller, who must be the vault's admin.
    pub signer: Address,
    /// The vault that gets the branch.
    pub vault: Account<Vault>,
    /// The record that becomes the branch. It must be blank: a record is a
    /// branch once, from its opening on.
    pub branch: Account<Branch>,
    /// The mint of the branch's capability token: it sits at the address
    /// that the label `mint` derives for the branch, and is its own authority.
    pub mint: Address,
    /// The caller's account for the capability token.
    pub mint_account: Account<TokenAccount>,
}

/// The call that mints the one capability token of a new branch.
pub open spec fn capability_mint(ctx: OpenBranch, bump: u8) -> LedgerCall {
    LedgerCall::MintTo {
        mint: ctx.mint,
        to: ctx.mint_account.key,
        authority: Authority::Derived {
            address: ctx.mint,
            seeds: Seeds { label: Label::Mint, parent: Some(ctx.branch.key), bump },
        },
        amount: 1,
    }
}

/// The rules of `open_branch`, in the order in which they are held to the
/// accounts, and the call that it makes where all are met.
///
/// `authority` is what the label `mint` derives for the branch. The record
/// must be blank, so that no branch is opened twice; and the vault must sit
/// at an address, so that the branch, which names its vault, is never taken
/// for a blank record afterwards.
pub open spec fn open_branch_check(ctx: OpenBranch, authority: Option<(Seq<u8>, u8)>) -> Result<
    LedgerCall,
    LuloError,
> {
    if ctx.vault.data.admin != ctx.signer {
        Err(LuloError::Constraint(Check::Admin))
    } else if !ctx.branch.data.is_blank() {
        Err(LuloError::BranchExists)
    } else if ctx.vault.key.is_zero() {
        Err(LuloError::Constraint(Check::VaultAddress))
    } else if ctx.mint_account.data.mint != ctx.mint {
        Err(LuloError::Constraint(Check::CapabilityMint))
    } else if ctx.mint_account.data.owner != ctx.signer {
        Err(LuloError::Constraint(Check::CapabilityOwner))
    } else if !lands_on(authority, ctx.mint) {
        Err(LuloError::Derivation(Label::Mint))
    } else if ctx.vault.data.active_branches == u64::MAX {
        Err(LuloError::Overflow)
    } else {
        Ok(capability_mint(ctx, bump_of(authority)))
    }
}

/// The accounts once the branch is open: the record is an active branch of
/// the vault with no debt, and the vault counts one branch more.
pub open spec fn open_branch_commit(ctx: OpenBranch) -> OpenBranch {
    OpenBranch {
        vault: Account {
            key: ctx.vault.key,
            data: Vault {
                active_branches: (ctx.vault.data.active_branches + 1) as u64,
                ..ctx.vault.data
            },
        },
        branch: Account {
            key: ctx.branch.key,
            data: Branch { active: true, vault: ctx.vault.key, mint: ctx.mint, balance: 0 },
        },
        ..ctx
    }
}

/// What `open_branch` returns and leaves in the accounts, given what the
/// label `mint` derives and the ledger's reply to the minting, if it was made.
pub open spec fn open_branch_outcome(
    ctx: OpenBranch,
    authority: Option<(Seq<u8>, u8)>,
    minted: Option<Reply>,
) -> (Result<Step, LuloError>, OpenBranch) {
    let r = resolve(open_branch_check(ctx, authority), minted);
    if r == Ok::<Step, LuloError>(Step::Done) {
        (r, open_branch_commit(ctx))
    } else {
        (r, ctx)
    }
}

/// The minting that `open_branch` asks for, or the rule that the accounts
/// break.
fn open_branch_call(ctx: &OpenBranch, authority: Option<Derived>) -> (call: Result<
    LedgerCall,
    LuloError,
>)
    ensures
        call == open_branch_check(*ctx, found(authority)),
{
    if !(ctx.vault.data.admin == ctx.signer) {
        return Err(LuloError::Constraint(Check::Admin));
    }
    if !ctx.branch.data.is_blank() {
        return Err(LuloError::BranchExists);
    }
    if ctx.vault.key.is_zero() {
        return Err(LuloError::Constraint(Check::VaultAddress));
    }
    if !(ctx.mint_account.data.mint == ctx.mint) {
        return Err(LuloError::Constraint(Check::CapabilityMint));
    }
    if !(ctx.mint_account.data.owner == ctx.signer) {
        return Err(LuloError::Constraint(Check::CapabilityOwner));
    }
    match bump_for(authority, &ctx.mint) {
        None => Err(LuloError::Derivation(Label::Mint)),
        Some(bump) => {
            if ctx.vault.data.active_branches == u64::MAX {
                return Err(LuloError::Overflow);
            }
            Ok(
                LedgerCall::MintTo {
                    mint: ctx.mint,
                    to: ctx.mint_account.key,
                    authority: Authority::Derived {
                        address: ctx.mint,
                        seeds: Seeds { label: Label::Mint, parent: Some(ctx.branch.key), bump },
                    },
                    amount: 1,
                },
            )
        },
    }
}

/// One step of `open_branch`, with the derivation handed in.
///
/// `minted` is the ledger's reply to the minting of the capability token, or
/// `None` while that call was not made. The accounts are checked first; then
/// the minting is asked for; once the ledger accepted it the branch is
/// written and the vault counts it. Until then, and whenever the result is
/// an error, the accounts are as they were. A record that is or was a branch
/// is refused: nothing is opened twice and nothing closed is opened again.
pub fn open_branch_with_authority(
    ctx: &mut OpenBranch,
    authority: Option<Derived>,
    minted: Option<Reply>,
) -> (r: Result<Step, LuloError>)
    ensures
        r == open_branch_outcome(*old(ctx), found(authority), minted).0,
        *final(ctx) == open_branch_outcome(*old(ctx), found(authority), minted).1,
        r != Ok::<Step, LuloError>(Step::Done) ==> *final(ctx) == *old(ctx),
        r is Ok ==> old(ctx).vault.data.admin == old(ctx).signer,
        !old(ctx).branch.data.is_blank() ==> r is Err,
        r == Ok::<Step, LuloError>(Step::Done) ==> final(ctx).branch.data.active
            && !final(ctx).branch.data.is_blank(),
{
    let call = match open_branch_call(ctx, authority) {
        Ok(call) => call,
        Err(e) => {
            return Err(e);
        },
    };
    match minted {
        None => Ok(Step::Invoke(call)),
        Some(Err(e)) => Err(LuloError::Ledger(e)),
        Some(Ok(_)) => {
            ctx.branch.data = Branch {
                active: true,
                vault: ctx.vault.key,
                mint: ctx.mint,
                balance: 0,
            };
            ctx.vault.data.active_branches = ctx.vault.data.active_branches + 1;
            Ok(Step::Done)
        },
    }
}

/// One step of opening a branch under a vault.
///
/// Derives the authority of the branch's capability mint under `program_id`
/// and goes on as `open_branch_with_authority` does.
pub fn open_branch(ctx: &mut OpenBranch, program_id: &Address, minted: Option<Reply>) -> (r: Result<
    Step,
    LuloError,
>)
    ensures
        r == open_branch_outcome(
            *old(ctx),
            spec_derive(Label::Mint, Some(old(ctx).branch.key), *program_id),
            minted,
        ).0,
        *final(ctx) == open_branch_outcome(
            *old(ctx),
            spec_derive(Label::Mint, Some(old(ctx).branch.key), *program_id),
            minted,
        ).1,
        r != Ok::<Step, LuloError>(Step::Done) ==> *final(ctx) == *old(ctx),
        r is Ok ==> old(ctx).vault.data.admin == old(ctx).signer,
        !old(ctx).branch.data.is_blank() ==> r is Err,
        r == Ok::<Step, LuloError>(Step::Done) ==> final(ctx).branch.data.active
            && !final(ctx).branch.data.is_blank(),
        r matches Ok(Step::Invoke(call)) ==> call.authority().sound(*program_id),
{
    let authority = derive_authority(Label::Mint, Some(ctx.branch.key), program_id);
    open_branch_with_authority(ctx, authority, minted)
}

/// The accounts of `close_branch`.
#[derive(Clone, Copy, Debug, PartialEq, Eq)]
pub struct CloseBranch {
    /// The caller, who must be the vault's admin.
    pub signer: Address,
    /// The vault that the branch belongs to.
    pub vault: Account<Vault>,
    /// The branch to close.
    pub branch: Account<Branch>,
}

/// A record that is no longer needed: the host destroys it and returns the
/// cost of its storage.
#[derive(Clone, Copy, Debug, PartialEq, Eq)]
pub struct Reclaim {
    /// The address of the record to destroy.
    pub record: Address,
    /// Who gets the cost of its storage back.
    pub refund_to: Address,
}

/// The rules of `close_branch`, in the order in which they are held to the
/// accounts, and what is reclaimed where all are met.
pub open spec fn close_branch_check(ctx: CloseBranch) -> Result<Reclaim, LuloError> {
    if ctx.vault.data.admin != ctx.signer {
        Err(LuloError::Constraint(Check::Admin))
    } else if ctx.branch.data.vault != ctx.vault.key {
        Err(LuloError::Constraint(Check::BranchVault))
    } else if !ctx.branch.data.active {
        Err(LuloError::InactiveBranch)
    } else if ctx.vault.data.active_branches == 0 {
        Err(LuloError::Overflow)
    } else {
        Ok(Reclaim { record: ctx.branch.key, refund_to: ctx.signer })
    }
}

/// The accounts once the branch is closed: the branch is inactive and the
/// vault counts one branch less. The debt of the branch stays in the vault's
/// balance.
pub open spec fn close_branch_commit(ctx: CloseBranch) -> CloseBranch {
    CloseBranch {
        vault: Account {
            key: ctx.vault.key,
            data: Vault {
                active_branches: (ctx.vault.data.active_branches - 1) as u64,
                ..ctx.vault.data
            },
        },
        branch: Account { key: ctx.branch.key, data: Branch { active: false, ..ctx.branch.data } },
        ..ctx
    }
}

/// What `close_branch` returns and leaves in the accounts.
pub open spec fn close_branch_outcome(ctx: CloseBranch) -> (
    Result<Reclaim, LuloError>,
    CloseBranch,
) {
    let r = close_branch_check(ctx);
    if r is Ok {
        (r, close_branch_commit(ctx))
    } else {
        (r, ctx)
    }
}

/// Closes a branch.
///
/// The caller must be the vault's admin, and the branch must belong to the
/// vault and be active: a branch is closed once. The branch becomes inactive
/// and the vault counts one branch less;
/// the result names the branch's record, which is to be destroyed, and the
/// caller, who gets its storage cost back. On an error the accounts are as
/// they were.
pub fn close_branch(ctx: &mut CloseBranch) -> (r: Result<Reclaim, LuloError>)
    ensures
        r == close_branch_outcome(*old(ctx)).0,
        *final(ctx) == close_branch_outcome(*old(ctx)).1,
        r is Err ==> *final(ctx) == *old(ctx),
        r is Ok ==> old(ctx).vault.data.admin == old(ctx).signer,
        !old(ctx).branch.data.active ==> r is Err,
        r is Ok ==> !final(ctx).branch.data.active,
{
    if !(ctx.vault.data.admin == ctx.signer) {
        return Err(LuloError::Constraint(Check::Admin));
    }
    if !(ctx.branch.data.vault == ctx.vault.key) {
        return Err(LuloError::Constraint(Check::BranchVault));
    }
    if !ctx.branch.data.active {
        return Err(LuloError::InactiveBranch);
    }
    if ctx.vault.data.active_branches == 0 {
        return Err(LuloError::Overflow);
    }
    ctx.branch.data.active = false;
    ctx.vault.data.active_branches = ctx.vault.data.active_branches - 1;
    Ok(Reclaim { record: ctx.branch.key, refund_to: ctx.signer })
}

} // verus!
