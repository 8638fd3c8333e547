//! Paying out of a branch: pay-units are minted to a recipient and the
//! branch and its vault owe them.

use vstd::prelude::*;
use crate::address::Address;
use crate::authority::{
    bump_for, bump_of, derive_authority, found, lands_on, spec_derive, Derived, Label,
};
use crate::error::{Check, LuloError};
use crate::ledger::{resolve, Authority, LedgerCall, Reply, Seeds, Step};
use crate::records::{Account, Branch, TokenAccount, Vault};

verus! {

/// The accounts of `pay`.
#[derive(Clone, Copy, Debug, PartialEq, Eq)]
pub struct Pay {
    /// The caller, who holds the branch's capability token.
    pub signer: Address,
    /// The pay-unit mint: it sits at the address that the label `pay_mint`
    /// derives, and is its own authority.
    pub pay_mint: Address,
    /// The vault that the branch belongs to.
    pub vault: Account<Vault>,
    /// The branch that pays.
    pub branch: Account<Branch>,
    /// The caller's account for the branch's capability token.
    pub branch_nft: TokenAccount,
    /// The account that receives the pay-units.
    pub recipient: Account<TokenAccount>,
}

/// Whether the caller holds the branch's capability token: the one unit of
/// the branch's capability mint, in an account of the caller's own.
pub open spec fn holds_capability(ctx: Pay) -> bool {
    &&& ctx.branch_nft.amount == 1
    &&& ctx.branch_nft.mint == ctx.branch.data.mint
    &&& ctx.branch_nft.owner == ctx.signer
}

/// The call that mints `amount` pay-units to the recipient.
pub open spec fn pay_mint_to(ctx: Pay, amount: u64, bump: u8) -> LedgerCall {
    LedgerCall::MintTo {
        mint: ctx.pay_mint,
        to: ctx.recipient.key,
        authority: Authority::Derived {
            address: ctx.pay_mint,
            seeds: Seeds { label: Label::PayMint, parent: None, bump },
        },
        amount,
    }
}

/// The rules of `pay`, in the order in which they are held to the accounts,
/// and the call that it makes where all are met.
///
/// `authority` is what the label `pay_mint` derives.
pub open spec fn pay_check(ctx: Pay, amount: u64, authority: Option<(Seq<u8>, u8)>) -> Result<
    LedgerCall,
    LuloError,
> {
    if !ctx.branch.data.active {
        Err(LuloError::InactiveBranch)
    } else if ctx.branch.data.vault != ctx.vault.key {
        Err(LuloError::Constraint(Check::BranchVault))
    } else if ctx.branch_nft.amount != 1 {
        Err(LuloError::Constraint(Check::CapabilityAmount))
    } else if ctx.branch_nft.mint != ctx.branch.data.mint {
        Err(LuloError::Constraint(Check::CapabilityMint))
    } else if ctx.branch_nft.owner != ctx.signer {
        Err(LuloError::Constraint(Check::CapabilityOwner))
    } else if ctx.recipient.data.mint != ctx.pay_mint {
        Err(LuloError::Constraint(Check::RecipientMint))
    } else if !lands_on(authority, ctx.pay_mint) {
        Err(LuloError::Derivation(Label::PayMint))
    } else if ctx.branch.data.balance + amount > u64::MAX || ctx.vault.data.balance + amount
        > u64::MAX {
        Err(LuloError::Overflow)
    } else {
        Ok(pay_mint_to(ctx, amount, bump_of(authority)))
    }
}

/// The accounts once `amount` is paid: the branch and the vault each owe
/// `amount` more.
pub open spec fn pay_commit(ctx: Pay, amount: u64) -> Pay {
    Pay {
        vault: Account {
            key: ctx.vault.key,
            data: Vault { balance: (ctx.vault.data.balance + amount) as u64, ..ctx.vault.data },
        },
        branch: Account {
            key: ctx.branch.key,
            data: Branch { balance: (ctx.branch.data.balance + amount) as u64, ..ctx.branch.data },
        },
        ..ctx
    }
}

/// What `pay` returns and leaves in the accounts, given what the label
/// `pay_mint` derives and the ledger's reply to the minting, if it was made.
pub open spec fn pay_outcome(
    ctx: Pay,
    amount: u64,
    authority: Option<(Seq<u8>, u8)>,
    minted: Option<Reply>,
) -> (Result<Step, LuloError>, Pay) {
    let r = resolve(pay_check(ctx, amount, authority), minted);
    if r == Ok::<Step, LuloError>(Step::Done) {
        (r, pay_commit(ctx, amount))
    } else {
        (r, ctx)
    }
}

/// The minting that `pay` asks for, or the rule that the accounts break.
fn pay_call(ctx: &Pay, amount: u64, authority: Option<Derived>) -> (call: Result<
    LedgerCall,
    LuloError,
>)
    ensures
        call == pay_check(*ctx, amount, found(authority)),
{
    if !ctx.branch.data.active {
        return Err(LuloError::InactiveBranch);
    }
    if !(ctx.branch.data.vault == ctx.vault.key) {
        return Err(LuloError::Constraint(Check::BranchVault));
    }
    if ctx.branch_nft.amount != 1 {
        return Err(LuloError::Constraint(Check::CapabilityAmount));
    }
    if !(ctx.branch_nft.mint == ctx.branch.data.mint) {
        return Err(LuloError::Constraint(Check::CapabilityMint));
    }
    if !(ctx.branch_nft.owner == ctx.signer) {
        return Err(LuloError::Constraint(Check::CapabilityOwner));
    }
    if !(ctx.recipient.data.mint == ctx.pay_mint) {
        return Err(LuloError::Constraint(Check::RecipientMint));
    }
    match bump_for(authority, &ctx.pay_mint) {
        None => Err(LuloError::Derivation(Label::PayMint)),
        Some(bump) => {
            if amount > u64::MAX - ctx.branch.data.balance || amount > u64::MAX
                - ctx.vault.data.balance {
                return Err(LuloError::Overflow);
            }
            Ok(
                LedgerCall::MintTo {
                    mint: ctx.pay_mint,
                    to: ctx.recipient.key,
                    authority: Authority::Derived {
                        address: ctx.pay_mint,
                        seeds: Seeds { label: Label::PayMint, parent: None, bump },
                    },
                    amount,
                },
            )
        },
    }
}

/// One step of `pay`, with the derivation handed in.
///
/// `minted` is the ledger's reply to the minting, or `None` while that call
/// was not made. The accounts are checked first, the branch's activity before
/// anything else; then the minting is asked for; once the ledger accepted it
/// the branch and the vault each owe `amount` more. Until then, and whenever
/// the result is an error, the accounts are as they were.
pub fn pay_with_authority(
    ctx: &mut Pay,
    amount: u64,
    authority: Option<Derived>,
    minted: Option<Reply>,
) -> (r: Result<Step, LuloError>)
    ensures
        r == pay_outcome(*old(ctx), amount, found(authority), minted).0,
        *final(ctx) == pay_outcome(*old(ctx), amount, found(authority), minted).1,
        r != Ok::<Step, LuloError>(Step::Done) ==> *final(ctx) == *old(ctx),
        !old(ctx).branch.data.active ==> r == Err::<Step, LuloError>(LuloError::InactiveBranch),
        r is Ok ==> holds_capability(*old(ctx)),
{
    let call = match pay_call(ctx, amount, authority) {
        Ok(call) => call,
        Err(e) => {
            return Err(e);
        },
    };
    match minted {
        None => Ok(Step::Invoke(call)),
        Some(Err(e)) => Err(LuloError::Ledger(e)),
        Some(Ok(_)) => {
            ctx.branch.data.balance = ctx.branch.data.balance + amount;
            ctx.vault.data.balance = ctx.vault.data.balance + amount;
            Ok(Step::Done)
        },
    }
}

/// One step of paying `amount` pay-units out of a branch.
///
/// Derives the authority of the pay-unit mint under `program_id` and goes on
/// as `pay_with_authority` does. A closed branch pays nothing, whatever the
/// amount and whatever else holds: the result is `InactiveBranch` and the
/// accounts are as they were. Nobody but the holder of the branch's
/// capability token gets anything but an error.
pub fn pay(ctx: &mut Pay, amount: u64, program_id: &Address, minted: Option<Reply>) -> (r: Result<
    Step,
    LuloError,
>)
    ensures
        r == pay_outcome(
            *old(ctx),
            amount,
            spec_derive(Label::PayMint, None, *program_id),
            minted,
        ).0,
        *final(ctx) == pay_outcome(
            *old(ctx),
            amount,
            spec_derive(Label::PayMint, None, *program_id),
            minted,
        ).1,
        r != Ok::<Step, LuloError>(Step::Done) ==> *final(ctx) == *old(ctx),
        !old(ctx).branch.data.active ==> r == Err::<Step, LuloError>(LuloError::InactiveBranch),
        r is Ok ==> holds_capability(*old(ctx)),
        r matches Ok(Step::Invoke(call)) ==> call.authority().sound(*program_id),
{
    let authority = derive_authority(Label::PayMint, None, program_id);
    pay_with_authority(ctx, amount, authority, minted)
}

/// The minting that `pay` asks for, once accepted, adds exactly `amount` to
/// the recipient's account and nothing to any other.
pub proof fn lemma_pay_credits_recipient(
    ctx: Pay,
    amount: u64,
    bump: u8,
    account: Address,
    before: int,
)
    ensures
        pay_mint_to(ctx, amount, bump).balance_after(ctx.recipient.key, before) == before + amount,
        account != ctx.recipient.key ==> pay_mint_to(ctx, amount, bump).balance_after(
            account,
            before,
        ) == before,
{
}

} // verus!
