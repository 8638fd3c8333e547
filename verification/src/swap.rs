//! Settlement: pay-units are burned and the same number of reserve units
//! leaves the controller's reserve.

use vstd::prelude::*;
use crate::address::Address;
use crate::authority::{
    bump_for, bump_of, derive_authority, found, lands_on, spec_derive, Derived, Label,
};
use crate::error::{Check, LuloError};
use crate::ledger::{resolve, Authority, LedgerCall, Reply, Seeds, Step};
use crate::records::{Account, TokenAccount};

verus! {

/// The accounts of a settlement.
#[derive(Clone, Copy, Debug, PartialEq, Eq)]
pub struct Swap {
    /// The caller.
    pub signer: Address,
    /// The pay-unit mint.
    pub pay_mint: Address,
    /// The mint of the reserve asset.
    pub controller_mint: Address,
    /// The reserve: a token account at the controller's derived address,
    /// which is its own authority.
    pub controller: Address,
    /// The caller's pay-unit account, which is burned from.
    pub settle: Account<TokenAccount>,
    /// The account that receives the reserve units.
    pub recipient: Account<TokenAccount>,
}

/// The first call of a settlement: the caller's pay-units are burned on the
/// caller's own signature.
pub open spec fn swap_burn(ctx: Swap, amount: u64) -> LedgerCall {
    LedgerCall::Burn {
        mint: ctx.pay_mint,
        from: ctx.settle.key,
        authority: Authority::Signer(ctx.signer),
        amount,
    }
}

/// The second call of a settlement: the reserve pays the recipient, on the
/// controller's derived authority.
pub open spec fn swap_transfer(ctx: Swap, amount: u64, bump: u8) -> LedgerCall {
    LedgerCall::Transfer {
        from: ctx.controller,
        to: ctx.recipient.key,
        authority: Authority::Derived {
            address: ctx.controller,
            seeds: Seeds { label: Label::Controller, parent: Some(ctx.controller_mint), bump },
        },
        amount,
    }
}

/// The rules of a settlement, in the order in which they are held to the
/// accounts, and the two calls that it makes where all are met.
///
/// `pay_mint_authority` and `controller_authority` are what the labels
/// `pay_mint` and `controller` derive.
pub open spec fn swap_check(
    ctx: Swap,
    amount: u64,
    pay_mint_authority: Option<(Seq<u8>, u8)>,
    controller_authority: Option<(Seq<u8>, u8)>,
) -> Result<(LedgerCall, LedgerCall), LuloError> {
    if ctx.settle.data.mint != ctx.pay_mint {
        Err(LuloError::Constraint(Check::SettleMint))
    } else if ctx.settle.data.owner != ctx.signer {
        Err(LuloError::Constraint(Check::SettleOwner))
    } else if ctx.recipient.data.mint != ctx.controller_mint {
        Err(LuloError::Constraint(Check::RecipientMint))
    } else if !lands_on(pay_mint_authority, ctx.pay_mint) {
        Err(LuloError::Derivation(Label::PayMint))
    } else if !lands_on(controller_authority, ctx.controller) {
        Err(LuloError::Derivation(Label::Controller))
    } else {
        Ok((swap_burn(ctx, amount), swap_transfer(ctx, amount, bump_of(controller_authority))))
    }
}

/// What a settlement needs next, given the ledger's replies so far: first
/// the burn, then the transfer, each asked for once the calls before it were
/// accepted.
pub open spec fn swap_outcome(
    ctx: Swap,
    amount: u64,
    pay_mint_authority: Option<(Seq<u8>, u8)>,
    controller_authority: Option<(Seq<u8>, u8)>,
    burned: Option<Reply>,
    transferred: Option<Reply>,
) -> Result<Step, LuloError> {
    match swap_check(ctx, amount, pay_mint_authority, controller_authority) {
        Err(e) => Err(e),
        Ok((burn, transfer)) => match resolve(Ok(burn), burned) {
            Ok(Step::Done) => resolve(Ok(transfer), transferred),
            other => other,
        },
    }
}

/// The calls of a settlement, or the rule that the accounts break.
fn swap_calls(
    ctx: &Swap,
    amount: u64,
    pay_mint_authority: Option<Derived>,
    controller_authority: Option<Derived>,
) -> (calls: Result<(LedgerCall, LedgerCall), LuloError>)
    ensures
        calls == swap_check(*ctx, amount, found(pay_mint_authority), found(controller_authority)),
{
    if !(ctx.settle.data.mint == ctx.pay_mint) {
        return Err(LuloError::Constraint(Check::SettleMint));
    }
    if !(ctx.settle.data.owner == ctx.signer) {
        return Err(LuloError::Constraint(Check::SettleOwner));
    }
    if !(ctx.recipient.data.mint == ctx.controller_mint) {
        return Err(LuloError::Constraint(Check::RecipientMint));
    }
    if bump_for(pay_mint_authority, &ctx.pay_mint).is_none() {
        return Err(LuloError::Derivation(Label::PayMint));
    }
    match bump_for(controller_authority, &ctx.controller) {
        None => Err(LuloError::Derivation(Label::Controller)),
        Some(bump) => {
            let burn = LedgerCall::Burn {
                mint: ctx.pay_mint,
                from: ctx.settle.key,
                authority: Authority::Signer(ctx.signer),
                amount,
            };
            let transfer = LedgerCall::Transfer {
                from: ctx.controller,
                to: ctx.recipient.key,
                authority: Authority::Derived {
                    address: ctx.controller,
                    seeds: Seeds {
                        label: Label::Controller,
                        parent: Some(ctx.controller_mint),
                        bump,
                    },
                },
                amount,
            };
            Ok((burn, transfer))
        },
    }
}

/// One step of a settlement, with the two derivations handed in.
///
/// `burned` and `transferred` are the ledger's replies to the two calls, as
/// far as they were made. The accounts are checked first; then the burn is
/// asked for, then the transfer, and a refusal by the ledger is passed on as
/// it came. No record of this library is touched.
pub fn swap_with_authorities(
    ctx: &Swap,
    amount: u64,
    pay_mint_authority: Option<Derived>,
    controller_authority: Option<Derived>,
    burned: Option<Reply>,
    transferred: Option<Reply>,
) -> (r: Result<Step, LuloError>)
    ensures
        r == swap_outcome(
            *ctx,
            amount,
            found(pay_mint_authority),
            found(controller_authority),
            burned,
            transferred,
        ),
{
    let (burn, transfer) = match swap_calls(ctx, amount, pay_mint_authority, controller_authority) {
        Ok(calls) => calls,
        Err(e) => {
            return Err(e);
        },
    };
    match burned {
        None => Ok(Step::Invoke(burn)),
        Some(Err(e)) => Err(LuloError::Ledger(e)),
        Some(Ok(_)) => match transferred {
            None => Ok(Step::Invoke(transfer)),
            Some(Err(e)) => Err(LuloError::Ledger(e)),
            Some(Ok(_)) => Ok(Step::Done),
        },
    }
}

/// One step of a swap of `amount` pay-units for reserve units.
///
/// Derives the pay-unit mint's and the controller's authorities under
/// `program_id` and goes on as `swap_with_authorities` does.
pub fn swap(
    ctx: &Swap,
    amount: u64,
    program_id: &Address,
    burned: Option<Reply>,
    transferred: Option<Reply>,
) -> (r: Result<Step, LuloError>)
    ensures
        r == swap_outcome(
            *ctx,
            amount,
            spec_derive(Label::PayMint, None, *program_id),
            spec_derive(Label::Controller, Some(ctx.controller_mint), *program_id),
            burned,
            transferred,
        ),
        r matches Ok(Step::Invoke(call)) ==> call.authority().sound(*program_id),
{
    let pay_mint_authority = derive_authority(Label::PayMint, None, program_id);
    let controller_authority = derive_authority(
        Label::Controller,
        Some(ctx.controller_mint),
        program_id,
    );
    swap_with_authorities(
        ctx,
        amount,
        pay_mint_authority,
        controller_authority,
        burned,
        transferred,
    )
}

/// A swap that the ledger accepted takes exactly `amount` from the caller's
/// pay-unit account, adds exactly `amount` to the recipient's account and
/// takes exactly `amount` from the reserve, where the settlement account,
/// the recipient and the reserve are three accounts.
///
/// The swap asks for its burn first and for its transfer once the burn was
/// accepted; the balances are those that the two calls leave, whatever they
/// were before.
pub proof fn lemma_swap_conservation(
    ctx: Swap,
    amount: u64,
    pay_mint_authority: Option<(Seq<u8>, u8)>,
    controller_authority: Option<(Seq<u8>, u8)>,
    settle_before: int,
    recipient_before: int,
    reserve_before: int,
)
    requires
        swap_outcome(
            ctx,
            amount,
            pay_mint_authority,
            controller_authority,
            Some(Ok(())),
            Some(Ok(())),
        ) == Ok::<Step, LuloError>(Step::Done),
        ctx.settle.key != ctx.recipient.key,
        ctx.settle.key != ctx.controller,
        ctx.recipient.key != ctx.controller,
    ensures
        ({
            let burn = swap_burn(ctx, amount);
            let transfer = swap_transfer(ctx, amount, bump_of(controller_authority));
            &&& swap_outcome(ctx, amount, pay_mint_authority, controller_authority, None, None)
                == Ok::<Step, LuloError>(Step::Invoke(burn))
            &&& swap_outcome(
                ctx,
                amount,
                pay_mint_authority,
                controller_authority,
                Some(Ok(())),
                None,
            ) == Ok::<Step, LuloError>(Step::Invoke(transfer))
            &&& transfer.balance_after(
                ctx.settle.key,
                burn.balance_after(ctx.settle.key, settle_before),
            ) == settle_before - amount
            &&& transfer.balance_after(
                ctx.recipient.key,
                burn.balance_after(ctx.recipient.key, recipient_before),
            ) == recipient_before + amount
            &&& transfer.balance_after(
                ctx.controller,
                burn.balance_after(ctx.controller, reserve_before),
            ) == reserve_before - amount
        }),
{
}

} // verus!
