//! Setting up the global state of a deployment.

use vstd::prelude::*;
use crate::address::Address;
use crate::authority::{
    bump_for, bump_of, derive_authority, found, lands_on, spec_derive, Derived, Label,
};
use crate::error::{Check, LuloError};
use crate::records::State;

verus! {

/// The accounts of `initialize`.
#[derive(Clone, Copy, Debug, PartialEq, Eq)]
pub struct Initialize {
    /// The caller, who becomes the admin.
    pub signer: Address,
    /// The global state, or `None` while there is none yet.
    pub state: Option<State>,
    /// The pay-unit mint: it sits at the address that the label `pay_mint`
    /// derives, and is its own authority.
    pub mint: Address,
}

/// What `initialize` returns and leaves in the accounts, given what the label
/// `pay_mint` derives.
pub open spec fn initialize_outcome(ctx: Initialize, authority: Option<(Seq<u8>, u8)>) -> (
    Result<(), LuloError>,
    Initialize,
) {
    if !lands_on(authority, ctx.mint) {
        (Err(LuloError::Derivation(Label::PayMint)), ctx)
    } else if ctx.state is Some {
        (Ok(()), ctx)
    } else if ctx.signer.is_zero() {
        (Err(LuloError::Constraint(Check::SignerAddress)), ctx)
    } else {
        (
            Ok(()),
            Initialize {
                state: Some(
                    State {
                        admin: ctx.signer,
                        pay_mint: ctx.mint,
                        pay_mint_bump: bump_of(authority),
                    },
                ),
                ..ctx
            },
        )
    }
}

/// `initialize`, with the derivation handed in.
///
/// The mint must sit at the derived address. Where there is no global state
/// yet, it is created: the caller is its admin, and it records the pay-unit
/// mint and the bump of the mint's authority. Where there is one, it stays as
/// it is. A state is not created for a caller at the zero address: a stored
/// state without an admin reads as none (`State::existing`), and what was
/// created once must read as existing ever after.
pub fn initialize_with_authority(ctx: &mut Initialize, authority: Option<Derived>) -> (r: Result<
    (),
    LuloError,
>)
    ensures
        r == initialize_outcome(*old(ctx), found(authority)).0,
        *final(ctx) == initialize_outcome(*old(ctx), found(authority)).1,
        r is Err ==> *final(ctx) == *old(ctx),
        old(ctx).state is Some ==> *final(ctx) == *old(ctx),
        r is Ok && old(ctx).state is None ==> (final(ctx).state matches Some(state)
            && State::existing(state) == Some(state)),
{
    match bump_for(authority, &ctx.mint) {
        None => Err(LuloError::Derivation(Label::PayMint)),
        Some(bump) => {
            if ctx.state.is_none() {
                if ctx.signer.is_zero() {
                    return Err(LuloError::Constraint(Check::SignerAddress));
                }
                ctx.state = Some(
                    State { admin: ctx.signer, pay_mint: ctx.mint, pay_mint_bump: bump },
                );
            }
            Ok(())
        },
    }
}

/// Creates the global state of the deployment under `program_id`.
///
/// Derives the authority of the pay-unit mint and goes on as
/// `initialize_with_authority` does.
pub fn initialize(ctx: &mut Initialize, program_id: &Address) -> (r: Result<(), LuloError>)
    ensures
        r == initialize_outcome(*old(ctx), spec_derive(Label::PayMint, None, *program_id)).0,
        *final(ctx) == initialize_outcome(
            *old(ctx),
            spec_derive(Label::PayMint, None, *program_id),
        ).1,
        r is Err ==> *final(ctx) == *old(ctx),
        old(ctx).state is Some ==> *final(ctx) == *old(ctx),
        r is Ok && old(ctx).state is None ==> (final(ctx).state matches Some(state)
            && State::existing(state) == Some(state)),
{
    let authority = derive_authority(Label::PayMint, None, program_id);
    initialize_with_authority(ctx, authority)
}

} // verus!
