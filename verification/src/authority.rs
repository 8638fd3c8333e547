//! Derived authorities: addresses that no key signs for, computed from a
//! label and the identity of the thing they control.
//!
//! A derived address comes with a one-byte bump. Whoever knows the label, the
//! parent and the bump can reproduce the address, and that tuple is what the
//! token ledger accepts in place of a signature.

use vstd::prelude::*;
use anchor_lang::solana_program::pubkey::Pubkey;
use crate::address::Address;

verus! {

/// The namespace of a derived authority.
#[derive(Clone, Copy, Debug, PartialEq, Eq, Structural)]
pub enum Label {
    /// The authority of the pay-unit mint. It has no parent.
    PayMint,
    /// The authority of a branch's capability mint. Its parent is the branch.
    Mint,
    /// The authority of the settlement reserve. Its parent is the reserve's mint.
    Controller,
}

impl Label {
    /// The bytes of the label: `pay_mint`, `mint` or `controller` in ASCII.
    pub open spec fn spec_seed(self) -> Seq<u8> {
        match self {
            Label::PayMint => seq![112u8, 97u8, 121u8, 95u8, 109u8, 105u8, 110u8, 116u8],
            Label::Mint => seq![109u8, 105u8, 110u8, 116u8],
            Label::Controller => seq![
                99u8,
                111u8,
                110u8,
                116u8,
                114u8,
                111u8,
                108u8,
                108u8,
                101u8,
                114u8,
            ],
        }
    }

    /// The bytes of the label.
    pub fn seed(&self) -> (bytes: Vec<u8>)
        ensures
            bytes@ == self.spec_seed(),
    {
        match self {
            Label::PayMint => vec![112u8, 97u8, 121u8, 95u8, 109u8, 105u8, 110u8, 116u8],
            Label::Mint => vec![109u8, 105u8, 110u8, 116u8],
            Label::Controller => vec![
                99u8,
                111u8,
                110u8,
                116u8,
                114u8,
                111u8,
                108u8,
                108u8,
                101u8,
                114u8,
            ],
        }
    }
}

/// The seeds an authority is derived from: the label, then the parent's bytes
/// where there is a parent.
pub open spec fn seeds_for(label: Label, parent: Option<Address>) -> Seq<Seq<u8>> {
    match parent {
        Some(p) => seq![label.spec_seed(), p@],
        None => seq![label.spec_seed()],
    }
}

/// The address and bump that the seeds derive under a program, or `None`
/// where they derive nothing.
pub uninterp spec fn program_address(seeds: Seq<Seq<u8>>, program: Seq<u8>) -> Option<
    (Seq<u8>, u8),
>;

/// What `label` and `parent` derive under `program`.
pub open spec fn spec_derive(label: Label, parent: Option<Address>, program: Address) -> Option<
    (Seq<u8>, u8),
> {
    program_address(seeds_for(label, parent), program@)
}

/// A derived address with the bump that reproduces it.
#[derive(Clone, Copy, Debug, PartialEq, Eq)]
pub struct Derived {
    pub address: Address,
    pub bump: u8,
}

impl View for Derived {
    type V = (Seq<u8>, u8);

    open spec fn view(&self) -> (Seq<u8>, u8) {
        (self.address@, self.bump)
    }
}

/// The outcome of a derivation, by view.
pub open spec fn found(outcome: Option<Derived>) -> Option<(Seq<u8>, u8)> {
    match outcome {
        Some(d) => Some(d@),
        None => None,
    }
}

/// Whether a derivation found the given address.
pub open spec fn lands_on(outcome: Option<(Seq<u8>, u8)>, address: Address) -> bool {
    outcome matches Some(d) && d.0 == address@
}

/// The bump that a derivation found; 0 where it found nothing.
pub open spec fn bump_of(outcome: Option<(Seq<u8>, u8)>) -> u8 {
    match outcome {
        Some(d) => d.1,
        None => 0,
    }
}

/// Calls `Pubkey::try_find_program_address`.
///
/// The search hashes the seeds with one more seed, the bump, counting down
/// from 255, and stops at the first address that lies off the curve. It reads
/// nothing but its arguments, so what it finds is a function of them; that
/// function is `program_address`. Not proved: the body is the outside call.
#[verifier::external_body]
fn try_find_program_address(seeds: &Vec<Vec<u8>>, program: &Address) -> (outcome: Option<Derived>)
    ensures
        found(outcome) == program_address(seeds.deep_view(), program@),
{
    let parts: Vec<&[u8]> = seeds.iter().map(|s| s.as_slice()).collect();
    let id = Pubkey::new_from_array(program.bytes);
    Pubkey::try_find_program_address(&parts, &id).map(
        |(key, bump)| Derived { address: Address { bytes: key.to_bytes() }, bump },
    )
}

/// The seeds of `label` and `parent`, as bytes.
pub fn seeds(label: Label, parent: Option<Address>) -> (parts: Vec<Vec<u8>>)
    ensures
        parts.deep_view() == seeds_for(label, parent),
{
    let mut parts: Vec<Vec<u8>> = Vec::new();
    parts.push(label.seed());
    match parent {
        Some(p) => {
            parts.push(p.to_vec());
        },
        None => {},
    }
    proof {
        assert(parts.deep_view() =~~= seeds_for(label, parent));
    }
    parts
}

/// Derives the authority that `label` names for `parent` under `program`.
///
/// Returns the address and its bump, or `None` where the seeds derive no
/// address. The outcome depends on the three arguments alone.
pub fn derive_authority(label: Label, parent: Option<Address>, program: &Address) -> (outcome:
    Option<Derived>)
    ensures
        found(outcome) == spec_derive(label, parent, *program),
{
    let parts = seeds(label, parent);
    try_find_program_address(&parts, program)
}

/// The bump of a derivation that found `address`; `None` where it found
/// another address or none.
pub fn bump_for(authority: Option<Derived>, address: &Address) -> (bump: Option<u8>)
    ensures
        bump matches Some(b) ==> found(authority) == Some((address@, b)),
        bump is None ==> !lands_on(found(authority), *address),
{
    match authority {
        Some(d) => {
            proof {
                Address::lemma_view_injective(d.address, *address);
            }
            if d.address == *address {
                Some(d.bump)
            } else {
                None
            }
        },
        None => None,
    }
}

/// Deriving twice from the same label, parent and program gives the same
/// address and the same bump.
pub proof fn lemma_derivation_deterministic(
    label: Label,
    parent: Option<Address>,
    program: Address,
    first: Option<Derived>,
    second: Option<Derived>,
)
    requires
        found(first) == spec_derive(label, parent, program),
        found(second) == spec_derive(label, parent, program),
    ensures
        first == second,
{
    if let Some(a) = first {
        let b = second->0;
        Address::lemma_view_injective(a.address, b.address);
    }
}

} // verus!
