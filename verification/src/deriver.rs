use vstd::prelude::*;
use anchor_lang::prelude::Pubkey;
use crate::account::TipAccount;
use crate::error::TipError;
use crate::identity::{lemma_identity_by_bytes, Identity};

verus! {

/// The namespace tag under which tip accounts are stored: `tip_account` in ASCII.
pub const NAMESPACE_TAG: [u8; 11] = [116, 105, 112, 95, 97, 99, 99, 111, 117, 110, 116];

/// The program that owns the tip accounts,
/// `8ubPzisSkpZ7NMcgK72MZUYfx4XcTL9wh9QaBtanGpLP` in base 58.
pub const PROGRAM_ID: [u8; 32] = [
    117, 122, 231, 27, 204, 85, 123, 177, 86, 169, 4, 53, 183, 126, 168, 49,
    111, 110, 55, 169, 107, 231, 185, 6, 222, 42, 211, 161, 39, 241, 234, 136,
];

/// What `Pubkey::try_find_program_address` returns for a list of seeds and a
/// program: the derived address with its bump seed, or nothing where no bump
/// seed gives a valid address.
pub uninterp spec fn program_address(seeds: Seq<Seq<u8>>, program: Seq<u8>) -> Option<(Seq<u8>, u8)>;

/// Calls `Pubkey::try_find_program_address` with the seeds `[tag, seed]` and
/// the program whose key has the bytes `program`.
///
/// Trusted: the result is a function of the seeds and the program alone, named
/// `program_address`. The call hashes and tests bump seeds from 255 downwards;
/// it reads nothing else and does not panic.
#[verifier::external_body]
fn find_program_address(tag: &[u8], seed: &[u8; 32], program: &[u8; 32]) -> (r: Option<([u8; 32], u8)>)
    ensures
        match r {
            Some((address, bump)) => program_address(seq![tag@, seed@], program@) == Some(
                (address@, bump),
            ),
            None => program_address(seq![tag@, seed@], program@) is None,
        },
{
    let program_id = Pubkey::new_from_array(*program);
    match Pubkey::try_find_program_address(&[tag, seed], &program_id) {
        Some((address, bump)) => Some((address.to_bytes(), bump)),
        None => None,
    }
}

/// The storage address of a tipper's record, with its bump seed, as bytes.
pub open spec fn derivation(tipper: Identity) -> Option<(Seq<u8>, u8)> {
    program_address(seq![NAMESPACE_TAG@, tipper@], PROGRAM_ID@)
}

/// The storage address of a tipper's record, where there is one.
pub open spec fn derived_address(tipper: Identity) -> Option<Seq<u8>> {
    match derivation(tipper) {
        Some((address, _)) => Some(address),
        None => None,
    }
}

/// Computes where the record of `tipper` is stored, and the bump seed that
/// goes with the address.
pub fn derive(tipper: &Identity) -> (r: Option<(Identity, u8)>)
    ensures
        match r {
            Some((address, bump)) => derivation(*tipper) == Some((address@, bump)),
            None => derivation(*tipper) is None,
        },
{
    match find_program_address(NAMESPACE_TAG.as_slice(), &tipper.bytes, &PROGRAM_ID) {
        Some((bytes, bump)) => Some((Identity::new(bytes), bump)),
        None => None,
    }
}

/// The derivation goes by the tipper's bytes and nothing else: two
/// identities with the same bytes have the same address and bump seed,
/// whenever and wherever they are derived.
pub proof fn lemma_derivation_stable(a: Identity, b: Identity)
    requires
        a@ == b@,
    ensures
        derivation(a) == derivation(b),
        derived_address(a) == derived_address(b),
{
}

/// Checks the storage address that a caller supplied for the record of
/// `tipper`: `Ok` with the bump seed where it is the derived address,
/// `DerivationMismatch` where it is not.
pub fn locate(tipper: &Identity, supplied: &Identity) -> (res: Result<u8, TipError>)
    ensures
        res == match derivation(*tipper) {
            Some((address, bump)) if address == supplied@ => Ok::<u8, TipError>(bump),
            _ => Err::<u8, TipError>(TipError::DerivationMismatch),
        },
{
    let derived = derive(tipper);
    proof {
        if let Some((address, _)) = derived {
            lemma_identity_by_bytes(address, *supplied);
        }
    }
    check_address(derived, supplied)
}

/// Checks a storage address that a caller supplied against the derivation
/// made for the identity the caller claims, and hands back the bump seed.
pub fn check_address(derived: Option<(Identity, u8)>, supplied: &Identity) -> (res: Result<
    u8,
    TipError,
>)
    ensures
        res == match derived {
            Some((address, bump)) if address == *supplied => Ok::<u8, TipError>(bump),
            _ => Err::<u8, TipError>(TipError::DerivationMismatch),
        },
{
    match derived {
        Some((address, bump)) => {
            if address == *supplied {
                Ok(bump)
            } else {
                Err(TipError::DerivationMismatch)
            }
        },
        None => Err(TipError::DerivationMismatch),
    }
}

/// What a request to create a tip account is made of.
///
/// `tipper` is the caller, who pays for the storage. `address` is the storage
/// address the caller supplied, and `tip_account` is what the slot at that
/// address holds: nothing before the record is created, the record after.
#[derive(Clone, Copy, Debug, PartialEq, Eq)]
pub struct Initialize {
    pub address: Identity,
    pub tip_account: Option<TipAccount>,
    pub tipper: Identity,
    pub creator: Identity,
}

/// The record that `initialize` writes, or why it refuses, given the address
/// derived for the tipper.
///
/// The address is checked first, then the slot.
pub open spec fn initialize_result(ctx: Initialize, derived: Option<Seq<u8>>) -> Result<
    TipAccount,
    TipError,
> {
    if derived != Some(ctx.address@) {
        Err(TipError::DerivationMismatch)
    } else if ctx.tip_account is Some {
        Err(TipError::AlreadyExists)
    } else {
        Ok(TipAccount::fresh(ctx.tipper, ctx.creator))
    }
}

/// The request after `initialize` has run on it.
pub open spec fn initialize_state(ctx: Initialize, derived: Option<Seq<u8>>) -> Initialize {
    match initialize_result(ctx, derived) {
        Ok(record) => Initialize { tip_account: Some(record), ..ctx },
        Err(_) => ctx,
    }
}

/// The address part of a derivation, as bytes.
pub open spec fn address_bytes(derived: Option<(Identity, u8)>) -> Option<Seq<u8>> {
    match derived {
        Some((address, _)) => Some(address@),
        None => None,
    }
}

/// Creates the tip account of `ctx.tipper`, given the derivation made for
/// that tipper.
///
/// Refuses with `DerivationMismatch` where the supplied address is not the
/// derived one, and with `AlreadyExists` where the slot is taken. Otherwise
/// the slot holds the new record, with no tips yet. Nothing else changes, and
/// a refusal changes nothing.
pub fn initialize_at(ctx: &mut Initialize, derived: Option<(Identity, u8)>) -> (res: Result<
    (),
    TipError,
>)
    ensures
        *final(ctx) == initialize_state(*old(ctx), address_bytes(derived)),
        match initialize_result(*old(ctx), address_bytes(derived)) {
            Ok(_) => res is Ok,
            Err(e) => res == Err::<(), TipError>(e),
        },
{
    proof {
        if let Some((address, _)) = derived {
            lemma_identity_by_bytes(address, ctx.address);
        }
    }
    match check_address(derived, &ctx.address) {
        Err(e) => Err(e),
        Ok(_) => {
            if ctx.tip_account.is_some() {
                Err(TipError::AlreadyExists)
            } else {
                ctx.tip_account = Some(
                    TipAccount { tipper: ctx.tipper, creator: ctx.creator, total_tips: 0 },
                );
                Ok(())
            }
        },
    }
}

/// Creates the tip account of `ctx.tipper` at the address derived for that
/// tipper.
pub fn initialize(ctx: &mut Initialize) -> (res: Result<(), TipError>)
    ensures
        *final(ctx) == initialize_state(*old(ctx), derived_address(old(ctx).tipper)),
        match initialize_result(*old(ctx), derived_address(old(ctx).tipper)) {
            Ok(_) => res is Ok,
            Err(e) => res == Err::<(), TipError>(e),
        },
{
    let derived = derive(&ctx.tipper);
    initialize_at(ctx, derived)
}

/// A tip account is created once: after a successful `initialize`, a second
/// one for the same tipper at the same address is refused with
/// `AlreadyExists`, and leaves the record as the first wrote it.
pub proof fn lemma_initialize_once(ctx: Initialize, creator: Identity)
    requires
        initialize_result(ctx, derived_address(ctx.tipper)) is Ok,
    ensures
        ({
            let first = initialize_state(ctx, derived_address(ctx.tipper));
            let again = Initialize { creator, ..first };
            &&& first.tip_account == Some(TipAccount::fresh(ctx.tipper, ctx.creator))
            &&& initialize_result(again, derived_address(again.tipper)) == Err::<
                TipAccount,
                TipError,
            >(TipError::AlreadyExists)
            &&& initialize_state(again, derived_address(again.tipper)) == again
        }),
{
}

/// A tipper has one record: two tip accounts created for the same tipper
/// were created at the same address.
pub proof fn lemma_one_address_per_tipper(a: Initialize, b: Initialize)
    requires
        a.tipper == b.tipper,
        initialize_result(a, derived_address(a.tipper)) is Ok,
        initialize_result(b, derived_address(b.tipper)) is Ok,
    ensures
        a.address == b.address,
{
    lemma_identity_by_bytes(a.address, b.address);
}

} // verus!
