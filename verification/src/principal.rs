//! The ledger's account address, used as the identity of a record's authority
//! and of the caller that submits a transition.

use anchor_lang::prelude::Pubkey;
use vstd::prelude::*;

verus! {

/// `anchor_lang::prelude::Pubkey`, the name under which `anchor_lang` hands
/// on `solana_address::Address`: a 32-byte account address. Records carry it
/// through unchanged and only ever compare it for equality, so its contents
/// stay hidden from the proofs.
#[verifier::external_type_specification]
#[verifier::external_body]
pub struct ExPubkey(anchor_lang::prelude::Pubkey);

/// Compares two addresses with `Pubkey`'s `PartialEq::eq`.
///
/// Trusted: the address type derives `PartialEq` over its single field of 32
/// bytes, so `eq` answers `true` exactly when both arguments are the same
/// address. Nothing else is assumed of the type.
#[verifier::external_body]
pub(crate) fn same_key(a: &Pubkey, b: &Pubkey) -> (same: bool)
    ensures
        same == (*a == *b),
{
    a == b
}

} // verus!
