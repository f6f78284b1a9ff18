//! The canonical derivation of a recipient's receiving account for a mint.

use vstd::prelude::*;

verus! {

/// The canonical associated token address of an owner for a mint, as the
/// associated-token program derives it: a deterministic, pure function of
/// the two addresses.
pub uninterp spec fn associated_token_address(owner: Seq<u8>, mint: Seq<u8>) -> Seq<u8>;

/// Relies on `anchor_spl::associated_token::get_associated_token_address`:
/// it derives the canonical associated token address of `owner` for `mint`
/// deterministically from the two addresses alone.
#[verifier::external_body]
pub(crate) fn derive_associated_token_address(owner: &[u8; 32], mint: &[u8; 32]) -> (r: [u8; 32])
    ensures
        r@ == associated_token_address(owner@, mint@),
{
    let owner_key = anchor_lang::prelude::Pubkey::new_from_array(*owner);
    let mint_key = anchor_lang::prelude::Pubkey::new_from_array(*mint);
    anchor_spl::associated_token::get_associated_token_address(&owner_key, &mint_key).to_bytes()
}

} // verus!
