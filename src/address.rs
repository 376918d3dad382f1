use vstd::prelude::*;

verus! {

/// The holding account that the ledger's associated-account convention
/// assigns to the wallet `owner` for the asset `asset`.
pub uninterp spec fn associated_address_of(owner: Seq<u8>, asset: Seq<u8>) -> Seq<u8>;

/// Relies on `spl_associated_token_account::get_associated_token_address`:
/// the derived address depends on the two keys alone. Its derivation panics
/// only when no bump seed yields an address, which the ledger's own
/// documentation calls statistically improbable.
#[verifier::external_body]
#[allow(deprecated)]
pub(crate) fn associated_address(owner: &[u8; 32], asset: &[u8; 32]) -> (r: [u8; 32])
    ensures
        r@ == associated_address_of(owner@, asset@),
{
    let owner = spl_token::solana_program::pubkey::Pubkey::new_from_array(*owner);
    let asset = spl_token::solana_program::pubkey::Pubkey::new_from_array(*asset);
    spl_associated_token_account::get_associated_token_address(&owner, &asset).to_bytes()
}

/// Byte-wise equality of two keys.
pub fn same_key(a: &[u8; 32], b: &[u8; 32]) -> (r: bool)
    ensures
        r == (a@ == b@),
{
    let mut i: usize = 0;
    while i < 32
        invariant
            0 <= i <= 32,
            a@.len() == 32,
            b@.len() == 32,
            forall|j: int| 0 <= j < i ==> a@[j] == b@[j],
        decreases 32 - i,
    {
        if a[i] != b[i] {
            return false;
        }
        i = i + 1;
    }
    assert(a@ =~= b@);
    true
}

} // verus!
