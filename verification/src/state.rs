//! The escrow account's state.
use vstd::prelude::*;

verus! {

/// An account address: the 32 bytes of a public key.
pub type Address = [u8; 32];

/// The seed that every escrow address is derived from, before the maker's
/// own seed and key: the bytes of "escrow".
pub const ESCROW_SEED: [u8; 6] = [101u8, 115u8, 99u8, 114u8, 111u8, 119u8];

/// What an escrow account records when it is made.
#[derive(Clone, Copy, Debug)]
pub struct Escrow {
    /// The maker's own seed, which tells apart the escrows of one maker.
    pub seed: u64,
    /// The maker's address.
    pub maker: Address,
    /// The mint of the deposited tokens.
    pub mint_a: Address,
    /// The mint of the tokens that the maker asks for.
    pub mint_b: Address,
    /// How many tokens of mint B the maker asks for.
    pub receive: u64,
    /// The bump that makes the escrow's address a program address.
    pub bump: u8,
    /// The time (Unix seconds) from which the escrow can no longer be taken.
    pub expiry_timestamp: i64,
}

/// Whether two addresses are the same, byte for byte.
pub fn same_address(a: &Address, b: &Address) -> (r: bool)
    ensures
        r == (a@ == b@),
{
    let mut i: usize = 0;
    while i < 32
        invariant
            i <= 32,
            a@.len() == 32,
            b@.len() == 32,
            forall|j: int| 0 <= j < i ==> a@[j] == b@[j],
        decreases 32 - i,
    {
        if a[i] != b[i] {
            assert(a@[i as int] != b@[i as int]);
            return false;
        }
        i = i + 1;
    }
    assert(a@ =~= b@);
    true
}

} // verus!
