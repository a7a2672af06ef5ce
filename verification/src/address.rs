//! Escrow addresses: the seeds they are derived from, and the program
//! address derivation that turns seeds into an address.
use vstd::prelude::*;
use vstd::bytes::spec_u64_to_le_bytes;
use anchor_lang::prelude::Pubkey;
use crate::error::InstructionError;
use crate::state::{same_address, Address, Escrow, ESCROW_SEED};

verus! {

/// The most seeds that a program address may be derived from.
pub const MAX_SEEDS: usize = 16;

/// The longest seed that a program address may be derived from.
pub const MAX_SEED_LEN: usize = 32;

/// The program address that `seeds` and `program_id` give, if any: the result
/// of `Pubkey::create_program_address` on them.
pub uninterp spec fn program_address(seeds: Seq<Seq<u8>>, program_id: Seq<u8>) -> Option<Seq<u8>>;

/// Whether no more than `MAX_SEEDS` seeds are given and none is longer than
/// `MAX_SEED_LEN`.
pub open spec fn seeds_within_limits(seeds: Seq<Seq<u8>>) -> bool {
    &&& seeds.len() <= MAX_SEEDS
    &&& forall|i: int| 0 <= i < seeds.len() ==> #[trigger] seeds[i].len() <= MAX_SEED_LEN
}

/// The seeds of the escrow that `maker` makes with its own `seed`.
pub open spec fn escrow_seeds_of(seed: u64, maker: Seq<u8>) -> Seq<Seq<u8>> {
    seq![ESCROW_SEED@, spec_u64_to_le_bytes(seed), maker]
}

/// The seeds with which an escrow account signs: its derivation seeds and its
/// bump.
pub open spec fn signer_seeds_of(escrow: Escrow) -> Seq<Seq<u8>> {
    escrow_seeds_of(escrow.seed, escrow.maker@).push(seq![escrow.bump])
}

/// Calls `Pubkey::create_program_address`: the address that the seeds and the
/// program id hash to, unless that hash is a point of the curve, or the seeds
/// break the limits on their number and length (both give `None`).
#[verifier::external_body]
fn create_program_address(seeds: &Vec<Vec<u8>>, program_id: &Address) -> (res: Option<Address>)
    ensures
        res is Some <==> program_address(seeds.deep_view(), program_id@) is Some,
        res matches Some(a) ==> program_address(seeds.deep_view(), program_id@) == Some(a@),
        !seeds_within_limits(seeds.deep_view()) ==> res is None,
{
    let slices: Vec<&[u8]> = seeds.iter().map(|s| s.as_slice()).collect();
    Pubkey::create_program_address(&slices, &Pubkey::new_from_array(*program_id))
        .ok()
        .map(|a| a.to_bytes())
}

/// Calls `Pubkey::try_find_program_address`: it tries the bumps from 255 down
/// to 1, each appended to the seeds as a seed of one byte, and gives the first
/// program address found with its bump. It gives `None` where the seeds are
/// `MAX_SEEDS` or more, where a seed is longer than `MAX_SEED_LEN`, or where no
/// bump gives an address.
#[verifier::external_body]
fn try_find_program_address(seeds: &Vec<Vec<u8>>, program_id: &Address) -> (res: Option<(Address, u8)>)
    ensures
        res matches Some((a, b)) ==> {
            &&& 1 <= b
            &&& program_address(seeds.deep_view().push(seq![b]), program_id@) == Some(a@)
            &&& forall|c: u8| b < c ==>
                (#[trigger] program_address(seeds.deep_view().push(seq![c]), program_id@)) is None
        },
        res is None <==> {
            ||| seeds.deep_view().len() >= MAX_SEEDS
            ||| exists|i: int| 0 <= i < seeds.deep_view().len() && #[trigger] seeds.deep_view()[i].len() > MAX_SEED_LEN
            ||| forall|c: u8| 1 <= c ==>
                (#[trigger] program_address(seeds.deep_view().push(seq![c]), program_id@)) is None
        },
{
    let slices: Vec<&[u8]> = seeds.iter().map(|s| s.as_slice()).collect();
    Pubkey::try_find_program_address(&slices, &Pubkey::new_from_array(*program_id))
        .map(|(a, b)| (a.to_bytes(), b))
}

/// The seeds of the escrow that `maker` makes with its own `seed`: the bytes
/// of "escrow", the seed's eight bytes in little-endian order, and the maker's
/// address.
pub fn escrow_seeds(seed: u64, maker: &Address) -> (seeds: Vec<Vec<u8>>)
    ensures
        seeds.deep_view() == escrow_seeds_of(seed, maker@),
{
    let mut seeds: Vec<Vec<u8>> = Vec::new();
    seeds.push(vstd::slice::slice_to_vec(&ESCROW_SEED));
    seeds.push(vstd::bytes::u64_to_le_bytes(seed));
    seeds.push(vstd::slice::slice_to_vec(maker));
    proof {
        assert(seeds@[0].deep_view() =~= ESCROW_SEED@);
        assert(seeds@[1].deep_view() =~= spec_u64_to_le_bytes(seed));
        assert(seeds@[2].deep_view() =~= maker@);
        assert(seeds.deep_view() =~= escrow_seeds_of(seed, maker@));
    }
    seeds
}

/// The seeds with which the escrow account signs: its derivation seeds
/// followed by its bump as a seed of one byte.
pub fn signer_seeds(escrow: &Escrow) -> (seeds: Vec<Vec<u8>>)
    ensures
        seeds.deep_view() == signer_seeds_of(*escrow),
{
    let mut seeds = escrow_seeds(escrow.seed, &escrow.maker);
    let bump: Vec<u8> = vec![escrow.bump];
    let ghost before = seeds.deep_view();
    assert(seeds@.len() == 3) by {
        assert(before.len() == 3);
    }
    seeds.push(bump);
    proof {
        assert(seeds@[3]@ =~= seq![escrow.bump]);
        assert forall|i: int| 0 <= i < 3 implies #[trigger] seeds.deep_view()[i] == before[i] by {}
        assert(seeds@[3].deep_view() =~= seq![escrow.bump]);
        assert(seeds.deep_view() =~= signer_seeds_of(*escrow));
    }
    seeds
}

/// Whether `b` is the bump that the derivation of an address from `seeds`
/// settles on, with `a` the address: the highest bump from 1 up that gives a
/// program address.
pub open spec fn is_found_bump(seeds: Seq<Seq<u8>>, program_id: Seq<u8>, a: Seq<u8>, b: u8) -> bool {
    &&& 1 <= b
    &&& program_address(seeds.push(seq![b]), program_id) == Some(a)
    &&& forall|c: u8| b < c ==> (#[trigger] program_address(seeds.push(seq![c]), program_id)) is None
}

/// Whether no bump from 1 up gives a program address from `seeds`.
pub open spec fn no_bump_found(seeds: Seq<Seq<u8>>, program_id: Seq<u8>) -> bool {
    forall|c: u8| 1 <= c ==> (#[trigger] program_address(seeds.push(seq![c]), program_id)) is None
}

/// The address and bump of the escrow that `maker` makes with its own `seed`
/// under the program `program_id`: the highest bump that gives a program
/// address, or `None` where no bump does.
pub fn derive_escrow_address(seed: u64, maker: &Address, program_id: &Address) -> (res: Option<(Address, u8)>)
    ensures
        res matches Some((a, b)) ==> is_found_bump(escrow_seeds_of(seed, maker@), program_id@, a@, b),
        res is None <==> no_bump_found(escrow_seeds_of(seed, maker@), program_id@),
{
    let seeds = escrow_seeds(seed, maker);
    proof {
        let s = seeds.deep_view();
        assert(s.len() == 3);
        assert(s[0].len() == 6);
        assert(s[1].len() == 8) by {
            vstd::bytes::lemma_auto_spec_u64_to_from_le_bytes();
        }
        assert(s[2].len() == 32);
        assert(!(exists|i: int| 0 <= i < s.len() && #[trigger] s[i].len() > MAX_SEED_LEN));
    }
    try_find_program_address(&seeds, program_id)
}

/// Checks that the escrow account at `escrow_key` is at the address that the
/// escrow's seeds and bump give under `program_id`.
pub fn check_escrow_address(escrow: &Escrow, escrow_key: &Address, program_id: &Address) -> (res: Result<(), InstructionError>)
    ensures
        res is Ok <==> program_address(signer_seeds_of(*escrow), program_id@) == Some(escrow_key@),
        res matches Err(e) ==> e == InstructionError::ConstraintSeeds,
{
    let seeds = signer_seeds(escrow);
    match create_program_address(&seeds, program_id) {
        Some(a) => {
            if same_address(&a, escrow_key) {
                Ok(())
            } else {
                Err(InstructionError::ConstraintSeeds)
            }
        },
        None => Err(InstructionError::ConstraintSeeds),
    }
}

} // verus!
