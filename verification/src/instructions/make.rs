//! Making an escrow: the maker deposits tokens of mint A and records what it
//! asks for in return.
use vstd::prelude::*;
use crate::address::{derive_escrow_address, escrow_seeds_of, is_found_bump, no_bump_found};
use crate::clock::unix_timestamp_now;
use crate::cpi::{MintKind, Party, TokenAccount, TransferChecked};
use crate::error::{EscrowError, InstructionError};
use anchor_lang::prelude::ProgramError;
use crate::state::{same_address, Address, Escrow};

verus! {

/// What the make instruction reads of its accounts, and the escrow account it
/// fills in.
#[derive(Clone, Copy, Debug)]
pub struct Make {
    /// The maker's address.
    pub maker: Address,
    /// The mint of the tokens to deposit.
    pub mint_a: Address,
    /// The mint of the tokens asked for.
    pub mint_b: Address,
    /// The decimals of mint A.
    pub mint_a_decimals: u8,
    /// The escrow account's record: `None` until it is filled in.
    pub escrow: Option<Escrow>,
}

/// The bumps found for the program addresses of the make instruction.
#[derive(Clone, Copy, Debug)]
pub struct MakeBumps {
    /// The bump of the escrow account's address.
    pub escrow: u8,
}

/// The escrow that `make` records for the maker's `seed`, `receive`, bump and
/// expiry time.
pub open spec fn recorded_escrow(make: Make, seed: u64, receive: u64, bump: u8, expiry_timestamp: i64) -> Escrow {
    Escrow {
        seed,
        maker: make.maker,
        mint_a: make.mint_a,
        mint_b: make.mint_b,
        receive,
        bump,
        expiry_timestamp,
    }
}

/// The make context once the escrow is recorded in it.
pub open spec fn made(make: Make, seed: u64, receive: u64, bump: u8, expiry_timestamp: i64) -> Make {
    Make { escrow: Some(recorded_escrow(make, seed, receive, bump, expiry_timestamp)), ..make }
}

/// Whether the derivation of the escrow's address from the maker's `seed`
/// settles on an address other than `escrow_key`, or on none.
pub open spec fn escrow_address_mismatch(make: Make, seed: u64, escrow_key: Seq<u8>, program_id: Seq<u8>) -> bool {
    ||| no_bump_found(escrow_seeds_of(seed, make.maker@), program_id)
    ||| exists|a: Seq<u8>, b: u8|
        a != escrow_key && #[trigger] is_found_bump(escrow_seeds_of(seed, make.maker@), program_id, a, b)
}

/// The deposit of `amount` tokens of mint A from the maker's account into the
/// vault, signed by the maker.
pub open spec fn deposit_of(make: Make, amount: u64) -> TransferChecked {
    TransferChecked {
        from: TokenAccount::MakerAtaA,
        to: TokenAccount::Vault,
        authority: Party::Maker,
        mint: MintKind::A,
        amount,
        decimals: make.mint_a_decimals,
    }
}

/// Whether the amounts to deposit and to receive are accepted: both above 0.
pub open spec fn amounts_valid(amount: u64, receive: u64) -> bool {
    receive > 0 && amount > 0
}

/// What making the escrow at time `now` gives: the deposit to carry out, or
/// the error that refuses it.
pub open spec fn make_result(
    make: Make,
    receive: u64,
    amount: u64,
    expiry_timestamp: i64,
    now: i64,
) -> Result<TransferChecked, EscrowError> {
    if !amounts_valid(amount, receive) {
        Err(EscrowError::InvalidAmount)
    } else if expiry_timestamp <= now {
        Err(EscrowError::InvalidExpiry)
    } else {
        Ok(deposit_of(make, amount))
    }
}

/// Whether time `now` is before the expiry time `expiry_timestamp`.
pub open spec fn expires_after(expiry_timestamp: i64, now: i64) -> bool {
    now < expiry_timestamp
}

/// An escrow error as an instruction error.
pub open spec fn lift<T>(r: Result<T, EscrowError>) -> Result<T, InstructionError> {
    match r {
        Ok(t) => Ok(t),
        Err(e) => Err(InstructionError::Escrow(e)),
    }
}

/// Whether `r` is what making the escrow gives at some time.
pub open spec fn made_at_some_time(
    make: Make,
    receive: u64,
    amount: u64,
    expiry_timestamp: i64,
    r: Result<TransferChecked, InstructionError>,
) -> bool {
    exists|now: i64| r == lift(#[trigger] make_result(make, receive, amount, expiry_timestamp, now))
}

impl Make {
    /// Checks that the amounts to receive and to deposit are both above 0.
    pub fn validate_deposit_amount(&self, amount: u64, receive: u64) -> (res: Result<(), EscrowError>)
        ensures
            res == (if amounts_valid(amount, receive) { Ok(()) } else { Err(EscrowError::InvalidAmount) }),
    {
        if !(receive > 0) {
            return Err(EscrowError::InvalidAmount);
        }
        if !(amount > 0) {
            return Err(EscrowError::InvalidAmount);
        }
        Ok(())
    }

    /// Checks that the escrow account about to be made, at `escrow_key`, is
    /// at the program address that the maker's `seed` and address give under
    /// `program_id`, and gives the bump of that address.
    pub fn validate_escrow_address(&self, seed: u64, escrow_key: &Address, program_id: &Address) -> (res: Result<MakeBumps, InstructionError>)
        ensures
            match res {
                Ok(bumps) => is_found_bump(escrow_seeds_of(seed, self.maker@), program_id@, escrow_key@, bumps.escrow),
                Err(e) => e == InstructionError::ConstraintSeeds
                    && escrow_address_mismatch(*self, seed, escrow_key@, program_id@),
            },
    {
        match derive_escrow_address(seed, &self.maker, program_id) {
            Some((a, b)) => {
                if same_address(&a, escrow_key) {
                    Ok(MakeBumps { escrow: b })
                } else {
                    Err(InstructionError::ConstraintSeeds)
                }
            },
            None => Err(InstructionError::ConstraintSeeds),
        }
    }

    /// Records the escrow if its expiry time is after `now`; else refuses it
    /// with `InvalidExpiry` and leaves the record as it was.
    pub fn init_escrow_at(
        &mut self,
        seed: u64,
        receive: u64,
        expiry_timestamp: i64,
        bumps: &MakeBumps,
        now: i64,
    ) -> (res: Result<(), EscrowError>)
        ensures
            expiry_timestamp > now ==> res is Ok && *final(self) == made(*old(self), seed, receive, bumps.escrow, expiry_timestamp),
            expiry_timestamp <= now ==> res == Err::<(), EscrowError>(EscrowError::InvalidExpiry) && *final(self) == *old(self),
    {
        if !(expiry_timestamp > now) {
            return Err(EscrowError::InvalidExpiry);
        }
        self.escrow = Some(Escrow {
            seed,
            maker: self.maker,
            mint_a: self.mint_a,
            mint_b: self.mint_b,
            receive,
            bump: bumps.escrow,
            expiry_timestamp,
        });
        Ok(())
    }

    /// Records the escrow according to what a read of the clock gave: the
    /// runtime's error, with the record left as it was, where the read failed;
    /// else what `init_escrow_at` does at the time read.
    pub fn init_escrow_with_clock(
        &mut self,
        seed: u64,
        receive: u64,
        expiry_timestamp: i64,
        bumps: &MakeBumps,
        clock: Result<i64, ProgramError>,
    ) -> (res: Result<(), InstructionError>)
        ensures
            clock matches Err(e) ==> res == Err::<(), InstructionError>(InstructionError::Runtime(e))
                && *final(self) == *old(self),
            clock matches Ok(now) ==> {
                &&& expiry_timestamp > now ==> res is Ok
                    && *final(self) == made(*old(self), seed, receive, bumps.escrow, expiry_timestamp)
                &&& expiry_timestamp <= now ==> res == Err::<(), InstructionError>(
                    InstructionError::Escrow(EscrowError::InvalidExpiry),
                ) && *final(self) == *old(self)
            },
    {
        let now = match clock {
            Ok(now) => now,
            Err(e) => {
                return Err(InstructionError::Runtime(e));
            },
        };
        match self.init_escrow_at(seed, receive, expiry_timestamp, bumps, now) {
            Ok(()) => Ok(()),
            Err(e) => Err(InstructionError::Escrow(e)),
        }
    }

    /// Reads the clock and records the escrow as `init_escrow_with_clock` does
    /// with what the read gave.
    pub fn init_escrow(
        &mut self,
        seed: u64,
        receive: u64,
        expiry_timestamp: i64,
        bumps: &MakeBumps,
    ) -> (res: Result<(), InstructionError>)
        ensures
            res is Ok ==> *final(self) == made(*old(self), seed, receive, bumps.escrow, expiry_timestamp),
            res is Err ==> *final(self) == *old(self),
            res matches Err(e) ==> e is Runtime || e == InstructionError::Escrow(EscrowError::InvalidExpiry),
            res is Ok ==> exists|now: i64| #[trigger] expires_after(expiry_timestamp, now),
    {
        let clock = unix_timestamp_now();
        let ghost read = clock;
        let res = self.init_escrow_with_clock(seed, receive, expiry_timestamp, bumps, clock);
        proof {
            if let Ok(now) = read {
                if res is Ok {
                    assert(expires_after(expiry_timestamp, now));
                }
            }
        }
        res
    }

    /// The deposit of `amount` tokens of mint A from the maker's account into
    /// the vault.
    pub fn deposit(&self, amount: u64) -> (t: TransferChecked)
        ensures
            t == deposit_of(*self, amount),
    {
        TransferChecked {
            from: TokenAccount::MakerAtaA,
            to: TokenAccount::Vault,
            authority: Party::Maker,
            mint: MintKind::A,
            amount,
            decimals: self.mint_a_decimals,
        }
    }
}

/// Makes the escrow at time `now`: checks the amounts, records the escrow if
/// its expiry time is after `now`, and gives the deposit to carry out. The
/// record is made exactly when the deposit is given.
pub fn make_at(
    ctx: &mut Make,
    seed: u64,
    receive: u64,
    amount: u64,
    expiry_timestamp: i64,
    bumps: &MakeBumps,
    now: i64,
) -> (res: Result<TransferChecked, EscrowError>)
    ensures
        res == make_result(*old(ctx), receive, amount, expiry_timestamp, now),
        res is Ok ==> *final(ctx) == made(*old(ctx), seed, receive, bumps.escrow, expiry_timestamp),
        res is Err ==> *final(ctx) == *old(ctx),
{
    ctx.validate_deposit_amount(amount, receive)?;
    ctx.init_escrow_at(seed, receive, expiry_timestamp, bumps, now)?;
    Ok(ctx.deposit(amount))
}

/// Makes the escrow according to what a read of the clock gave: amounts of 0
/// are refused whatever the read gave; else the runtime's error where the read
/// failed; else what `make_at` does at the time read.
pub fn make_with_clock(
    ctx: &mut Make,
    seed: u64,
    receive: u64,
    amount: u64,
    expiry_timestamp: i64,
    bumps: &MakeBumps,
    clock: Result<i64, ProgramError>,
) -> (res: Result<TransferChecked, InstructionError>)
    ensures
        !amounts_valid(amount, receive) ==> res == Err::<TransferChecked, InstructionError>(
            InstructionError::Escrow(EscrowError::InvalidAmount),
        ),
        amounts_valid(amount, receive) ==> (clock matches Err(e) ==> res
            == Err::<TransferChecked, InstructionError>(InstructionError::Runtime(e))),
        clock matches Ok(now) ==> res == lift(make_result(*old(ctx), receive, amount, expiry_timestamp, now)),
        res is Ok ==> *final(ctx) == made(*old(ctx), seed, receive, bumps.escrow, expiry_timestamp),
        res is Err ==> *final(ctx) == *old(ctx),
{
    match ctx.validate_deposit_amount(amount, receive) {
        Ok(()) => {},
        Err(e) => {
            return Err(InstructionError::Escrow(e));
        },
    }
    let now = match clock {
        Ok(now) => now,
        Err(e) => {
            return Err(InstructionError::Runtime(e));
        },
    };
    match make_at(ctx, seed, receive, amount, expiry_timestamp, bumps, now) {
        Ok(t) => Ok(t),
        Err(e) => Err(InstructionError::Escrow(e)),
    }
}

/// Makes the escrow at the time that the clock gives. Amounts of 0 are
/// refused before the clock is read. Where the clock cannot be read, the
/// runtime's error is returned; else the outcome is that of `make_at` at the
/// time read.
pub fn make(
    ctx: &mut Make,
    seed: u64,
    receive: u64,
    amount: u64,
    expiry_timestamp: i64,
    bumps: &MakeBumps,
) -> (res: Result<TransferChecked, InstructionError>)
    ensures
        !amounts_valid(amount, receive) ==> res == Err::<TransferChecked, InstructionError>(
            InstructionError::Escrow(EscrowError::InvalidAmount),
        ),
        amounts_valid(amount, receive) ==> res is Err && res->Err_0 is Runtime
            || made_at_some_time(*old(ctx), receive, amount, expiry_timestamp, res),
        res is Ok ==> *final(ctx) == made(*old(ctx), seed, receive, bumps.escrow, expiry_timestamp),
        res is Err ==> *final(ctx) == *old(ctx),
{
    match ctx.validate_deposit_amount(amount, receive) {
        Ok(()) => {},
        Err(e) => {
            return Err(InstructionError::Escrow(e));
        },
    }
    let clock = unix_timestamp_now();
    let ghost read = clock;
    let res = make_with_clock(ctx, seed, receive, amount, expiry_timestamp, bumps, clock);
    proof {
        if let Ok(now) = read {
            assert(res == lift(make_result(*old(ctx), receive, amount, expiry_timestamp, now)));
        }
    }
    res
}

} // verus!
