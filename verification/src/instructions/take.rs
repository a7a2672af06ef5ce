//! Taking an escrow: the taker pays what the maker asks for and receives the
//! deposit, before the escrow expires.
use vstd::prelude::*;
use crate::address::{check_escrow_address, program_address, signer_seeds, signer_seeds_of};
use crate::clock::unix_timestamp_now;
use crate::cpi::{close_vault, releases, MintKind, Party, TokenAccount, TokenCall, TransferChecked, VaultRelease};
use crate::error::{EscrowError, InstructionError};
use anchor_lang::prelude::ProgramError;
use crate::state::{same_address, Address, Escrow};

verus! {

/// What the take instruction reads of its accounts.
#[derive(Clone, Copy, Debug)]
pub struct Take {
    /// The taker's address.
    pub taker: Address,
    /// The maker's address.
    pub maker: Address,
    /// The mint of the deposited tokens.
    pub mint_a: Address,
    /// The mint of the tokens asked for.
    pub mint_b: Address,
    /// The decimals of mint A.
    pub mint_a_decimals: u8,
    /// The decimals of mint B.
    pub mint_b_decimals: u8,
    /// The escrow account's record.
    pub escrow: Escrow,
    /// How many tokens the vault holds.
    pub vault_amount: u64,
}

/// The token calls that taking the escrow orders: the payment to the maker,
/// then the release of the vault to the taker.
#[derive(Debug)]
pub struct TakeOutcome {
    pub payment: TransferChecked,
    pub release: VaultRelease,
}

/// Whether the escrow's record names the accounts that the take instruction
/// was given: the two mints and the maker.
pub open spec fn take_has_ones(take: Take) -> bool {
    &&& take.escrow.mint_a@ == take.mint_a@
    &&& take.escrow.mint_b@ == take.mint_b@
    &&& take.escrow.maker@ == take.maker@
}

/// What the account checks of the take instruction give: the escrow account
/// must be at the address of its seeds and bump, then its record must name
/// the two mints and the maker.
pub open spec fn take_accounts_result(take: Take, escrow_key: Seq<u8>, program_id: Seq<u8>) -> Result<(), InstructionError> {
    if program_address(signer_seeds_of(take.escrow), program_id) != Some(escrow_key) {
        Err(InstructionError::ConstraintSeeds)
    } else if !take_has_ones(take) {
        Err(InstructionError::ConstraintHasOne)
    } else {
        Ok(())
    }
}

/// The taker's payment of what the maker asks for: `receive` tokens of mint B
/// from the taker's account to the maker's, signed by the taker.
pub open spec fn payment_of(take: Take) -> TransferChecked {
    TransferChecked {
        from: TokenAccount::TakerAtaB,
        to: TokenAccount::MakerAtaB,
        authority: Party::Taker,
        mint: MintKind::B,
        amount: take.escrow.receive,
        decimals: take.mint_b_decimals,
    }
}

/// The transfer of all that the vault holds to the taker's account of mint A,
/// signed by the escrow.
pub open spec fn vault_to_taker_of(take: Take) -> TransferChecked {
    TransferChecked {
        from: TokenAccount::Vault,
        to: TokenAccount::TakerAtaA,
        authority: Party::Escrow,
        mint: MintKind::A,
        amount: take.vault_amount,
        decimals: take.mint_a_decimals,
    }
}

/// Whether the escrow can still be taken at time `now`: `now` is before its
/// expiry time.
pub open spec fn before_expiry(escrow: Escrow, now: i64) -> bool {
    now < escrow.expiry_timestamp
}

/// Whether `outcome` is what taking the escrow orders.
pub open spec fn take_outcome(take: Take, outcome: TakeOutcome) -> bool {
    &&& outcome.payment == payment_of(take)
    &&& releases(outcome.release, take.escrow, vault_to_taker_of(take))
}

/// The calls that taking the escrow orders, in the order they are carried
/// out: the payment, the transfer out of the vault, then the vault's closing.
pub open spec fn take_calls_of(outcome: TakeOutcome) -> Seq<TokenCall> {
    seq![
        TokenCall::Transfer(outcome.payment),
        TokenCall::Transfer(outcome.release.transfer),
        TokenCall::Close(outcome.release.close),
    ]
}

/// The calls that taking the escrow orders, in the order they are carried
/// out: the payment, the transfer out of the vault, then the vault's closing.
pub fn take_calls(outcome: &TakeOutcome) -> (calls: Vec<TokenCall>)
    ensures
        calls@ == take_calls_of(*outcome),
{
    let mut calls: Vec<TokenCall> = Vec::new();
    calls.push(TokenCall::Transfer(outcome.payment));
    calls.push(TokenCall::Transfer(outcome.release.transfer));
    calls.push(TokenCall::Close(outcome.release.close));
    assert(calls@ =~= take_calls_of(*outcome));
    calls
}

impl Take {
    /// Checks that the escrow account at `escrow_key` is at the address of its
    /// seeds and bump under `program_id`, then that its record names the two
    /// mints and the maker that the instruction was given.
    pub fn validate_accounts(&self, escrow_key: &Address, program_id: &Address) -> (res: Result<(), InstructionError>)
        ensures
            res == take_accounts_result(*self, escrow_key@, program_id@),
    {
        check_escrow_address(&self.escrow, escrow_key, program_id)?;
        if !same_address(&self.escrow.mint_a, &self.mint_a) {
            return Err(InstructionError::ConstraintHasOne);
        }
        if !same_address(&self.escrow.mint_b, &self.mint_b) {
            return Err(InstructionError::ConstraintHasOne);
        }
        if !same_address(&self.escrow.maker, &self.maker) {
            return Err(InstructionError::ConstraintHasOne);
        }
        Ok(())
    }

    /// Checks that time `now` is before the escrow's expiry time.
    pub fn validate_expiry_at(&self, now: i64) -> (res: Result<(), EscrowError>)
        ensures
            res == (if before_expiry(self.escrow, now) { Ok(()) } else { Err(EscrowError::EscrowExpired) }),
    {
        if !(now < self.escrow.expiry_timestamp) {
            return Err(EscrowError::EscrowExpired);
        }
        Ok(())
    }

    /// Checks what a read of the clock gave: the runtime's error where the
    /// read failed; else whether the time read is before the escrow's expiry
    /// time, as `validate_expiry_at` does.
    pub fn validate_expiry_with_clock(&self, clock: Result<i64, ProgramError>) -> (res: Result<(), InstructionError>)
        ensures
            clock matches Err(e) ==> res == Err::<(), InstructionError>(InstructionError::Runtime(e)),
            clock matches Ok(now) ==> res == (if before_expiry(self.escrow, now) {
                Ok::<(), InstructionError>(())
            } else {
                Err(InstructionError::Escrow(EscrowError::EscrowExpired))
            }),
    {
        let now = match clock {
            Ok(now) => now,
            Err(e) => {
                return Err(InstructionError::Runtime(e));
            },
        };
        match self.validate_expiry_at(now) {
            Ok(()) => Ok(()),
            Err(e) => Err(InstructionError::Escrow(e)),
        }
    }

    /// Reads the clock and checks that the time read is before the escrow's
    /// expiry time. Where the clock cannot be read, the runtime's error is
    /// returned. It succeeds only where some time is before the expiry time:
    /// an escrow that expires at the earliest time there is never passes.
    pub fn validate_expiry(&self) -> (res: Result<(), InstructionError>)
        ensures
            res matches Err(e) ==> e is Runtime || e == InstructionError::Escrow(EscrowError::EscrowExpired),
            res is Ok ==> exists|now: i64| #[trigger] before_expiry(self.escrow, now),
    {
        let clock = unix_timestamp_now();
        let ghost read = clock;
        let res = self.validate_expiry_with_clock(clock);
        proof {
            if let Ok(now) = read {
                if res is Ok {
                    assert(before_expiry(self.escrow, now));
                }
            }
        }
        res
    }

    /// The taker's payment of what the maker asks for.
    pub fn transfer(&self) -> (t: TransferChecked)
        ensures
            t == payment_of(*self),
    {
        TransferChecked {
            from: TokenAccount::TakerAtaB,
            to: TokenAccount::MakerAtaB,
            authority: Party::Taker,
            mint: MintKind::B,
            amount: self.escrow.receive,
            decimals: self.mint_b_decimals,
        }
    }

    /// The release of all that the vault holds to the taker, and the closing
    /// of the vault, both signed by the escrow.
    pub fn transfer_from_vault_and_close(&self) -> (r: VaultRelease)
        ensures
            releases(r, self.escrow, vault_to_taker_of(*self)),
    {
        let transfer = TransferChecked {
            from: TokenAccount::Vault,
            to: TokenAccount::TakerAtaA,
            authority: Party::Escrow,
            mint: MintKind::A,
            amount: self.vault_amount,
            decimals: self.mint_a_decimals,
        };
        VaultRelease { signer_seeds: signer_seeds(&self.escrow), transfer, close: close_vault() }
    }
}

/// Takes the escrow at time `now`: refused with `EscrowExpired` unless `now`
/// is before the expiry time; else the payment and the release of the vault.
pub fn take_at(ctx: &Take, now: i64) -> (res: Result<TakeOutcome, EscrowError>)
    ensures
        res is Ok <==> before_expiry(ctx.escrow, now),
        res matches Err(e) ==> e == EscrowError::EscrowExpired,
        res matches Ok(outcome) ==> take_outcome(*ctx, outcome),
{
    ctx.validate_expiry_at(now)?;
    let payment = ctx.transfer();
    let release = ctx.transfer_from_vault_and_close();
    Ok(TakeOutcome { payment, release })
}

/// Takes the escrow according to what a read of the clock gave: the
/// runtime's error where the read failed; else what `take_at` does at the time
/// read.
pub fn take_with_clock(ctx: &Take, clock: Result<i64, ProgramError>) -> (res: Result<TakeOutcome, InstructionError>)
    ensures
        clock matches Err(e) ==> res == Err::<TakeOutcome, InstructionError>(InstructionError::Runtime(e)),
        clock matches Ok(now) ==> {
            &&& res is Ok <==> before_expiry(ctx.escrow, now)
            &&& res matches Err(e) ==> e == InstructionError::Escrow(EscrowError::EscrowExpired)
        },
        res matches Ok(outcome) ==> take_outcome(*ctx, outcome),
{
    let now = match clock {
        Ok(now) => now,
        Err(e) => {
            return Err(InstructionError::Runtime(e));
        },
    };
    match take_at(ctx, now) {
        Ok(outcome) => Ok(outcome),
        Err(e) => Err(InstructionError::Escrow(e)),
    }
}

/// Takes the escrow at the time that the clock gives. Where the clock cannot
/// be read, the runtime's error is returned; else the outcome is that of
/// `take_at` at the time read: it succeeds only where that time is before the
/// expiry time.
pub fn take(ctx: &Take) -> (res: Result<TakeOutcome, InstructionError>)
    ensures
        res matches Err(e) ==> e is Runtime || e == InstructionError::Escrow(EscrowError::EscrowExpired),
        res matches Ok(outcome) ==> take_outcome(*ctx, outcome),
        res is Ok ==> exists|now: i64| #[trigger] before_expiry(ctx.escrow, now),
{
    let clock = unix_timestamp_now();
    let ghost read = clock;
    let res = take_with_clock(ctx, clock);
    proof {
        if let Ok(now) = read {
            if res is Ok {
                assert(before_expiry(ctx.escrow, now));
            }
        }
    }
    res
}

/// Takes the escrow after the account checks: the escrow account at
/// `escrow_key` must be at the address of its seeds and bump under
/// `program_id`, and its record must name the given mints and maker. Where a
/// check fails, its error is returned and the clock is not read; else the
/// outcome is that of `take_with_clock` with what the read gave.
pub fn take_checked_with_clock(
    ctx: &Take,
    escrow_key: &Address,
    program_id: &Address,
    clock: Result<i64, ProgramError>,
) -> (res: Result<TakeOutcome, InstructionError>)
    ensures
        take_accounts_result(*ctx, escrow_key@, program_id@) matches Err(e) ==> res
            == Err::<TakeOutcome, InstructionError>(e),
        take_accounts_result(*ctx, escrow_key@, program_id@) is Ok ==> {
            &&& clock matches Err(e) ==> res == Err::<TakeOutcome, InstructionError>(InstructionError::Runtime(e))
            &&& clock matches Ok(now) ==> (res is Ok <==> before_expiry(ctx.escrow, now))
            &&& res matches Err(e) ==> e is Runtime || e == InstructionError::Escrow(EscrowError::EscrowExpired)
        },
        res matches Ok(outcome) ==> take_outcome(*ctx, outcome),
{
    ctx.validate_accounts(escrow_key, program_id)?;
    take_with_clock(ctx, clock)
}

/// Takes the escrow after the account checks, at the time that the clock
/// gives. Where a check fails, its error is returned and the clock is not
/// read.
pub fn take_checked(ctx: &Take, escrow_key: &Address, program_id: &Address) -> (res: Result<TakeOutcome, InstructionError>)
    ensures
        take_accounts_result(*ctx, escrow_key@, program_id@) matches Err(e) ==> res
            == Err::<TakeOutcome, InstructionError>(e),
        take_accounts_result(*ctx, escrow_key@, program_id@) is Ok ==> (res matches Err(e) ==> e is Runtime
            || e == InstructionError::Escrow(EscrowError::EscrowExpired)),
        res matches Ok(outcome) ==> take_outcome(*ctx, outcome),
        res is Ok ==> take_accounts_result(*ctx, escrow_key@, program_id@) is Ok
            && exists|now: i64| #[trigger] before_expiry(ctx.escrow, now),
{
    ctx.validate_accounts(escrow_key, program_id)?;
    take(ctx)
}

} // verus!
