use anchor_lang::prelude::{ProgramError, Pubkey};
use escrow::address::derive_escrow_address;
use escrow::{
    make_with_clock, refund_checked, take_checked, take_checked_with_clock, take_with_clock, Address, Escrow,
    EscrowError, InstructionError, Make, MakeBumps, Refund, Take,
};

const MAKER: Address = [11u8; 32];
const TAKER: Address = [12u8; 32];
const MINT_A: Address = [21u8; 32];
const MINT_B: Address = [22u8; 32];

fn program_id() -> Address {
    "58AGNg2soLw1k8eBGMA3MLubjCaDqedyawUaCWZg2EPA".parse::<Pubkey>().unwrap().to_bytes()
}

fn new_make() -> Make {
    Make { maker: MAKER, mint_a: MINT_A, mint_b: MINT_B, mint_a_decimals: 9, escrow: None }
}

fn take_ctx(escrow: Escrow) -> Take {
    Take {
        taker: TAKER,
        maker: MAKER,
        mint_a: MINT_A,
        mint_b: MINT_B,
        mint_a_decimals: 9,
        mint_b_decimals: 6,
        escrow,
        vault_amount: 10,
    }
}

fn made_escrow(seed: u64) -> (Escrow, Address) {
    let (addr, bump) = derive_escrow_address(seed, &MAKER, &program_id()).unwrap();
    (Escrow { seed, maker: MAKER, mint_a: MINT_A, mint_b: MINT_B, receive: 5, bump, expiry_timestamp: 100 }, addr)
}

#[test]
fn a_failed_clock_read_is_returned_and_nothing_is_recorded() {
    let bumps = MakeBumps { escrow: 7 };
    let mut ctx = new_make();
    let res = ctx.init_escrow_with_clock(1, 5, 100, &bumps, Err(ProgramError::Custom(7)));
    assert_eq!(res, Err(InstructionError::Runtime(ProgramError::Custom(7))));
    assert!(ctx.escrow.is_none());
    // Time 0 would have been accepted: a failed read is not read as time 0.
    assert_eq!(ctx.init_escrow_with_clock(1, 5, 100, &bumps, Ok(0)), Ok(()));
    assert_eq!(ctx.escrow.unwrap().expiry_timestamp, 100);
}

#[test]
fn init_escrow_follows_the_time_read() {
    let bumps = MakeBumps { escrow: 7 };
    let mut ctx = new_make();
    assert_eq!(
        ctx.init_escrow_with_clock(1, 5, 100, &bumps, Ok(100)),
        Err(InstructionError::Escrow(EscrowError::InvalidExpiry))
    );
    assert!(ctx.escrow.is_none());
}

#[test]
fn make_with_clock_checks_amounts_then_the_read_then_the_time() {
    let bumps = MakeBumps { escrow: 7 };
    let mut ctx = new_make();
    assert_eq!(
        make_with_clock(&mut ctx, 1, 0, 5, 100, &bumps, Err(ProgramError::UnsupportedSysvar)),
        Err(InstructionError::Escrow(EscrowError::InvalidAmount))
    );
    assert_eq!(
        make_with_clock(&mut ctx, 1, 5, 5, 100, &bumps, Err(ProgramError::UnsupportedSysvar)),
        Err(InstructionError::Runtime(ProgramError::UnsupportedSysvar))
    );
    assert_eq!(
        make_with_clock(&mut ctx, 1, 5, 5, 100, &bumps, Ok(100)),
        Err(InstructionError::Escrow(EscrowError::InvalidExpiry))
    );
    assert!(ctx.escrow.is_none());
    let deposit = make_with_clock(&mut ctx, 1, 5, 6, 100, &bumps, Ok(99)).unwrap();
    assert_eq!(deposit.amount, 6);
    assert_eq!(ctx.escrow.unwrap().receive, 5);
}

#[test]
fn expiry_checks_follow_the_clock_read() {
    let (escrow, _) = made_escrow(3);
    let t = take_ctx(escrow);
    assert_eq!(t.validate_expiry_with_clock(Ok(99)), Ok(()));
    assert_eq!(t.validate_expiry_with_clock(Ok(100)), Err(InstructionError::Escrow(EscrowError::EscrowExpired)));
    assert_eq!(
        t.validate_expiry_with_clock(Err(ProgramError::Custom(1))),
        Err(InstructionError::Runtime(ProgramError::Custom(1)))
    );
    assert!(matches!(take_with_clock(&t, Ok(100)), Err(InstructionError::Escrow(EscrowError::EscrowExpired))));
    assert!(matches!(take_with_clock(&t, Err(ProgramError::Custom(2))), Err(InstructionError::Runtime(ProgramError::Custom(2)))));
    let outcome = take_with_clock(&t, Ok(0)).unwrap();
    assert_eq!(outcome.payment.amount, 5);
    assert_eq!(outcome.release.transfer.amount, 10);
}

#[test]
fn take_checked_runs_the_account_checks_first() {
    let pid = program_id();
    let (escrow, addr) = made_escrow(3);
    let t = take_ctx(escrow);
    assert!(take_checked_with_clock(&t, &addr, &pid, Ok(0)).is_ok());
    // Another escrow's address, with a time that would pass.
    assert!(matches!(take_checked_with_clock(&t, &[9u8; 32], &pid, Ok(0)), Err(InstructionError::ConstraintSeeds)));
    // Another maker, with a clock that cannot be read: the account check comes first.
    let mut other = t;
    other.maker = TAKER;
    assert!(matches!(
        take_checked_with_clock(&other, &addr, &pid, Err(ProgramError::Custom(3))),
        Err(InstructionError::ConstraintHasOne)
    ));
    assert!(matches!(take_checked(&other, &addr, &pid), Err(InstructionError::ConstraintHasOne)));
    // Accounts that pass, outside the runtime: the clock cannot be read.
    assert!(matches!(take_checked(&t, &addr, &pid), Err(InstructionError::Runtime(_))));
}

#[test]
fn refund_checked_refuses_other_accounts_and_releases_for_the_maker() {
    let pid = program_id();
    let (escrow, addr) = made_escrow(4);
    let r = Refund { maker: MAKER, mint_a: MINT_A, mint_a_decimals: 9, escrow, vault_amount: 33 };
    let release = refund_checked(&r, &addr, &pid).unwrap();
    assert_eq!(release.transfer.amount, 33);
    assert!(matches!(refund_checked(&r, &[9u8; 32], &pid), Err(InstructionError::ConstraintSeeds)));
    let mut other = r;
    other.maker = TAKER;
    assert!(matches!(refund_checked(&other, &addr, &pid), Err(InstructionError::ConstraintHasOne)));
    let mut other = r;
    other.mint_a = MINT_B;
    assert!(matches!(refund_checked(&other, &addr, &pid), Err(InstructionError::ConstraintHasOne)));
}
