use anchor_lang::prelude::{ProgramError, Pubkey};
use escrow::address::{check_escrow_address, derive_escrow_address, escrow_seeds, signer_seeds};
use escrow::cpi::{MintKind, Party, TokenAccount};
use escrow::state::same_address;
use escrow::{
    make, make_at, refund, take, take_at, Address, Escrow, EscrowError, InstructionError, Make, MakeBumps,
    Refund, Take, ESCROW_SEED,
};

const MAKER: Address = [11u8; 32];
const TAKER: Address = [12u8; 32];
const MINT_A: Address = [21u8; 32];
const MINT_B: Address = [22u8; 32];

fn program_id() -> Address {
    "58AGNg2soLw1k8eBGMA3MLubjCaDqedyawUaCWZg2EPA".parse::<Pubkey>().unwrap().to_bytes()
}

fn new_make() -> Make {
    Make { maker: MAKER, mint_a: MINT_A, mint_b: MINT_B, mint_a_decimals: 9, escrow: None }
}

fn recorded(seed: u64, bump: u8, receive: u64, expiry_timestamp: i64) -> Escrow {
    Escrow { seed, maker: MAKER, mint_a: MINT_A, mint_b: MINT_B, receive, bump, expiry_timestamp }
}

fn take_ctx(escrow: Escrow, vault_amount: u64) -> Take {
    Take {
        taker: TAKER,
        maker: MAKER,
        mint_a: MINT_A,
        mint_b: MINT_B,
        mint_a_decimals: 9,
        mint_b_decimals: 6,
        escrow,
        vault_amount,
    }
}

fn refund_ctx(escrow: Escrow, vault_amount: u64) -> Refund {
    Refund { maker: MAKER, mint_a: MINT_A, mint_a_decimals: 9, escrow, vault_amount }
}

#[test]
fn error_codes_names_and_messages() {
    assert_eq!(EscrowError::EscrowExpired.code(), 6000);
    assert_eq!(EscrowError::InvalidAmount.code(), 6001);
    assert_eq!(EscrowError::InvalidExpiry.code(), 6002);
    assert_eq!(EscrowError::EscrowExpired.name(), "EscrowExpired");
    assert_eq!(EscrowError::InvalidAmount.name(), "InvalidAmount");
    assert_eq!(EscrowError::InvalidExpiry.name(), "InvalidExpiry");
    assert_eq!(EscrowError::EscrowExpired.message(), "Can not withdraw funds after escrow expired");
    assert_eq!(EscrowError::InvalidAmount.message(), "Invalid Amount");
    assert_eq!(EscrowError::InvalidExpiry.message(), "Invalid Expiry");
}

#[test]
fn deposit_amounts_must_both_be_positive() {
    let ctx = new_make();
    assert_eq!(ctx.validate_deposit_amount(0, 1), Err(EscrowError::InvalidAmount));
    assert_eq!(ctx.validate_deposit_amount(1, 0), Err(EscrowError::InvalidAmount));
    assert_eq!(ctx.validate_deposit_amount(0, 0), Err(EscrowError::InvalidAmount));
    assert_eq!(ctx.validate_deposit_amount(1, 1), Ok(()));
    assert_eq!(ctx.validate_deposit_amount(u64::MAX, u64::MAX), Ok(()));
}

#[test]
fn expiry_must_be_after_the_making_time() {
    let bumps = MakeBumps { escrow: 200 };
    let mut ctx = new_make();
    assert_eq!(ctx.init_escrow_at(3, 10, 100, &bumps, 100), Err(EscrowError::InvalidExpiry));
    assert!(ctx.escrow.is_none());
    assert_eq!(ctx.init_escrow_at(3, 10, 100, &bumps, 99), Ok(()));
    let e = ctx.escrow.unwrap();
    assert_eq!((e.seed, e.receive, e.bump, e.expiry_timestamp), (3, 10, 200, 100));
    assert!(e.maker == MAKER && e.mint_a == MINT_A && e.mint_b == MINT_B);
}

#[test]
fn make_checks_amounts_before_expiry() {
    let bumps = MakeBumps { escrow: 1 };
    let mut ctx = new_make();
    // Both wrong: the amounts are reported.
    assert_eq!(make_at(&mut ctx, 1, 0, 5, -1, &bumps, 0), Err(EscrowError::InvalidAmount));
    assert_eq!(make_at(&mut ctx, 1, 5, 5, 0, &bumps, 0), Err(EscrowError::InvalidExpiry));
    assert!(ctx.escrow.is_none());
    let deposit = make_at(&mut ctx, 1, 5, 7, 1, &bumps, 0).unwrap();
    assert_eq!(deposit.from, TokenAccount::MakerAtaA);
    assert_eq!(deposit.to, TokenAccount::Vault);
    assert_eq!(deposit.authority, Party::Maker);
    assert_eq!(deposit.mint, MintKind::A);
    assert_eq!((deposit.amount, deposit.decimals), (7, 9));
    assert_eq!(ctx.escrow.unwrap().receive, 5);
}

#[test]
fn make_refuses_zero_amounts_without_the_clock() {
    let mut ctx = new_make();
    let res = make(&mut ctx, 1, 0, 5, 100, &MakeBumps { escrow: 1 });
    assert_eq!(res, Err(InstructionError::Escrow(EscrowError::InvalidAmount)));
    assert!(ctx.escrow.is_none());
}

#[test]
fn instructions_report_an_unreadable_clock() {
    // Outside the runtime the clock cannot be read.
    let mut ctx = new_make();
    let res = make(&mut ctx, 1, 5, 5, 100, &MakeBumps { escrow: 1 });
    assert_eq!(res, Err(InstructionError::Runtime(ProgramError::UnsupportedSysvar)));
    assert!(ctx.escrow.is_none());
    let t = take_ctx(recorded(1, 1, 5, 100), 5);
    assert!(matches!(take(&t), Err(InstructionError::Runtime(ProgramError::UnsupportedSysvar))));
    assert!(matches!(t.validate_expiry(), Err(InstructionError::Runtime(_))));
}

#[test]
fn take_is_refused_from_the_expiry_time_on() {
    let t = take_ctx(recorded(1, 1, 5, 100), 5);
    assert_eq!(t.validate_expiry_at(99), Ok(()));
    assert_eq!(t.validate_expiry_at(100), Err(EscrowError::EscrowExpired));
    assert_eq!(t.validate_expiry_at(i64::MAX), Err(EscrowError::EscrowExpired));
    assert!(take_at(&t, 100).is_err());
    assert!(take_at(&t, i64::MIN).is_ok());
}

#[test]
fn take_pays_the_maker_and_releases_the_whole_vault() {
    let escrow = recorded(4, 250, 2_000, 100);
    let t = take_ctx(escrow, 1_234);
    let outcome = take_at(&t, 0).unwrap();
    let p = outcome.payment;
    assert_eq!((p.from, p.to, p.authority, p.mint), (TokenAccount::TakerAtaB, TokenAccount::MakerAtaB, Party::Taker, MintKind::B));
    assert_eq!((p.amount, p.decimals), (2_000, 6));
    let r = outcome.release;
    assert_eq!((r.transfer.from, r.transfer.to, r.transfer.authority), (TokenAccount::Vault, TokenAccount::TakerAtaA, Party::Escrow));
    assert_eq!((r.transfer.mint, r.transfer.amount, r.transfer.decimals), (MintKind::A, 1_234, 9));
    assert_eq!((r.close.account, r.close.destination, r.close.authority), (TokenAccount::Vault, Party::Maker, Party::Escrow));
    assert_eq!(r.signer_seeds, signer_seeds(&escrow));
}

#[test]
fn refund_returns_the_whole_vault_to_the_maker_at_any_time() {
    let escrow = recorded(4, 250, 2_000, i64::MIN);
    let r = refund(&refund_ctx(escrow, 999));
    assert_eq!((r.transfer.from, r.transfer.to, r.transfer.authority), (TokenAccount::Vault, TokenAccount::MakerAtaA, Party::Escrow));
    assert_eq!((r.transfer.mint, r.transfer.amount, r.transfer.decimals), (MintKind::A, 999, 9));
    assert_eq!((r.close.account, r.close.destination, r.close.authority), (TokenAccount::Vault, Party::Maker, Party::Escrow));
    assert_eq!(r.signer_seeds, signer_seeds(&escrow));
}

#[test]
fn escrow_seeds_are_the_tag_the_little_endian_seed_and_the_maker() {
    assert_eq!(ESCROW_SEED, *b"escrow");
    let seeds = escrow_seeds(69, &MAKER);
    assert_eq!(seeds, vec![b"escrow".to_vec(), 69u64.to_le_bytes().to_vec(), MAKER.to_vec()]);
    let seeds = escrow_seeds(0x0102030405060708, &MAKER);
    assert_eq!(seeds[1], vec![8, 7, 6, 5, 4, 3, 2, 1]);
    let s = signer_seeds(&recorded(69, 254, 1, 1));
    assert_eq!(s, vec![b"escrow".to_vec(), 69u64.to_le_bytes().to_vec(), MAKER.to_vec(), vec![254]]);
}

#[test]
fn derived_escrow_address_is_the_program_address_of_its_seeds() {
    let pid = program_id();
    let seed = 69u64;
    let (addr, bump) = derive_escrow_address(seed, &MAKER, &pid).unwrap();
    let (expected, expected_bump) = Pubkey::find_program_address(
        &[b"escrow", &seed.to_le_bytes(), &MAKER],
        &Pubkey::new_from_array(pid),
    );
    assert_eq!(addr, expected.to_bytes());
    assert_eq!(bump, expected_bump);
    assert!(bump >= 1);
    assert_ne!(addr, pid);
    assert_ne!(addr, MAKER);
}

#[test]
fn made_escrow_passes_the_account_checks_of_take_and_refund() {
    let pid = program_id();
    let ctx = new_make();
    let (addr, _) = derive_escrow_address(7, &MAKER, &pid).unwrap();
    let bumps = ctx.validate_escrow_address(7, &addr, &pid).unwrap();
    let mut ctx = ctx;
    make_at(&mut ctx, 7, 10, 10, 100, &bumps, 0).unwrap();
    let escrow = ctx.escrow.unwrap();
    assert_eq!(check_escrow_address(&escrow, &addr, &pid), Ok(()));
    assert_eq!(take_ctx(escrow, 10).validate_accounts(&addr, &pid), Ok(()));
    assert_eq!(refund_ctx(escrow, 10).validate_accounts(&addr, &pid), Ok(()));
}

#[test]
fn account_checks_refuse_other_addresses_and_accounts() {
    let pid = program_id();
    let (addr, bump) = derive_escrow_address(7, &MAKER, &pid).unwrap();
    let escrow = recorded(7, bump, 10, 100);
    // An address that is not the escrow's.
    assert_eq!(check_escrow_address(&escrow, &[0u8; 32], &pid), Err(InstructionError::ConstraintSeeds));
    assert_eq!(new_make().validate_escrow_address(7, &[0u8; 32], &pid).unwrap_err(), InstructionError::ConstraintSeeds);
    // Another seed gives another address.
    let (other, _) = derive_escrow_address(8, &MAKER, &pid).unwrap();
    assert_ne!(other, addr);
    assert_eq!(take_ctx(recorded(8, bump, 10, 100), 10).validate_accounts(&addr, &pid), Err(InstructionError::ConstraintSeeds));
    // The record names other accounts.
    let mut t = take_ctx(escrow, 10);
    t.mint_b = MINT_A;
    assert_eq!(t.validate_accounts(&addr, &pid), Err(InstructionError::ConstraintHasOne));
    let mut t = take_ctx(escrow, 10);
    t.mint_a = MINT_B;
    assert_eq!(t.validate_accounts(&addr, &pid), Err(InstructionError::ConstraintHasOne));
    let mut t = take_ctx(escrow, 10);
    t.maker = TAKER;
    assert_eq!(t.validate_accounts(&addr, &pid), Err(InstructionError::ConstraintHasOne));
    let mut r = refund_ctx(escrow, 10);
    r.maker = TAKER;
    assert_eq!(r.validate_accounts(&addr, &pid), Err(InstructionError::ConstraintHasOne));
    let mut r = refund_ctx(escrow, 10);
    r.mint_a = MINT_B;
    assert_eq!(r.validate_accounts(&addr, &pid), Err(InstructionError::ConstraintHasOne));
}

#[test]
fn addresses_compare_byte_for_byte() {
    let mut b = MAKER;
    assert!(same_address(&MAKER, &b));
    b[31] = 0;
    assert!(!same_address(&MAKER, &b));
    b = MAKER;
    b[0] = 0;
    assert!(!same_address(&MAKER, &b));
}

#[test]
fn escrows_of_one_maker_with_other_seeds_have_other_seeds_lists() {
    assert_ne!(escrow_seeds(1, &MAKER), escrow_seeds(2, &MAKER));
    assert_ne!(escrow_seeds(1, &MAKER), escrow_seeds(1, &TAKER));
    assert_eq!(escrow_seeds(1, &MAKER), escrow_seeds(1, &MAKER));
}
