//! Properties of the escrow that span its instructions.
use vstd::prelude::*;
use crate::address::{escrow_seeds_of, is_found_bump, program_address, signer_seeds_of};
use crate::state::Escrow;
use crate::cpi::{
    next_call_of, release_calls_of, TokenCall, VaultRelease,
    after_close, after_transfer, can_close, can_transfer, close_vault_to_maker, mint_total_change, net_change,
    well_minted, MintKind, TokenAccount, TransferChecked,
};
use crate::error::{EscrowError, InstructionError};
use crate::instructions::make::{deposit_of, make_result, recorded_escrow, Make};
use crate::instructions::refund::{refund_accounts_result, vault_to_maker_of, Refund};
use crate::instructions::take::{take_calls_of, take_outcome, TakeOutcome, before_expiry, payment_of, take_accounts_result, vault_to_taker_of, Take};

verus! {

/// Every transfer that the instructions order moves tokens between two
/// accounts of the mint that it names.
pub proof fn lemma_transfers_stay_within_their_mint(make: Make, amount: u64, take: Take, refund: Refund)
    ensures
        well_minted(deposit_of(make, amount)),
        well_minted(payment_of(take)),
        well_minted(vault_to_taker_of(take)),
        well_minted(vault_to_maker_of(refund)),
{
}

/// Transfers that each stay within their mint leave the total of each mint
/// over its accounts unchanged.
pub proof fn lemma_transfers_conserve_each_mint(transfers: Seq<TransferChecked>, mint: MintKind)
    requires
        forall|i: int| 0 <= i < transfers.len() ==> well_minted(#[trigger] transfers[i]),
    ensures
        mint_total_change(transfers, mint) == 0,
    decreases transfers.len(),
{
    if transfers.len() > 0 {
        let rest = transfers.drop_last();
        assert forall|i: int| 0 <= i < rest.len() implies well_minted(#[trigger] rest[i]) by {
            assert(rest[i] == transfers[i]);
        }
        lemma_transfers_conserve_each_mint(rest, mint);
        assert(well_minted(transfers[transfers.len() - 1]));
    }
}

/// An escrow made and then taken before it expires exchanges the deposit for
/// what the maker asked. Start from token accounts where the vault exists
/// and is empty (make creates it), the maker holds at least `amount` of mint
/// A and the taker at least `receive` of mint B. Make's deposit, take's
/// payment, and take's release of what the vault then holds all go through;
/// afterwards the maker has `amount` less of A and `receive` more of B, the
/// taker the other way round, and the vault no longer exists. The escrow
/// made at the address its derivation settles on, with the accounts it
/// records, passes take's account checks.
pub proof fn lemma_make_then_take_exchanges(
    make: Make,
    seed: u64,
    receive: u64,
    amount: u64,
    expiry_timestamp: i64,
    bump: u8,
    made_at: i64,
    take: Take,
    taken_at: i64,
    before: Map<TokenAccount, int>,
    program_id: Seq<u8>,
    escrow_key: Seq<u8>,
)
    requires
        make_result(make, receive, amount, expiry_timestamp, made_at) is Ok,
        is_found_bump(escrow_seeds_of(seed, make.maker@), program_id, escrow_key, bump),
        take.escrow == recorded_escrow(make, seed, receive, bump, expiry_timestamp),
        take.mint_a == make.mint_a,
        take.mint_b == make.mint_b,
        take.maker == make.maker,
        take.mint_a_decimals == make.mint_a_decimals,
        before_expiry(take.escrow, taken_at),
        before.dom().contains(TokenAccount::MakerAtaA),
        before.dom().contains(TokenAccount::MakerAtaB),
        before.dom().contains(TokenAccount::TakerAtaA),
        before.dom().contains(TokenAccount::TakerAtaB),
        before.dom().contains(TokenAccount::Vault),
        before[TokenAccount::Vault] == 0,
        before[TokenAccount::MakerAtaA] >= amount,
        before[TokenAccount::TakerAtaB] >= receive,
        take.vault_amount == after_transfer(before, deposit_of(make, amount))[TokenAccount::Vault],
    ensures
        take_accounts_result(take, escrow_key, program_id) == Ok::<(), InstructionError>(()),
        ({
            let deposit = make_result(make, receive, amount, expiry_timestamp, made_at)->Ok_0;
            let made = after_transfer(before, deposit);
            let paid = after_transfer(made, payment_of(take));
            let released = after_transfer(paid, vault_to_taker_of(take));
            let after = after_close(released, close_vault_to_maker());
            &&& can_transfer(before, deposit)
            &&& can_transfer(made, payment_of(take))
            &&& can_transfer(paid, vault_to_taker_of(take))
            &&& can_close(released, close_vault_to_maker())
            &&& after[TokenAccount::MakerAtaA] == before[TokenAccount::MakerAtaA] - amount
            &&& after[TokenAccount::TakerAtaA] == before[TokenAccount::TakerAtaA] + amount
            &&& after[TokenAccount::MakerAtaB] == before[TokenAccount::MakerAtaB] + receive
            &&& after[TokenAccount::TakerAtaB] == before[TokenAccount::TakerAtaB] - receive
            &&& !after.dom().contains(TokenAccount::Vault)
        }),
{
    assert(signer_seeds_of(take.escrow) == escrow_seeds_of(seed, make.maker@).push(seq![bump]));
}

/// An escrow made and then refunded gives the maker back all it deposited.
/// Start from token accounts where the vault exists and is empty (make
/// creates it) and the maker holds at least `amount` of mint A. Make's
/// deposit and refund's release of what the vault then holds both go
/// through; afterwards the maker holds what it held before and the vault no
/// longer exists. The escrow made at the address its derivation settles on,
/// refunded by its maker, passes refund's account checks.
pub proof fn lemma_make_then_refund_restores(
    make: Make,
    seed: u64,
    receive: u64,
    amount: u64,
    expiry_timestamp: i64,
    bump: u8,
    made_at: i64,
    refund: Refund,
    before: Map<TokenAccount, int>,
    program_id: Seq<u8>,
    escrow_key: Seq<u8>,
)
    requires
        make_result(make, receive, amount, expiry_timestamp, made_at) is Ok,
        is_found_bump(escrow_seeds_of(seed, make.maker@), program_id, escrow_key, bump),
        refund.escrow == recorded_escrow(make, seed, receive, bump, expiry_timestamp),
        refund.mint_a == make.mint_a,
        refund.maker == make.maker,
        before.dom().contains(TokenAccount::MakerAtaA),
        before.dom().contains(TokenAccount::Vault),
        before[TokenAccount::Vault] == 0,
        before[TokenAccount::MakerAtaA] >= amount,
        refund.vault_amount == after_transfer(before, deposit_of(make, amount))[TokenAccount::Vault],
    ensures
        refund_accounts_result(refund, escrow_key, program_id) == Ok::<(), InstructionError>(()),
        ({
            let deposit = make_result(make, receive, amount, expiry_timestamp, made_at)->Ok_0;
            let made = after_transfer(before, deposit);
            let released = after_transfer(made, vault_to_maker_of(refund));
            let after = after_close(released, close_vault_to_maker());
            &&& can_transfer(before, deposit)
            &&& can_transfer(made, vault_to_maker_of(refund))
            &&& can_close(released, close_vault_to_maker())
            &&& after[TokenAccount::MakerAtaA] == before[TokenAccount::MakerAtaA]
            &&& !after.dom().contains(TokenAccount::Vault)
            &&& forall|a: TokenAccount| a != TokenAccount::Vault ==> (#[trigger] after.dom().contains(a)
                <==> before.dom().contains(a)) && (after.dom().contains(a) ==> after[a] == before[a])
        }),
{
    assert(signer_seeds_of(refund.escrow) == escrow_seeds_of(seed, make.maker@).push(seq![bump]));
}

/// An escrow made at the address that its derivation settles on, with the
/// bump found there, is accepted by the account checks of take and of refund
/// when they are given the accounts that the escrow records.
pub proof fn lemma_made_escrow_passes_account_checks(
    make: Make,
    seed: u64,
    receive: u64,
    expiry_timestamp: i64,
    program_id: Seq<u8>,
    escrow_key: Seq<u8>,
    bump: u8,
    take: Take,
    refund: Refund,
)
    requires
        is_found_bump(escrow_seeds_of(seed, make.maker@), program_id, escrow_key, bump),
        take.escrow == recorded_escrow(make, seed, receive, bump, expiry_timestamp),
        take.mint_a == make.mint_a,
        take.mint_b == make.mint_b,
        take.maker == make.maker,
        refund.escrow == take.escrow,
        refund.mint_a == make.mint_a,
        refund.maker == make.maker,
    ensures
        take_accounts_result(take, escrow_key, program_id) == Ok::<(), InstructionError>(()),
        refund_accounts_result(refund, escrow_key, program_id) == Ok::<(), InstructionError>(()),
{
    assert(signer_seeds_of(take.escrow) == escrow_seeds_of(seed, make.maker@).push(seq![bump]));
}

/// Two escrows have the same seeds only if they have the same maker and the
/// same seed: the seeds tell apart every escrow of every maker.
pub proof fn lemma_escrow_seeds_distinct(seed1: u64, maker1: Seq<u8>, seed2: u64, maker2: Seq<u8>)
    requires
        escrow_seeds_of(seed1, maker1) == escrow_seeds_of(seed2, maker2),
    ensures
        seed1 == seed2,
        maker1 == maker2,
{
    vstd::bytes::lemma_auto_spec_u64_to_from_le_bytes();
    assert(escrow_seeds_of(seed1, maker1)[1] == escrow_seeds_of(seed2, maker2)[1]);
    assert(escrow_seeds_of(seed1, maker1)[2] == escrow_seeds_of(seed2, maker2)[2]);
}

/// Carried out step by step, a vault release closes the vault only once the
/// transfer out of it went through; the transfer's error, where it fails, is
/// what the run returns, and nothing comes after it.
pub proof fn lemma_release_closes_only_after_its_transfer<E>(release: VaultRelease, done: int, last: Result<(), E>)
    ensures
        next_call_of(release_calls_of(release), done, last) == Ok::<Option<TokenCall>, E>(
            Some(TokenCall::Close(release.close)),
        ) ==> done == 1 && last is Ok,
        last matches Err(e) ==> next_call_of(release_calls_of(release), done, last) == Err::<Option<TokenCall>, E>(e),
{
}

/// Carried out step by step, taking the escrow moves tokens out of the vault
/// only once the taker's payment went through, and closes the vault only once
/// the vault's transfer went through.
pub proof fn lemma_take_releases_only_after_payment<E>(take: Take, outcome: TakeOutcome, done: int, last: Result<(), E>)
    requires
        take_outcome(take, outcome),
    ensures
        next_call_of(take_calls_of(outcome), done, last) == Ok::<Option<TokenCall>, E>(
            Some(TokenCall::Transfer(outcome.release.transfer)),
        ) ==> done == 1 && last is Ok,
        next_call_of(take_calls_of(outcome), done, last) == Ok::<Option<TokenCall>, E>(
            Some(TokenCall::Close(outcome.release.close)),
        ) ==> done == 2 && last is Ok,
{
}

/// Making an escrow at time `now` is refused for a zero amount whatever the
/// time; with both amounts above zero it is refused with `InvalidExpiry`
/// exactly when the expiry time is not after `now`, and otherwise it orders
/// the deposit of `amount` tokens of mint A from the maker's account into the
/// vault, signed by the maker.
pub proof fn lemma_make_expiry_rule(make: Make, receive: u64, amount: u64, expiry_timestamp: i64, now: i64)
    ensures
        amount == 0 || receive == 0 ==> make_result(make, receive, amount, expiry_timestamp, now)
            == Err::<TransferChecked, EscrowError>(EscrowError::InvalidAmount),
        amount > 0 && receive > 0 && expiry_timestamp <= now ==> make_result(
            make,
            receive,
            amount,
            expiry_timestamp,
            now,
        ) == Err::<TransferChecked, EscrowError>(EscrowError::InvalidExpiry),
        amount > 0 && receive > 0 && now < expiry_timestamp ==> ({
            let r = make_result(make, receive, amount, expiry_timestamp, now);
            &&& r is Ok
            &&& r->Ok_0.from == TokenAccount::MakerAtaA
            &&& r->Ok_0.to == TokenAccount::Vault
            &&& r->Ok_0.authority == crate::cpi::Party::Maker
            &&& r->Ok_0.mint == MintKind::A
            &&& r->Ok_0.amount == amount
        }),
{
}

/// Time only closes the window for making an escrow: what is accepted at
/// time `later` is accepted at every earlier time, and what is refused for
/// its expiry at time `earlier` is refused at every later time.
pub proof fn lemma_make_window_only_closes(
    make: Make,
    receive: u64,
    amount: u64,
    expiry_timestamp: i64,
    earlier: i64,
    later: i64,
)
    requires
        earlier <= later,
    ensures
        make_result(make, receive, amount, expiry_timestamp, later) is Ok ==> make_result(
            make,
            receive,
            amount,
            expiry_timestamp,
            earlier,
        ) is Ok,
        make_result(make, receive, amount, expiry_timestamp, earlier) == Err::<TransferChecked, EscrowError>(
            EscrowError::InvalidExpiry,
        ) ==> make_result(make, receive, amount, expiry_timestamp, later) == Err::<
            TransferChecked,
            EscrowError,
        >(EscrowError::InvalidExpiry),
{
}

/// An escrow can be taken at time `now` exactly when `now` is before its
/// expiry time: at the expiry time itself and after it, taking is refused,
/// and once refused it stays refused.
pub proof fn lemma_take_expiry_rule(escrow: Escrow, now: i64, later: i64)
    ensures
        before_expiry(escrow, now) <==> now < escrow.expiry_timestamp,
        !before_expiry(escrow, escrow.expiry_timestamp),
        !before_expiry(escrow, now) && now <= later ==> !before_expiry(escrow, later),
{
}

/// Make and take agree on the expiry time: with both amounts above zero,
/// making the escrow at time `now` is accepted exactly when the escrow it
/// records could still be taken at that same time. An escrow is never made
/// already expired.
pub proof fn lemma_made_escrow_takeable_exactly_when_made(
    make: Make,
    seed: u64,
    receive: u64,
    amount: u64,
    expiry_timestamp: i64,
    bump: u8,
    now: i64,
)
    requires
        amount > 0,
        receive > 0,
    ensures
        make_result(make, receive, amount, expiry_timestamp, now) is Ok <==> before_expiry(
            recorded_escrow(make, seed, receive, bump, expiry_timestamp),
            now,
        ),
{
}

} // verus!
