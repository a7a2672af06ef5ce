//! The token program calls that the escrow instructions order.
//!
//! An instruction does not move tokens itself: it tells which transfer or
//! closing the token program is to carry out, between which of the
//! instruction's accounts, by whose authority and for how much.
use vstd::prelude::*;
use crate::address::signer_seeds_of;
use crate::state::Escrow;

verus! {

/// The token accounts that the instructions name.
#[derive(Clone, Copy, Debug, PartialEq, Eq, Structural)]
pub enum TokenAccount {
    /// The maker's account of mint A.
    MakerAtaA,
    /// The maker's account of mint B.
    MakerAtaB,
    /// The taker's account of mint A.
    TakerAtaA,
    /// The taker's account of mint B.
    TakerAtaB,
    /// The escrow's account of mint A, which holds the deposit.
    Vault,
}

/// The two mints of an escrow.
#[derive(Clone, Copy, Debug, PartialEq, Eq, Structural)]
pub enum MintKind {
    /// The mint of the deposited tokens.
    A,
    /// The mint of the tokens asked for.
    B,
}

/// The parties that sign for a call or receive an account's rent.
#[derive(Clone, Copy, Debug, PartialEq, Eq, Structural)]
pub enum Party {
    /// The maker, by its own signature.
    Maker,
    /// The taker, by its own signature.
    Taker,
    /// The escrow account, by the program's signature with the escrow's seeds.
    Escrow,
}

/// A checked transfer of `amount` tokens of `mint`, whose decimals are
/// `decimals`, from one token account to another.
#[derive(Clone, Copy, Debug, PartialEq, Eq, Structural)]
pub struct TransferChecked {
    pub from: TokenAccount,
    pub to: TokenAccount,
    pub authority: Party,
    pub mint: MintKind,
    pub amount: u64,
    pub decimals: u8,
}

/// The closing of a token account, whose rent goes to `destination`.
#[derive(Clone, Copy, Debug, PartialEq, Eq, Structural)]
pub struct CloseAccount {
    pub account: TokenAccount,
    pub destination: Party,
    pub authority: Party,
}

/// The release of the vault: a transfer out of it and its closing, both
/// signed by the escrow with `signer_seeds`.
#[derive(Debug)]
pub struct VaultRelease {
    pub signer_seeds: Vec<Vec<u8>>,
    pub transfer: TransferChecked,
    pub close: CloseAccount,
}

/// One call of the token program.
#[derive(Clone, Copy, Debug, PartialEq, Eq, Structural)]
pub enum TokenCall {
    Transfer(TransferChecked),
    Close(CloseAccount),
}

/// The calls of a vault release, in the order they are carried out: the
/// transfer out of the vault, then its closing.
pub open spec fn release_calls_of(release: VaultRelease) -> Seq<TokenCall> {
    seq![TokenCall::Transfer(release.transfer), TokenCall::Close(release.close)]
}

/// What comes after `done` of `calls` have been carried out, the last of them
/// with outcome `last` (`Ok` where none has been carried out yet): that
/// error, where the last call failed; else the next call, or `None` when all
/// are done.
pub open spec fn next_call_of<E>(calls: Seq<TokenCall>, done: int, last: Result<(), E>) -> Result<Option<TokenCall>, E> {
    match last {
        Err(e) => Err(e),
        Ok(()) => Ok(if 0 <= done < calls.len() { Some(calls[done]) } else { None }),
    }
}

/// The mint of the tokens that an account holds.
pub open spec fn mint_of(account: TokenAccount) -> MintKind {
    match account {
        TokenAccount::MakerAtaA => MintKind::A,
        TokenAccount::TakerAtaA => MintKind::A,
        TokenAccount::Vault => MintKind::A,
        TokenAccount::MakerAtaB => MintKind::B,
        TokenAccount::TakerAtaB => MintKind::B,
    }
}

/// Whether a transfer moves tokens between two accounts of the mint it names.
pub open spec fn well_minted(t: TransferChecked) -> bool {
    &&& mint_of(t.from) == t.mint
    &&& mint_of(t.to) == t.mint
}

/// By how much a sequence of transfers changes the balance of `account`:
/// what comes in less what goes out.
pub open spec fn net_change(transfers: Seq<TransferChecked>, account: TokenAccount) -> int
    decreases transfers.len(),
{
    if transfers.len() == 0 {
        0
    } else {
        let t = transfers.last();
        let rest = net_change(transfers.drop_last(), account);
        let incoming = if t.to == account { t.amount as int } else { 0 };
        let outgoing = if t.from == account { t.amount as int } else { 0 };
        rest + incoming - outgoing
    }
}

/// By how much a sequence of transfers changes the sum of the balances of the
/// accounts of `mint`.
pub open spec fn mint_total_change(transfers: Seq<TransferChecked>, mint: MintKind) -> int {
    match mint {
        MintKind::A => net_change(transfers, TokenAccount::MakerAtaA)
            + net_change(transfers, TokenAccount::TakerAtaA)
            + net_change(transfers, TokenAccount::Vault),
        MintKind::B => net_change(transfers, TokenAccount::MakerAtaB)
            + net_change(transfers, TokenAccount::TakerAtaB),
    }
}

/// The closing of the vault, signed by the escrow, whose rent goes to the
/// maker.
pub open spec fn close_vault_to_maker() -> CloseAccount {
    CloseAccount { account: TokenAccount::Vault, destination: Party::Maker, authority: Party::Escrow }
}

/// Whether `release` moves what `transfer` says out of the vault and then
/// closes the vault, both signed with the seeds of `escrow`.
pub open spec fn releases(release: VaultRelease, escrow: Escrow, transfer: TransferChecked) -> bool {
    &&& release.signer_seeds.deep_view() == signer_seeds_of(escrow)
    &&& release.transfer == transfer
    &&& release.close == close_vault_to_maker()
}

/// Whether the token accounts `balances` holds (an account absent from it
/// does not exist) allow `t`: both accounts exist and the source holds at
/// least the amount.
pub open spec fn can_transfer(balances: Map<TokenAccount, int>, t: TransferChecked) -> bool {
    &&& balances.dom().contains(t.from)
    &&& balances.dom().contains(t.to)
    &&& balances[t.from] >= t.amount
}

/// The balances after `t`: the amount leaves the source and reaches the
/// destination.
pub open spec fn after_transfer(balances: Map<TokenAccount, int>, t: TransferChecked) -> Map<TokenAccount, int> {
    let debited = balances.insert(t.from, balances[t.from] - t.amount);
    debited.insert(t.to, debited[t.to] + t.amount)
}

/// Whether `balances` allows `c`: the account exists and is empty.
pub open spec fn can_close(balances: Map<TokenAccount, int>, c: CloseAccount) -> bool {
    &&& balances.dom().contains(c.account)
    &&& balances[c.account] == 0
}

/// The token accounts after `c`: the closed account no longer exists.
pub open spec fn after_close(balances: Map<TokenAccount, int>, c: CloseAccount) -> Map<TokenAccount, int> {
    balances.remove(c.account)
}

/// The calls of a vault release, in the order they are carried out: the
/// transfer out of the vault, then its closing.
pub fn release_calls(release: &VaultRelease) -> (calls: Vec<TokenCall>)
    ensures
        calls@ == release_calls_of(*release),
{
    let mut calls: Vec<TokenCall> = Vec::new();
    calls.push(TokenCall::Transfer(release.transfer));
    calls.push(TokenCall::Close(release.close));
    assert(calls@ =~= release_calls_of(*release));
    calls
}

/// The next step of carrying out `calls` one after the other, where `done`
/// of them have been carried out and `last` is the outcome of the last one
/// (`Ok` before the first): the last call's error stops the run and is
/// returned; else the next call is given, or `None` once all are done. So
/// each call is made only after every call before it went through.
pub fn next_call<E>(calls: &Vec<TokenCall>, done: usize, last: Result<(), E>) -> (res: Result<Option<TokenCall>, E>)
    ensures
        res == next_call_of(calls@, done as int, last),
{
    match last {
        Err(e) => Err(e),
        Ok(()) => {
            if done < calls.len() {
                Ok(Some(calls[done]))
            } else {
                Ok(None)
            }
        },
    }
}

/// The closing of the vault, signed by the escrow, whose rent goes to the
/// maker.
pub fn close_vault() -> (c: CloseAccount)
    ensures
        c == close_vault_to_maker(),
{
    CloseAccount { account: TokenAccount::Vault, destination: Party::Maker, authority: Party::Escrow }
}

} // verus!
