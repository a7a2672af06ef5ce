//! Refunding an escrow: the maker takes its deposit back and the vault is
//! closed, at any time.
use vstd::prelude::*;
use crate::address::{check_escrow_address, program_address, signer_seeds, signer_seeds_of};
use crate::cpi::{close_vault, releases, MintKind, Party, TokenAccount, TransferChecked, VaultRelease};
use crate::error::InstructionError;
use crate::state::{same_address, Address, Escrow};

verus! {

/// What the refund instruction reads of its accounts.
#[derive(Clone, Copy, Debug)]
pub struct Refund {
    /// The maker's address.
    pub maker: Address,
    /// The mint of the deposited tokens.
    pub mint_a: Address,
    /// The decimals of mint A.
    pub mint_a_decimals: u8,
    /// The escrow account's record.
    pub escrow: Escrow,
    /// How many tokens the vault holds.
    pub vault_amount: u64,
}

/// Whether the escrow's record names the accounts that the refund instruction
/// was given: mint A and the maker.
pub open spec fn refund_has_ones(refund: Refund) -> bool {
    &&& refund.escrow.mint_a@ == refund.mint_a@
    &&& refund.escrow.maker@ == refund.maker@
}

/// What the account checks of the refund instruction give: the escrow account
/// must be at the address of its seeds and bump, then its record must name
/// mint A and the maker.
pub open spec fn refund_accounts_result(refund: Refund, escrow_key: Seq<u8>, program_id: Seq<u8>) -> Result<(), InstructionError> {
    if program_address(signer_seeds_of(refund.escrow), program_id) != Some(escrow_key) {
        Err(InstructionError::ConstraintSeeds)
    } else if !refund_has_ones(refund) {
        Err(InstructionError::ConstraintHasOne)
    } else {
        Ok(())
    }
}

/// The transfer of all that the vault holds back to the maker's account of
/// mint A, signed by the escrow.
pub open spec fn vault_to_maker_of(refund: Refund) -> TransferChecked {
    TransferChecked {
        from: TokenAccount::Vault,
        to: TokenAccount::MakerAtaA,
        authority: Party::Escrow,
        mint: MintKind::A,
        amount: refund.vault_amount,
        decimals: refund.mint_a_decimals,
    }
}

impl Refund {
    /// Checks that the escrow account at `escrow_key` is at the address of its
    /// seeds and bump under `program_id`, then that its record names mint A
    /// and the maker that the instruction was given.
    pub fn validate_accounts(&self, escrow_key: &Address, program_id: &Address) -> (res: Result<(), InstructionError>)
        ensures
            res == refund_accounts_result(*self, escrow_key@, program_id@),
    {
        check_escrow_address(&self.escrow, escrow_key, program_id)?;
        if !same_address(&self.escrow.mint_a, &self.mint_a) {
            return Err(InstructionError::ConstraintHasOne);
        }
        if !same_address(&self.escrow.maker, &self.maker) {
            return Err(InstructionError::ConstraintHasOne);
        }
        Ok(())
    }

    /// The release of all that the vault holds back to the maker, and the
    /// closing of the vault, both signed by the escrow.
    pub fn refund_and_close_vault(&self) -> (r: VaultRelease)
        ensures
            releases(r, self.escrow, vault_to_maker_of(*self)),
    {
        let transfer = TransferChecked {
            from: TokenAccount::Vault,
            to: TokenAccount::MakerAtaA,
            authority: Party::Escrow,
            mint: MintKind::A,
            amount: self.vault_amount,
            decimals: self.mint_a_decimals,
        };
        VaultRelease { signer_seeds: signer_seeds(&self.escrow), transfer, close: close_vault() }
    }
}

/// Refunds the escrow: the maker's deposit goes back and the vault is closed.
/// No time is checked: a refund is never refused by the escrow's rules.
pub fn refund(ctx: &Refund) -> (r: VaultRelease)
    ensures
        releases(r, ctx.escrow, vault_to_maker_of(*ctx)),
{
    ctx.refund_and_close_vault()
}

/// Refunds the escrow after the account checks: the escrow account at
/// `escrow_key` must be at the address of its seeds and bump under
/// `program_id`, and its record must name the given mint A and maker. Where a
/// check fails, its error is returned and nothing is released.
pub fn refund_checked(ctx: &Refund, escrow_key: &Address, program_id: &Address) -> (res: Result<VaultRelease, InstructionError>)
    ensures
        refund_accounts_result(*ctx, escrow_key@, program_id@) matches Err(e) ==> res
            == Err::<VaultRelease, InstructionError>(e),
        res is Ok <==> refund_accounts_result(*ctx, escrow_key@, program_id@) is Ok,
        res matches Ok(r) ==> releases(r, ctx.escrow, vault_to_maker_of(*ctx)),
{
    ctx.validate_accounts(escrow_key, program_id)?;
    Ok(refund(ctx))
}

} // verus!
