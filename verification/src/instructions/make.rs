use vstd::prelude::*;

use crate::accounts::{
    AccountRef, MintAccount, TokenAccount, check_associated, check_init, check_init_associated,
    check_mint_token_program, spec_check_init, spec_check_init_associated,
    check_program_key, check_signer, check_token_interface, check_token_owned, check_writable,
    spec_check_associated, spec_check_mint_token_program, spec_check_program_key,
    spec_check_signer, spec_check_token_interface, spec_check_token_owned, spec_check_writable,
};
use crate::address::Address;
use crate::cpi::{is_transfer_checked, TokenCpi};
use crate::error::EscrowError;
use crate::pda::{spec_find_program_address, try_find_program_address};
use crate::programs::{
    associated_token_program_id, spec_associated_token_program_id, spec_system_program_id,
    spec_token_program_id, system_program_id, token_program_id,
};
use crate::state::{escrow_seeds, spec_escrow_seeds, EscrowAccount};

verus! {

/// The accounts of the `make` instruction.
///
/// - `maker`: signer, writable; pays for the new accounts.
/// - `escrow`: created here at the program address of
///   `["escrow", maker, seed]`; `escrow_data` is the record it holds.
/// - `mint_a`, `mint_b`: mints owned by `token_program`.
/// - `maker_ata_a`: the maker's associated token account for `mint_a`, writable.
/// - `vault`: created here as the escrow's associated token account for `mint_a`.
/// - `token_program`, `associated_token_program`, `system_program`.
#[derive(Clone, Copy, Debug)]
pub struct Make {
    pub maker: AccountRef,
    pub escrow: AccountRef,
    pub escrow_data: Option<EscrowAccount>,
    pub mint_a: MintAccount,
    pub mint_b: MintAccount,
    pub maker_ata_a: TokenAccount,
    pub vault: AccountRef,
    pub token_program: AccountRef,
    pub associated_token_program: AccountRef,
    pub system_program: AccountRef,
}

/// The bump seeds found while checking the `make` accounts.
#[derive(Clone, Copy, Debug, PartialEq, Eq)]
pub struct MakeBumps {
    pub escrow: u8,
}

impl Make {
    /// The account checks of `make`, in the order they are made: the account
    /// types (signer, token-program ownership, program ids); then the
    /// accounts created here: the escrow's address against its seeds (which
    /// yields the bump), the escrow still missing, the vault at the escrow's
    /// associated address for `mint_a` and still missing; then the `mut`,
    /// `mint::token_program` and `associated_token` constraints.
    pub open spec fn spec_try_accounts(self, program_id: Seq<u8>, seed: u64) -> Result<
        MakeBumps,
        EscrowError,
    > {
        if spec_check_signer(self.maker) is Err {
            Err(spec_check_signer(self.maker)->Err_0)
        } else if spec_check_token_owned(self.mint_a.info) is Err {
            Err(spec_check_token_owned(self.mint_a.info)->Err_0)
        } else if spec_check_token_owned(self.mint_b.info) is Err {
            Err(spec_check_token_owned(self.mint_b.info)->Err_0)
        } else if spec_check_token_owned(self.maker_ata_a.info) is Err {
            Err(spec_check_token_owned(self.maker_ata_a.info)->Err_0)
        } else if spec_check_token_interface(self.token_program) is Err {
            Err(spec_check_token_interface(self.token_program)->Err_0)
        } else if spec_check_program_key(self.associated_token_program, spec_associated_token_program_id()) is Err {
            Err(spec_check_program_key(self.associated_token_program, spec_associated_token_program_id())->Err_0)
        } else if spec_check_program_key(self.system_program, spec_system_program_id()) is Err {
            Err(spec_check_program_key(self.system_program, spec_system_program_id())->Err_0)
        } else {
            match spec_find_program_address(spec_escrow_seeds(self.maker.key@, seed), program_id) {
                None => Err(EscrowError::PdaNotFound),
                Some((pda, bump)) => if self.escrow.key@ != pda {
                    Err(EscrowError::ConstraintSeeds)
                } else {
                    match self.spec_constraints() {
                        Err(e) => Err(e),
                        Ok(()) => Ok(MakeBumps { escrow: bump }),
                    }
                },
            }
        }
    }

    /// The checks of `make` after the escrow's address: the escrow created
    /// (and writable), the vault created as the escrow's associated token
    /// account for `mint_a` (and writable), the maker paying for both; then
    /// the `mut`, `mint::token_program` and `associated_token` constraints of
    /// the other accounts.
    pub open spec fn spec_constraints(self) -> Result<(), EscrowError> {
        if spec_check_init(self.escrow, self.maker) is Err {
            spec_check_init(self.escrow, self.maker)
        } else if spec_check_writable(self.escrow) is Err {
            spec_check_writable(self.escrow)
        } else if spec_check_init_associated(self.vault, self.maker, self.escrow.key@, self.mint_a.info.key@, self.token_program.key@) is Err {
            spec_check_init_associated(self.vault, self.maker, self.escrow.key@, self.mint_a.info.key@, self.token_program.key@)
        } else if spec_check_writable(self.vault) is Err {
            spec_check_writable(self.vault)
        } else if spec_check_writable(self.maker) is Err {
            spec_check_writable(self.maker)
        } else if spec_check_mint_token_program(self.mint_a, self.token_program) is Err {
            spec_check_mint_token_program(self.mint_a, self.token_program)
        } else if spec_check_mint_token_program(self.mint_b, self.token_program) is Err {
            spec_check_mint_token_program(self.mint_b, self.token_program)
        } else if spec_check_associated(self.maker_ata_a, self.maker.key@, self.mint_a.info.key@, self.token_program.key@) is Err {
            spec_check_associated(self.maker_ata_a, self.maker.key@, self.mint_a.info.key@, self.token_program.key@)
        } else {
            spec_check_writable(self.maker_ata_a.info)
        }
    }

    /// Checks the accounts of `make` for the offer with the given `seed`.
    pub fn try_accounts(&self, program_id: &Address, seed: u64) -> (r: Result<
        MakeBumps,
        EscrowError,
    >)
        ensures
            r == self.spec_try_accounts(program_id@, seed),
    {
        check_signer(&self.maker)?;
        check_token_owned(&self.mint_a.info)?;
        check_token_owned(&self.mint_b.info)?;
        check_token_owned(&self.maker_ata_a.info)?;
        check_token_interface(&self.token_program)?;
        check_program_key(&self.associated_token_program, &associated_token_program_id())?;
        check_program_key(&self.system_program, &system_program_id())?;
        let seeds = escrow_seeds(&self.maker.key, seed);
        let bump = match try_find_program_address(&seeds, program_id) {
            None => {
                return Err(EscrowError::PdaNotFound);
            },
            Some((pda, bump)) => {
                if !self.escrow.key.same(&pda) {
                    return Err(EscrowError::ConstraintSeeds);
                }
                bump
            },
        };
        check_init(&self.escrow, &self.maker)?;
        check_writable(&self.escrow)?;
        check_init_associated(
            &self.vault,
            &self.maker,
            &self.escrow.key,
            &self.mint_a.info.key,
            &self.token_program.key,
        )?;
        check_writable(&self.vault)?;
        check_writable(&self.maker)?;
        check_mint_token_program(&self.mint_a, &self.token_program)?;
        check_mint_token_program(&self.mint_b, &self.token_program)?;
        check_associated(
            &self.maker_ata_a,
            &self.maker.key,
            &self.mint_a.info.key,
            &self.token_program.key,
        )?;
        check_writable(&self.maker_ata_a.info)?;
        Ok(MakeBumps { escrow: bump })
    }

    /// The record `make` stores in the escrow account.
    pub open spec fn spec_record(self, seed: u64, recieve: u64, bump: u8) -> EscrowAccount {
        EscrowAccount {
            seed,
            maker: self.maker.key,
            mint_a: self.mint_a.info.key,
            mint_b: self.mint_b.info.key,
            recieve,
            bump,
        }
    }

    /// Writes the escrow record: the seed, the maker, both mints, the number
    /// of `mint_b` tokens wanted (`amount`), and the escrow's bump.
    pub fn populate_escrow(&mut self, seed: u64, amount: u64, bump: u8)
        ensures
            *final(self) == (Make {
                escrow_data: Some(old(self).spec_record(seed, amount, bump)),
                ..*old(self)
            }),
    {
        self.escrow_data = Some(
            EscrowAccount {
                seed,
                maker: self.maker.key,
                mint_a: self.mint_a.info.key,
                mint_b: self.mint_b.info.key,
                recieve: amount,
                bump,
            },
        );
    }

    /// The transfer that locks `amount` tokens of `mint_a` from the maker's
    /// account in the vault, signed by the maker, addressed to the SPL Token
    /// program.
    pub fn deposit_token(&self, amount: u64) -> (r: TokenCpi)
        ensures
            is_transfer_checked(
                r,
                spec_token_program_id(),
                self.maker_ata_a.info.key@,
                self.mint_a.info.key@,
                self.vault.key@,
                self.maker.key@,
                amount,
                self.mint_a.decimals,
                None,
            ),
    {
        TokenCpi::TransferChecked {
            token_program: token_program_id(),
            from: self.maker_ata_a.info.key,
            mint: self.mint_a.info.key,
            to: self.vault.key,
            authority: self.maker.key,
            amount,
            decimals: self.mint_a.decimals,
            signer_seeds: None,
        }
    }
}

/// What the body of `make` does: a zero `amount` or `recieve` is refused
/// with `RequireGtViolated` and nothing changes; otherwise the escrow record
/// (seed, maker, mints, `recieve`, bump) is stored and the one call returned
/// is the maker's transfer of `amount` tokens of `mint_a` into the vault
/// through the SPL Token program.
pub open spec fn handler_outcome(
    before: Make,
    after: Make,
    bumps: MakeBumps,
    seed: u64,
    amount: u64,
    recieve: u64,
    r: Result<Vec<TokenCpi>, EscrowError>,
) -> bool {
    if amount == 0 || recieve == 0 {
        r == Err::<Vec<TokenCpi>, EscrowError>(EscrowError::RequireGtViolated) && after == before
    } else {
        &&& r is Ok
        &&& after == (Make {
            escrow_data: Some(before.spec_record(seed, recieve, bumps.escrow)),
            ..before
        })
        &&& r.unwrap()@.len() == 1
        &&& is_transfer_checked(
            r.unwrap()@[0],
            spec_token_program_id(),
            before.maker_ata_a.info.key@,
            before.mint_a.info.key@,
            before.vault.key@,
            before.maker.key@,
            amount,
            before.mint_a.decimals,
            None,
        )
    }
}

/// The body of `make` once its accounts are checked: refuses a zero `amount`
/// or a zero `recieve`; otherwise stores the escrow record and returns the
/// deposit of `amount` tokens into the vault.
pub fn handler(accounts: &mut Make, bumps: &MakeBumps, seed: u64, amount: u64, recieve: u64) -> (r:
    Result<Vec<TokenCpi>, EscrowError>)
    ensures
        handler_outcome(*old(accounts), *final(accounts), *bumps, seed, amount, recieve, r),
{
    if amount <= 0 {
        return Err(EscrowError::RequireGtViolated);
    }
    if recieve <= 0 {
        return Err(EscrowError::RequireGtViolated);
    }
    accounts.populate_escrow(seed, recieve, bumps.escrow);
    let deposit = accounts.deposit_token(amount);
    let mut cpis: Vec<TokenCpi> = Vec::new();
    cpis.push(deposit);
    Ok(cpis)
}

} // verus!
