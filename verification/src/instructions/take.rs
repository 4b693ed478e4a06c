use vstd::prelude::*;

use crate::accounts::{
    AccountRef, AssociatedSlot, MintAccount, TokenAccount, check_associated,
    check_associated_if_needed, check_close, check_distinct, check_escrow_address,
    check_has_one, check_program_key, check_program_owned, check_signer, check_system_owned,
    check_token_interface, check_token_owned, check_writable, spec_check_associated,
    spec_check_associated_if_needed, spec_check_close, spec_check_distinct,
    spec_check_escrow_address, spec_check_has_one, spec_check_program_key,
    spec_check_program_owned, spec_check_signer, spec_check_system_owned,
    spec_check_token_interface, spec_check_token_owned, spec_check_writable,
};
use crate::address::Address;
use crate::cpi::{is_close_account, is_transfer_checked, TokenCpi};
use crate::error::EscrowError;
use crate::programs::{
    associated_token_program_id, spec_associated_token_program_id, spec_system_program_id,
    spec_token_program_id, system_program_id, token_program_id,
};
use crate::state::{escrow_signer_seeds, spec_escrow_signer_seeds, EscrowAccount};

verus! {

/// The accounts of the `take` instruction.
///
/// - `taker`: signer, writable; pays for any token account created here.
/// - `maker`: a System account, writable; receives the rent of the closed
///   escrow and vault.
/// - `escrow`: the program's escrow account holding `escrow_data`; writable,
///   closed to `maker`, and its record must name `mint_a`, `mint_b` and
///   `maker`; its address must be the one its seed and bump derive.
/// - `mint_a`, `mint_b`: mints owned by a token program.
/// - `taker_ata_a`, `taker_ata_b`, `maker_ata_b`: associated token accounts
///   (of taker for `mint_a`, of taker for `mint_b`, of maker for `mint_b`),
///   created when missing.
/// - `vault`: the escrow's associated token account for `mint_a`, writable.
/// - `system_program`, `token_program`, `associated_token_program`.
#[derive(Clone, Copy, Debug)]
pub struct Take {
    pub taker: AccountRef,
    pub maker: AccountRef,
    pub escrow: AccountRef,
    pub escrow_data: EscrowAccount,
    pub mint_a: MintAccount,
    pub mint_b: MintAccount,
    pub taker_ata_a: AssociatedSlot,
    pub taker_ata_b: AssociatedSlot,
    pub maker_ata_b: AssociatedSlot,
    pub vault: TokenAccount,
    pub system_program: AccountRef,
    pub token_program: AccountRef,
    pub associated_token_program: AccountRef,
}

impl Take {
    /// The writable accounts of the program's types, which must all differ.
    pub open spec fn spec_mutable_keys(self) -> Seq<Address> {
        seq![
            self.escrow.key,
            self.taker_ata_a.info().key,
            self.taker_ata_b.info().key,
            self.maker_ata_b.info().key,
            self.vault.info.key,
        ]
    }

    /// The account checks of `take`, in the order they are made: the account
    /// types; the associated token accounts created when missing (each then
    /// writable); no writable account twice; then the constraints on
    /// `taker`, `maker`, `escrow` (seeds, `mut`, `has_one` for `mint_a`,
    /// `mint_b`, `maker`, not closed into itself) and `vault`.
    pub open spec fn spec_try_accounts(self, program_id: Seq<u8>) -> Result<(), EscrowError> {
        if spec_check_signer(self.taker) is Err {
            spec_check_signer(self.taker)
        } else if spec_check_system_owned(self.maker) is Err {
            spec_check_system_owned(self.maker)
        } else if spec_check_program_owned(self.escrow, program_id) is Err {
            spec_check_program_owned(self.escrow, program_id)
        } else if spec_check_token_owned(self.mint_a.info) is Err {
            spec_check_token_owned(self.mint_a.info)
        } else if spec_check_token_owned(self.mint_b.info) is Err {
            spec_check_token_owned(self.mint_b.info)
        } else if spec_check_token_owned(self.vault.info) is Err {
            spec_check_token_owned(self.vault.info)
        } else if spec_check_program_key(self.system_program, spec_system_program_id()) is Err {
            spec_check_program_key(self.system_program, spec_system_program_id())
        } else if spec_check_token_interface(self.token_program) is Err {
            spec_check_token_interface(self.token_program)
        } else if spec_check_program_key(self.associated_token_program, spec_associated_token_program_id()) is Err {
            spec_check_program_key(self.associated_token_program, spec_associated_token_program_id())
        } else if spec_check_associated_if_needed(self.taker_ata_a, self.taker, self.taker.key@, self.mint_a.info.key@, self.token_program.key@) is Err {
            spec_check_associated_if_needed(self.taker_ata_a, self.taker, self.taker.key@, self.mint_a.info.key@, self.token_program.key@)
        } else if spec_check_writable(self.taker_ata_a.info()) is Err {
            spec_check_writable(self.taker_ata_a.info())
        } else if spec_check_associated_if_needed(self.taker_ata_b, self.taker, self.taker.key@, self.mint_b.info.key@, self.token_program.key@) is Err {
            spec_check_associated_if_needed(self.taker_ata_b, self.taker, self.taker.key@, self.mint_b.info.key@, self.token_program.key@)
        } else if spec_check_writable(self.taker_ata_b.info()) is Err {
            spec_check_writable(self.taker_ata_b.info())
        } else if spec_check_associated_if_needed(self.maker_ata_b, self.taker, self.maker.key@, self.mint_b.info.key@, self.token_program.key@) is Err {
            spec_check_associated_if_needed(self.maker_ata_b, self.taker, self.maker.key@, self.mint_b.info.key@, self.token_program.key@)
        } else if spec_check_writable(self.maker_ata_b.info()) is Err {
            spec_check_writable(self.maker_ata_b.info())
        } else if spec_check_distinct(self.spec_mutable_keys()) is Err {
            spec_check_distinct(self.spec_mutable_keys())
        } else if spec_check_writable(self.taker) is Err {
            spec_check_writable(self.taker)
        } else if spec_check_writable(self.maker) is Err {
            spec_check_writable(self.maker)
        } else if spec_check_escrow_address(self.escrow.key@, self.maker.key@, self.escrow_data.seed, self.escrow_data.bump, program_id) is Err {
            spec_check_escrow_address(self.escrow.key@, self.maker.key@, self.escrow_data.seed, self.escrow_data.bump, program_id)
        } else if spec_check_writable(self.escrow) is Err {
            spec_check_writable(self.escrow)
        } else if spec_check_has_one(self.escrow_data.mint_a, self.mint_a.info.key) is Err {
            spec_check_has_one(self.escrow_data.mint_a, self.mint_a.info.key)
        } else if spec_check_has_one(self.escrow_data.mint_b, self.mint_b.info.key) is Err {
            spec_check_has_one(self.escrow_data.mint_b, self.mint_b.info.key)
        } else if spec_check_has_one(self.escrow_data.maker, self.maker.key) is Err {
            spec_check_has_one(self.escrow_data.maker, self.maker.key)
        } else if spec_check_close(self.escrow.key, self.maker.key) is Err {
            spec_check_close(self.escrow.key, self.maker.key)
        } else if spec_check_associated(self.vault, self.escrow.key@, self.mint_a.info.key@, self.token_program.key@) is Err {
            spec_check_associated(self.vault, self.escrow.key@, self.mint_a.info.key@, self.token_program.key@)
        } else {
            spec_check_writable(self.vault.info)
        }
    }

    /// Checks the accounts of `take`.
    pub fn try_accounts(&self, program_id: &Address) -> (r: Result<(), EscrowError>)
        ensures
            r == self.spec_try_accounts(program_id@),
    {
        let tp = &self.token_program.key;
        check_signer(&self.taker)?;
        check_system_owned(&self.maker)?;
        check_program_owned(&self.escrow, program_id)?;
        check_token_owned(&self.mint_a.info)?;
        check_token_owned(&self.mint_b.info)?;
        check_token_owned(&self.vault.info)?;
        check_program_key(&self.system_program, &system_program_id())?;
        check_token_interface(&self.token_program)?;
        check_program_key(&self.associated_token_program, &associated_token_program_id())?;
        check_associated_if_needed(&self.taker_ata_a, &self.taker, &self.taker.key, &self.mint_a.info.key, tp)?;
        check_writable(&self.taker_ata_a.account())?;
        check_associated_if_needed(&self.taker_ata_b, &self.taker, &self.taker.key, &self.mint_b.info.key, tp)?;
        check_writable(&self.taker_ata_b.account())?;
        check_associated_if_needed(&self.maker_ata_b, &self.taker, &self.maker.key, &self.mint_b.info.key, tp)?;
        check_writable(&self.maker_ata_b.account())?;
        let mut keys: Vec<Address> = Vec::new();
        keys.push(self.escrow.key);
        keys.push(self.taker_ata_a.key());
        keys.push(self.taker_ata_b.key());
        keys.push(self.maker_ata_b.key());
        keys.push(self.vault.info.key);
        assert(keys@ =~= self.spec_mutable_keys());
        check_distinct(&keys)?;
        check_writable(&self.taker)?;
        check_writable(&self.maker)?;
        check_escrow_address(
            &self.escrow.key,
            &self.maker.key,
            self.escrow_data.seed,
            self.escrow_data.bump,
            program_id,
        )?;
        check_writable(&self.escrow)?;
        check_has_one(&self.escrow_data.mint_a, &self.mint_a.info.key)?;
        check_has_one(&self.escrow_data.mint_b, &self.mint_b.info.key)?;
        check_has_one(&self.escrow_data.maker, &self.maker.key)?;
        check_close(&self.escrow.key, &self.maker.key)?;
        check_associated(&self.vault, &self.escrow.key, &self.mint_a.info.key, tp)?;
        check_writable(&self.vault.info)?;
        Ok(())
    }

    /// The transfer of the wanted `recieve` tokens of `mint_b` from the
    /// taker's account to the maker's, signed by the taker, addressed to the
    /// SPL Token program.
    pub fn transfer_to_maker(&self) -> (r: TokenCpi)
        ensures
            is_transfer_checked(
                r,
                spec_token_program_id(),
                self.taker_ata_b.info().key@,
                self.mint_b.info.key@,
                self.maker_ata_b.info().key@,
                self.taker.key@,
                self.escrow_data.recieve,
                self.mint_b.decimals,
                None,
            ),
    {
        TokenCpi::TransferChecked {
            token_program: token_program_id(),
            from: self.taker_ata_b.key(),
            mint: self.mint_b.info.key,
            to: self.maker_ata_b.key(),
            authority: self.taker.key,
            amount: self.escrow_data.recieve,
            decimals: self.mint_b.decimals,
            signer_seeds: None,
        }
    }

    /// The escrow's signer seeds `["escrow", maker, seed, [bump]]`.
    pub open spec fn spec_signer_seeds(self) -> Seq<Seq<u8>> {
        spec_escrow_signer_seeds(self.maker.key@, self.escrow_data.seed, self.escrow_data.bump)
    }

    /// The transfer of the whole vault to the taker's `mint_a` account, then
    /// the closing of the vault with its rent to the maker; both signed by
    /// the escrow with its signer seeds and addressed to the SPL Token program.
    pub fn withdraw_and_close_vault(&self) -> (r: Vec<TokenCpi>)
        ensures
            r@.len() == 2,
            is_transfer_checked(
                r@[0],
                spec_token_program_id(),
                self.vault.info.key@,
                self.mint_a.info.key@,
                self.taker_ata_a.info().key@,
                self.escrow.key@,
                self.vault.amount,
                self.mint_a.decimals,
                Some(self.spec_signer_seeds()),
            ),
            is_close_account(
                r@[1],
                spec_token_program_id(),
                self.vault.info.key@,
                self.maker.key@,
                self.escrow.key@,
                Some(self.spec_signer_seeds()),
            ),
    {
        let transfer = TokenCpi::TransferChecked {
            token_program: token_program_id(),
            from: self.vault.info.key,
            mint: self.mint_a.info.key,
            to: self.taker_ata_a.key(),
            authority: self.escrow.key,
            amount: self.vault.amount,
            decimals: self.mint_a.decimals,
            signer_seeds: Some(
                escrow_signer_seeds(&self.maker.key, self.escrow_data.seed, self.escrow_data.bump),
            ),
        };
        let close = TokenCpi::CloseAccount {
            token_program: token_program_id(),
            account: self.vault.info.key,
            destination: self.maker.key,
            authority: self.escrow.key,
            signer_seeds: Some(
                escrow_signer_seeds(&self.maker.key, self.escrow_data.seed, self.escrow_data.bump),
            ),
        };
        let mut r: Vec<TokenCpi> = Vec::new();
        r.push(transfer);
        r.push(close);
        r
    }
}

/// The calls the body of `take` makes, in order.
pub open spec fn handler_cpis(accounts: Take, cpis: Seq<TokenCpi>) -> bool {
    &&& cpis.len() == 3
    &&& is_transfer_checked(
        cpis[0],
        spec_token_program_id(),
        accounts.taker_ata_b.info().key@,
        accounts.mint_b.info.key@,
        accounts.maker_ata_b.info().key@,
        accounts.taker.key@,
        accounts.escrow_data.recieve,
        accounts.mint_b.decimals,
        None,
    )
    &&& is_transfer_checked(
        cpis[1],
        spec_token_program_id(),
        accounts.vault.info.key@,
        accounts.mint_a.info.key@,
        accounts.taker_ata_a.info().key@,
        accounts.escrow.key@,
        accounts.vault.amount,
        accounts.mint_a.decimals,
        Some(accounts.spec_signer_seeds()),
    )
    &&& is_close_account(
        cpis[2],
        spec_token_program_id(),
        accounts.vault.info.key@,
        accounts.maker.key@,
        accounts.escrow.key@,
        Some(accounts.spec_signer_seeds()),
    )
}

/// The body of `take` once its accounts are checked: the taker pays the
/// maker `recieve` tokens of `mint_b`, then the escrow hands the whole vault
/// to the taker and closes it.
pub fn handler(accounts: &Take) -> (r: Vec<TokenCpi>)
    ensures
        handler_cpis(*accounts, r@),
{
    let mut r: Vec<TokenCpi> = Vec::new();
    r.push(accounts.transfer_to_maker());
    let mut rest = accounts.withdraw_and_close_vault();
    r.append(&mut rest);
    r
}

} // verus!
