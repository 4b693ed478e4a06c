use vstd::prelude::*;

use crate::accounts::{AccountRef, AssociatedSlot, MintAccount, TokenAccount};
use crate::instructions::make::Make;
use crate::instructions::refund::Refund;
use crate::instructions::take::Take;
use crate::pda::{spec_associated_token_address, spec_create_program_address, spec_find_program_address};
use crate::programs::{
    spec_associated_token_program_id, spec_system_program_id, spec_token_2022_program_id,
    spec_token_program_id,
};
use crate::state::{spec_escrow_seeds, spec_escrow_signer_seeds};

verus! {

/// `account` is the executable program `id`.
pub open spec fn is_program(account: AccountRef, id: Seq<u8>) -> bool {
    account.key@ == id && account.executable
}

/// `account` is one of the two token programs, executable.
pub open spec fn is_token_program_account(account: AccountRef) -> bool {
    (account.key@ == spec_token_program_id() || account.key@ == spec_token_2022_program_id())
        && account.executable
}

/// `account` does not exist yet: a System account without data, writable so
/// that it can be created.
pub open spec fn is_fresh(account: AccountRef) -> bool {
    account.owner@ == spec_system_program_id() && account.data_len == 0 && account.is_writable
}

/// `account` is the associated token account of `wallet` for `mint` under
/// `token_program`: owned by that program, holding `mint`, belonging to
/// `wallet`, at the associated address.
pub open spec fn is_associated_account(
    account: TokenAccount,
    wallet: Seq<u8>,
    mint: Seq<u8>,
    token_program: Seq<u8>,
) -> bool {
    &&& account.info.owner@ == token_program
    &&& account.mint@ == mint
    &&& account.owner@ == wallet
    &&& spec_associated_token_address(wallet, mint, token_program) == Some(account.info.key@)
}

/// An associated token account that `take` creates when missing is in place:
/// either it exists as the associated token account, or it is still missing
/// at the associated address; either way writable.
pub open spec fn slot_in_place(
    slot: AssociatedSlot,
    wallet: Seq<u8>,
    mint: Seq<u8>,
    token_program: Seq<u8>,
) -> bool {
    &&& slot.info().is_writable
    &&& match slot {
        AssociatedSlot::Initialized(account) => is_associated_account(
            account,
            wallet,
            mint,
            token_program,
        ),
        AssociatedSlot::Uninitialized(info) => is_fresh(info) && spec_associated_token_address(
            wallet,
            mint,
            token_program,
        ) == Some(info.key@),
    }
}

/// `make` accepts every well-formed first offer: the maker signed and is
/// writable; the escrow is the canonical program address of `["escrow",
/// maker, seed]`, still missing (whatever lamports it already holds) and not
/// the maker; the vault is the escrow's missing associated token account for
/// `mint_a`; both mints and the maker's associated `mint_a` account (writable)
/// belong to the token program passed; the three programs are the right
/// executables. The bump it reports is the canonical one. Neither the
/// balances nor the decimals play any part.
pub proof fn make_accepts_first_offer(accounts: Make, program_id: Seq<u8>, seed: u64)
    requires
        accounts.maker.is_signer,
        accounts.maker.is_writable,
        spec_find_program_address(spec_escrow_seeds(accounts.maker.key@, seed), program_id)
            is Some,
        accounts.escrow.key@ == spec_find_program_address(
            spec_escrow_seeds(accounts.maker.key@, seed),
            program_id,
        ).unwrap().0,
        accounts.escrow.key@ != accounts.maker.key@,
        is_fresh(accounts.escrow),
        is_fresh(accounts.vault),
        spec_associated_token_address(
            accounts.escrow.key@,
            accounts.mint_a.info.key@,
            accounts.token_program.key@,
        ) == Some(accounts.vault.key@),
        is_token_program_account(accounts.token_program),
        is_program(accounts.associated_token_program, spec_associated_token_program_id()),
        is_program(accounts.system_program, spec_system_program_id()),
        accounts.mint_a.info.owner@ == accounts.token_program.key@,
        accounts.mint_b.info.owner@ == accounts.token_program.key@,
        is_associated_account(
            accounts.maker_ata_a,
            accounts.maker.key@,
            accounts.mint_a.info.key@,
            accounts.token_program.key@,
        ),
        accounts.maker_ata_a.info.is_writable,
    ensures
        accounts.spec_try_accounts(program_id, seed) is Ok,
        accounts.spec_try_accounts(program_id, seed).unwrap().escrow == spec_find_program_address(
            spec_escrow_seeds(accounts.maker.key@, seed),
            program_id,
        ).unwrap().1,
{
}

/// `take` accepts every offer in place: the taker signed and is writable;
/// the maker is a writable System account; the escrow is a writable account
/// of this program, at the address its record's seed and bump derive, not
/// the maker, and its record names the maker and both mints passed; the
/// vault is the escrow's writable associated `mint_a` account; the taker's two
/// accounts and the maker's `mint_b` account are in place (existing or still
/// missing at their associated addresses); the five writable accounts all
/// differ; both mints belong to the token program passed; the three programs
/// are the right executables. Neither balances, decimals nor frozen states
/// play any part.
pub proof fn take_accepts_offer_in_place(accounts: Take, program_id: Seq<u8>)
    requires
        program_id != spec_system_program_id(),
        accounts.taker.is_signer,
        accounts.taker.is_writable,
        accounts.maker.owner@ == spec_system_program_id(),
        accounts.maker.is_writable,
        accounts.escrow.owner@ == program_id,
        accounts.escrow.is_writable,
        accounts.escrow.key@ != accounts.maker.key@,
        spec_create_program_address(
            spec_escrow_signer_seeds(
                accounts.maker.key@,
                accounts.escrow_data.seed,
                accounts.escrow_data.bump,
            ),
            program_id,
        ) == Some(accounts.escrow.key@),
        accounts.escrow_data.maker@ == accounts.maker.key@,
        accounts.escrow_data.mint_a@ == accounts.mint_a.info.key@,
        accounts.escrow_data.mint_b@ == accounts.mint_b.info.key@,
        is_token_program_account(accounts.token_program),
        is_program(accounts.associated_token_program, spec_associated_token_program_id()),
        is_program(accounts.system_program, spec_system_program_id()),
        accounts.mint_a.info.owner@ == accounts.token_program.key@,
        accounts.mint_b.info.owner@ == accounts.token_program.key@,
        accounts.vault.info.owner@ == accounts.token_program.key@,
        accounts.vault.owner@ == accounts.escrow.key@,
        accounts.vault.info.is_writable,
        spec_associated_token_address(
            accounts.escrow.key@,
            accounts.mint_a.info.key@,
            accounts.token_program.key@,
        ) == Some(accounts.vault.info.key@),
        slot_in_place(
            accounts.taker_ata_a,
            accounts.taker.key@,
            accounts.mint_a.info.key@,
            accounts.token_program.key@,
        ),
        slot_in_place(
            accounts.taker_ata_b,
            accounts.taker.key@,
            accounts.mint_b.info.key@,
            accounts.token_program.key@,
        ),
        slot_in_place(
            accounts.maker_ata_b,
            accounts.maker.key@,
            accounts.mint_b.info.key@,
            accounts.token_program.key@,
        ),
        ({
            let e = accounts.escrow.key@;
            let ta = accounts.taker_ata_a.info().key@;
            let tb = accounts.taker_ata_b.info().key@;
            let mb = accounts.maker_ata_b.info().key@;
            let v = accounts.vault.info.key@;
            &&& e != ta && e != tb && e != mb && e != v
            &&& ta != tb && ta != mb && ta != v
            &&& tb != mb && tb != v
            &&& mb != v
        }),
    ensures
        accounts.spec_try_accounts(program_id) is Ok,
{
}

/// `refund` accepts every offer in place: the maker signed and is writable;
/// the escrow is a writable account of this program, at the address its
/// record's seed and bump derive, not the maker, and its record names the
/// maker and both mints passed; the maker's associated `mint_a` account and
/// the vault (the escrow's associated `mint_a` account) are writable and
/// differ from each other and from the escrow; both mints belong to the token
/// program passed; the three programs are the right executables. Neither
/// balances, decimals nor frozen states play any part.
pub proof fn refund_accepts_offer_in_place(accounts: Refund, program_id: Seq<u8>)
    requires
        program_id != spec_system_program_id(),
        accounts.maker.is_signer,
        accounts.maker.is_writable,
        accounts.escrow.owner@ == program_id,
        accounts.escrow.is_writable,
        accounts.escrow.key@ != accounts.maker.key@,
        spec_create_program_address(
            spec_escrow_signer_seeds(
                accounts.maker.key@,
                accounts.escrow_data.seed,
                accounts.escrow_data.bump,
            ),
            program_id,
        ) == Some(accounts.escrow.key@),
        accounts.escrow_data.maker@ == accounts.maker.key@,
        accounts.escrow_data.mint_a@ == accounts.mint_a.info.key@,
        accounts.escrow_data.mint_b@ == accounts.mint_b.info.key@,
        is_token_program_account(accounts.token_program),
        is_program(accounts.associated_token_program, spec_associated_token_program_id()),
        is_program(accounts.system_program, spec_system_program_id()),
        accounts.mint_a.info.owner@ == accounts.token_program.key@,
        accounts.mint_b.info.owner@ == accounts.token_program.key@,
        is_associated_account(
            accounts.maker_ata_a,
            accounts.maker.key@,
            accounts.mint_a.info.key@,
            accounts.token_program.key@,
        ),
        accounts.maker_ata_a.info.is_writable,
        is_associated_account(
            accounts.vault,
            accounts.escrow.key@,
            accounts.mint_a.info.key@,
            accounts.token_program.key@,
        ),
        accounts.vault.info.is_writable,
        accounts.escrow.key@ != accounts.maker_ata_a.info.key@,
        accounts.escrow.key@ != accounts.vault.info.key@,
        accounts.maker_ata_a.info.key@ != accounts.vault.info.key@,
    ensures
        accounts.spec_try_accounts(program_id) is Ok,
{
}

/// A token account with another balance and frozen state.
pub open spec fn rebalanced(account: TokenAccount, amount: u64, frozen: bool) -> TokenAccount {
    TokenAccount { amount, is_frozen: frozen, ..account }
}

/// A mint with other decimals.
pub open spec fn redenominated(mint: MintAccount, decimals: u8) -> MintAccount {
    MintAccount { decimals, ..mint }
}

/// An associated token account slot with another balance and frozen state
/// (a missing account stays missing).
pub open spec fn rebalanced_slot(slot: AssociatedSlot, amount: u64, frozen: bool) -> AssociatedSlot {
    match slot {
        AssociatedSlot::Initialized(account) => AssociatedSlot::Initialized(
            rebalanced(account, amount, frozen),
        ),
        AssociatedSlot::Uninitialized(info) => AssociatedSlot::Uninitialized(info),
    }
}

/// `make`'s account checks do not look at token balances, frozen states or
/// decimals: changing the maker's balance and frozen state and both mints'
/// decimals changes neither whether `make` accepts the accounts nor the
/// error or bump it reports.
pub proof fn make_checks_ignore_balances(
    accounts: Make,
    program_id: Seq<u8>,
    seed: u64,
    amount: u64,
    frozen: bool,
    decimals_a: u8,
    decimals_b: u8,
)
    ensures
        (Make {
            maker_ata_a: rebalanced(accounts.maker_ata_a, amount, frozen),
            mint_a: redenominated(accounts.mint_a, decimals_a),
            mint_b: redenominated(accounts.mint_b, decimals_b),
            ..accounts
        }).spec_try_accounts(program_id, seed) == accounts.spec_try_accounts(program_id, seed),
{
}

/// `take`'s account checks do not look at token balances, frozen states or
/// decimals: changing the balances and frozen states of the taker's and
/// maker's accounts and of the vault, and both mints' decimals, changes
/// neither whether `take` accepts the accounts nor the error it reports.
pub proof fn take_checks_ignore_balances(
    accounts: Take,
    program_id: Seq<u8>,
    amounts: (u64, u64, u64, u64),
    frozen: (bool, bool, bool, bool),
    decimals_a: u8,
    decimals_b: u8,
)
    ensures
        (Take {
            taker_ata_a: rebalanced_slot(accounts.taker_ata_a, amounts.0, frozen.0),
            taker_ata_b: rebalanced_slot(accounts.taker_ata_b, amounts.1, frozen.1),
            maker_ata_b: rebalanced_slot(accounts.maker_ata_b, amounts.2, frozen.2),
            vault: rebalanced(accounts.vault, amounts.3, frozen.3),
            mint_a: redenominated(accounts.mint_a, decimals_a),
            mint_b: redenominated(accounts.mint_b, decimals_b),
            ..accounts
        }).spec_try_accounts(program_id) == accounts.spec_try_accounts(program_id),
{
}

/// `refund`'s account checks do not look at token balances, frozen states or
/// decimals: changing the balances and frozen states of the maker's `mint_a`
/// account and of the vault, and both mints' decimals, changes neither
/// whether `refund` accepts the accounts nor the error it reports.
pub proof fn refund_checks_ignore_balances(
    accounts: Refund,
    program_id: Seq<u8>,
    maker_amount: u64,
    maker_frozen: bool,
    vault_amount: u64,
    vault_frozen: bool,
    decimals_a: u8,
    decimals_b: u8,
)
    ensures
        (Refund {
            maker_ata_a: rebalanced(accounts.maker_ata_a, maker_amount, maker_frozen),
            vault: rebalanced(accounts.vault, vault_amount, vault_frozen),
            mint_a: redenominated(accounts.mint_a, decimals_a),
            mint_b: redenominated(accounts.mint_b, decimals_b),
            ..accounts
        }).spec_try_accounts(program_id) == accounts.spec_try_accounts(program_id),
{
}

} // verus!
