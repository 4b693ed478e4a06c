use vstd::prelude::*;

use crate::accounts::{spec_check_escrow_address, spec_is_missing, TokenAccount};
use crate::cpi::TokenCpi;
use crate::error::EscrowError;
use crate::escrow_contract::{make_result, refund_result, take_result, Settlement};
use crate::instructions::make::Make;
use crate::instructions::refund::{self, Refund};
use crate::instructions::take::{self, Take};
use crate::ledger::{
    apply_cpi, apply_cpis, balance_of, holding, move_lamports, settle, slot_balance, supply,
    supply_over, Ledger, TokenBalance,
};
use crate::pda::{
    canonical_bump, first_viable_bump, spec_associated_token_address, spec_create_program_address,
};
use crate::programs::spec_token_program_id;
use crate::state::{spec_escrow_seeds, spec_escrow_signer_seeds};

verus! {

/// The bump that the search finds gives a program address.
pub proof fn lemma_first_viable_bump_derives(seeds: Seq<Seq<u8>>, program_id: Seq<u8>, b: nat)
    requires
        first_viable_bump(seeds, program_id, b) is Some,
    ensures
        spec_create_program_address(
            seeds.push(seq![first_viable_bump(seeds, program_id, b).unwrap()]),
            program_id,
        ) is Some,
    decreases b,
{
    if b > 0 && !(spec_create_program_address(seeds.push(seq![b as u8]), program_id) is Some) {
        lemma_first_viable_bump_derives(seeds, program_id, (b - 1) as nat);
    }
}

/// The escrow that `make` accepts lies at the address that its seed and the
/// bump `make` stores derive: the seeds check of `take` and `refund` accepts
/// the record that `make` wrote.
pub proof fn made_escrow_passes_seeds_check(accounts: Make, program_id: Seq<u8>, seed: u64)
    requires
        accounts.spec_try_accounts(program_id, seed) is Ok,
    ensures
        spec_check_escrow_address(
            accounts.escrow.key@,
            accounts.maker.key@,
            seed,
            accounts.spec_try_accounts(program_id, seed).unwrap().escrow,
            program_id,
        ) == Ok::<(), EscrowError>(()),
{
    let seeds = spec_escrow_seeds(accounts.maker.key@, seed);
    lemma_first_viable_bump_derives(seeds, program_id, 255);
    let bump = accounts.spec_try_accounts(program_id, seed).unwrap().escrow;
    assert(canonical_bump(seeds, program_id) == Some(bump));
    assert(spec_escrow_signer_seeds(accounts.maker.key@, seed, bump) == seeds.push(seq![bump]));
}

/// The ledger holds `account` as the instruction saw it.
pub open spec fn holds(ledger: Ledger, account: TokenAccount) -> bool {
    &&& ledger.accounts.contains_key(account.info.key@)
    &&& ledger.accounts[account.info.key@] == balance_of(account)
}

/// The ledger knows `mint` with `decimals` decimals.
pub open spec fn knows_mint(ledger: Ledger, mint: Seq<u8>, decimals: u8) -> bool {
    ledger.decimals.contains_key(mint) && ledger.decimals[mint] == decimals
}

/// The ledger as `make` finds it: the accounts under the SPL Token program
/// (which the token calls address), the maker's `mint_a` account as seen,
/// no token account yet at the vault's address (the vault is a System
/// account still to be created), `mint_a` known, the maker signed.
pub open spec fn make_ledger(accounts: Make, ledger: Ledger, signers: Set<Seq<u8>>) -> bool {
    &&& accounts.token_program.key@ == spec_token_program_id()
    &&& holds(ledger, accounts.maker_ata_a)
    &&& accounts.maker_ata_a.mint@ == accounts.mint_a.info.key@
    &&& !ledger.accounts.contains_key(accounts.vault.key@)
    &&& knows_mint(ledger, accounts.mint_a.info.key@, accounts.mint_a.decimals)
    &&& signers.contains(accounts.maker.key@)
}

/// The ledger once `make` has created the vault: an empty token account of
/// `mint_a` owned by the escrow, under the token program.
pub open spec fn open_vault(accounts: Make, ledger: Ledger) -> Ledger {
    Ledger {
        accounts: ledger.accounts.insert(
            accounts.vault.key@,
            TokenBalance {
                mint: accounts.mint_a.info.key@,
                owner: accounts.escrow.key@,
                program: accounts.token_program.key@,
                amount: 0,
                frozen: false,
            },
        ),
        ..ledger
    }
}

/// The token accounts after the whole `make` instruction on the accounts
/// `before`, whose answer is `r`: the vault created, then the calls made.
/// `None` where `make` is refused or a call fails: the instruction then
/// fails, and the runtime keeps every account (its tokens and its lamports)
/// as it was, so neither the escrow nor the vault comes to exist. The rent
/// that the maker pays for the two new accounts is not part of this value.
pub open spec fn make_effect(
    before: Make,
    ledger: Ledger,
    signers: Set<Seq<u8>>,
    program_id: Seq<u8>,
    r: Result<Vec<TokenCpi>, EscrowError>,
) -> Option<Map<Seq<u8>, TokenBalance>> {
    match r {
        Err(_) => None,
        Ok(cpis) => match apply_cpis(open_vault(before, ledger), signers, program_id, cpis@) {
            None => None,
            Some(after) => Some(after.accounts),
        },
    }
}

/// `make` locks exactly `amount` tokens, or changes nothing: it succeeds
/// exactly when its account checks pass, `amount` and `recieve` are not
/// zero, and the maker's account holds at least `amount` tokens of `mint_a`
/// and is not frozen;
/// then the maker's account loses `amount`, the new vault (the escrow's
/// account of `mint_a`) holds `amount`, and no other token account changes.
/// Otherwise the instruction fails as a whole.
pub proof fn make_locks_amount(
    before: Make,
    after: Make,
    seed: u64,
    amount: u64,
    recieve: u64,
    r: Result<Vec<TokenCpi>, EscrowError>,
    ledger: Ledger,
    signers: Set<Seq<u8>>,
    program_id: Seq<u8>,
)
    requires
        make_result(before, after, program_id, seed, amount, recieve, r),
        make_ledger(before, ledger, signers),
    ensures
        make_effect(before, ledger, signers, program_id, r) is Some <==> (before.spec_try_accounts(
            program_id,
            seed,
        ) is Ok && amount > 0 && recieve > 0 && amount <= before.maker_ata_a.amount
            && !before.maker_ata_a.is_frozen),
        make_effect(before, ledger, signers, program_id, r) is Some ==> make_effect(
            before,
            ledger,
            signers,
            program_id,
            r,
        ).unwrap() == ledger.accounts.insert(
            before.maker_ata_a.info.key@,
            TokenBalance {
                amount: (before.maker_ata_a.amount - amount) as nat,
                ..balance_of(before.maker_ata_a)
            },
        ).insert(
            before.vault.key@,
            TokenBalance {
                mint: before.mint_a.info.key@,
                owner: before.escrow.key@,
                program: before.token_program.key@,
                amount: amount as nat,
                frozen: false,
            },
        ),
{
    if r is Ok {
        let cpis = r.unwrap()@;
        let opened = open_vault(before, ledger);
        reveal_with_fuel(apply_cpis, 2);
        assert(cpis.skip(1).len() == 0);
        let step = apply_cpi(opened, signers, program_id, cpis[0]);
        if amount <= before.maker_ata_a.amount && !before.maker_ata_a.is_frozen {
            assert(step is Some);
            assert(apply_cpis(step.unwrap(), signers, program_id, cpis.skip(1)) == step);
            assert(step.unwrap().accounts =~= ledger.accounts.insert(
                before.maker_ata_a.info.key@,
                TokenBalance {
                    amount: (before.maker_ata_a.amount - amount) as nat,
                    ..balance_of(before.maker_ata_a)
                },
            ).insert(
                before.vault.key@,
                TokenBalance {
                    mint: before.mint_a.info.key@,
                    owner: before.escrow.key@,
                    program: before.token_program.key@,
                    amount: amount as nat,
                    frozen: false,
                },
            ));
        }
    }
}

/// What `make` leaves when it succeeds: the escrow lies at the program
/// address of its seed and the stored bump, and its record names the maker,
/// the seed, both mints and the nonzero `recieve` asked for; the deposited
/// `amount` is nonzero; both the escrow and the vault did not exist before,
/// and the vault is the escrow's associated token account for `mint_a`, so
/// only a call signed with the escrow's seeds can move the deposit.
pub proof fn make_records_offer(
    before: Make,
    after: Make,
    seed: u64,
    amount: u64,
    recieve: u64,
    r: Result<Vec<TokenCpi>, EscrowError>,
    program_id: Seq<u8>,
)
    requires
        make_result(before, after, program_id, seed, amount, recieve, r),
        r is Ok,
    ensures
        amount > 0,
        recieve > 0,
        spec_is_missing(before.escrow),
        spec_is_missing(before.vault),
        spec_associated_token_address(
            before.escrow.key@,
            before.mint_a.info.key@,
            before.token_program.key@,
        ) == Some(before.vault.key@),
        after.escrow_data is Some,
        after.escrow_data.unwrap().maker@ == before.maker.key@,
        after.escrow_data.unwrap().seed == seed,
        after.escrow_data.unwrap().mint_a@ == before.mint_a.info.key@,
        after.escrow_data.unwrap().mint_b@ == before.mint_b.info.key@,
        after.escrow_data.unwrap().recieve == recieve,
        spec_create_program_address(
            spec_escrow_signer_seeds(before.maker.key@, seed, after.escrow_data.unwrap().bump),
            program_id,
        ) == Some(before.escrow.key@),
{
    made_escrow_passes_seeds_check(before, program_id, seed);
}

/// The ledger holds the associated token account `slot` of `wallet` for
/// `mint`: as seen if it existed, or freshly created and empty.
pub open spec fn holds_slot(
    ledger: Ledger,
    slot: crate::accounts::AssociatedSlot,
    wallet: Seq<u8>,
    mint: Seq<u8>,
    token_program: Seq<u8>,
) -> bool {
    &&& ledger.accounts.contains_key(slot.info().key@)
    &&& ledger.accounts[slot.info().key@] == slot_balance(slot, wallet, mint, token_program)
}

/// The ledger as `take` finds it: the accounts under the SPL Token program
/// (which the token calls address), its token accounts as the instruction
/// saw them (the ones created when missing, empty), both mints known.
pub open spec fn take_ledger(accounts: Take, ledger: Ledger) -> bool {
    let tp = accounts.token_program.key@;
    &&& tp == spec_token_program_id()
    &&& holds_slot(ledger, accounts.taker_ata_a, accounts.taker.key@, accounts.mint_a.info.key@, tp)
    &&& holds_slot(ledger, accounts.taker_ata_b, accounts.taker.key@, accounts.mint_b.info.key@, tp)
    &&& holds_slot(ledger, accounts.maker_ata_b, accounts.maker.key@, accounts.mint_b.info.key@, tp)
    &&& holds(ledger, accounts.vault)
    &&& accounts.vault.mint@ == accounts.mint_a.info.key@
    &&& knows_mint(ledger, accounts.mint_a.info.key@, accounts.mint_a.decimals)
    &&& knows_mint(ledger, accounts.mint_b.info.key@, accounts.mint_b.decimals)
    &&& ledger.lamports.contains_key(accounts.vault.info.key@)
    &&& ledger.lamports.contains_key(accounts.maker.key@)
    &&& ledger.lamports.contains_key(accounts.escrow.key@)
}

/// The token calls of `take` can all be made on `ledger`: the taker holds
/// the `recieve` tokens of `mint_b` asked for, no balance would overflow,
/// and none of the four token accounts involved is frozen.
pub open spec fn take_can_settle(accounts: Take, ledger: Ledger) -> bool {
    let a = ledger.accounts[accounts.taker_ata_a.info().key@];
    let b = ledger.accounts[accounts.taker_ata_b.info().key@];
    let m = ledger.accounts[accounts.maker_ata_b.info().key@];
    let recieve = accounts.escrow_data.recieve;
    &&& recieve <= b.amount
    &&& m.amount + recieve <= u64::MAX
    &&& a.amount + accounts.vault.amount <= u64::MAX
    &&& !a.frozen
    &&& !b.frozen
    &&& !m.frozen
    &&& !accounts.vault.is_frozen
}

/// `take` completes the exchange: when the taker holds the `recieve` tokens
/// of `mint_b` the maker asked for (no balance overflowing, no account
/// frozen), the maker's
/// `mint_b` account gains exactly `recieve`, the taker's loses exactly
/// `recieve`, the taker's `mint_a` account gains the whole vault, the vault is
/// closed with its lamports to the maker, and no other token account
/// changes. When the taker holds fewer than `recieve`, a balance would
/// overflow, or one of those accounts is frozen, the calls fail. (The maker,
/// a System account, is not the vault, a token account.)
pub proof fn take_completes_exchange(
    accounts: Take,
    program_id: Seq<u8>,
    cpis: Seq<TokenCpi>,
    ledger: Ledger,
    signers: Set<Seq<u8>>,
)
    requires
        accounts.spec_try_accounts(program_id) is Ok,
        take::handler_cpis(accounts, cpis),
        take_ledger(accounts, ledger),
        signers.contains(accounts.taker.key@),
        accounts.vault.info.key@ != accounts.maker.key@,
    ensures
        ({
            let tp = accounts.token_program.key@;
            let ta = accounts.taker_ata_a.info().key@;
            let tb = accounts.taker_ata_b.info().key@;
            let mb = accounts.maker_ata_b.info().key@;
            let v = accounts.vault.info.key@;
            let recieve = accounts.escrow_data.recieve;
            let locked = accounts.vault.amount;
            let a = ledger.accounts[ta];
            let b = ledger.accounts[tb];
            let m = ledger.accounts[mb];
            &&& take_can_settle(accounts, ledger) ==> apply_cpis(ledger, signers, program_id, cpis) == Some(
                Ledger {
                    accounts: ledger.accounts.insert(
                        tb,
                        TokenBalance { amount: (b.amount - recieve) as nat, ..b },
                    ).insert(mb, TokenBalance { amount: (m.amount + recieve) as nat, ..m }).insert(
                        ta,
                        TokenBalance { amount: (a.amount + locked) as nat, ..a },
                    ).remove(v),
                    lamports: move_lamports(ledger.lamports, v, accounts.maker.key@),
                    ..ledger
                },
            )
            &&& !take_can_settle(accounts, ledger) ==> apply_cpis(ledger, signers, program_id, cpis) is None
        }),
{
    let tp = accounts.token_program.key@;
    let ta = accounts.taker_ata_a.info().key@;
    let tb = accounts.taker_ata_b.info().key@;
    let mb = accounts.maker_ata_b.info().key@;
    let v = accounts.vault.info.key@;
    let keys = accounts.spec_mutable_keys();
    assert(keys[1]@ == ta && keys[2]@ == tb && keys[3]@ == mb && keys[4]@ == v);
    assert(ta != tb && ta != mb && ta != v && tb != mb && tb != v && mb != v);
    reveal_with_fuel(apply_cpis, 4);
    assert(cpis.skip(1).skip(1).skip(1).len() == 0);
    assert(cpis.skip(1)[0] == cpis[1]);
    assert(cpis.skip(1).skip(1)[0] == cpis[2]);
    let recieve = accounts.escrow_data.recieve;
    let locked = accounts.vault.amount;
    let a = ledger.accounts[ta];
    let b = ledger.accounts[tb];
    let m = ledger.accounts[mb];
    if take_can_settle(accounts, ledger) {
        let l1 = apply_cpi(ledger, signers, program_id, cpis[0]).unwrap();
        assert(apply_cpi(ledger, signers, program_id, cpis[0]) is Some);
        let l2 = apply_cpi(l1, signers, program_id, cpis[1]).unwrap();
        assert(apply_cpi(l1, signers, program_id, cpis[1]) is Some);
        assert(apply_cpi(l2, signers, program_id, cpis[2]) is Some);
        let l3 = apply_cpi(l2, signers, program_id, cpis[2]).unwrap();
        let expected = ledger.accounts.insert(
            tb,
            TokenBalance { amount: (b.amount - recieve) as nat, ..b },
        ).insert(mb, TokenBalance { amount: (m.amount + recieve) as nat, ..m }).insert(
            ta,
            TokenBalance { amount: (a.amount + locked) as nat, ..a },
        ).remove(v);
        assert(l3.accounts =~= expected);
        assert(l3.lamports =~= move_lamports(ledger.lamports, v, accounts.maker.key@));
        assert(apply_cpis(l3, signers, program_id, cpis.skip(1).skip(1).skip(1)) == Some(l3));
        assert(apply_cpis(ledger, signers, program_id, cpis) == Some(l3));
    } else if recieve > b.amount || m.amount + recieve > u64::MAX || b.frozen || m.frozen {
        assert(apply_cpi(ledger, signers, program_id, cpis[0]) is None);
    } else {
        let l1 = apply_cpi(ledger, signers, program_id, cpis[0]).unwrap();
        assert(apply_cpi(ledger, signers, program_id, cpis[0]) is Some);
        assert(l1.accounts[ta] == a);
        assert(l1.accounts[v] == ledger.accounts[v]);
        assert(apply_cpi(l1, signers, program_id, cpis[1]) is None);
    }
}

/// The token calls of `refund` can be made: the maker's `mint_a` account
/// can take the vault's balance, and neither account is frozen.
pub open spec fn refund_can_settle(accounts: Refund) -> bool {
    &&& accounts.maker_ata_a.amount + accounts.vault.amount <= u64::MAX
    &&& !accounts.maker_ata_a.is_frozen
    &&& !accounts.vault.is_frozen
}

/// The ledger as `refund` finds it: the accounts under the SPL Token
/// program (which the token calls address), the maker's `mint_a` account and
/// the vault as the instruction saw them, both of `mint_a`, which it knows.
pub open spec fn refund_ledger(accounts: Refund, ledger: Ledger) -> bool {
    &&& accounts.token_program.key@ == spec_token_program_id()
    &&& holds(ledger, accounts.maker_ata_a)
    &&& holds(ledger, accounts.vault)
    &&& accounts.maker_ata_a.mint@ == accounts.mint_a.info.key@
    &&& accounts.vault.mint@ == accounts.mint_a.info.key@
    &&& knows_mint(ledger, accounts.mint_a.info.key@, accounts.mint_a.decimals)
    &&& ledger.lamports.contains_key(accounts.vault.info.key@)
    &&& ledger.lamports.contains_key(accounts.maker.key@)
    &&& ledger.lamports.contains_key(accounts.escrow.key@)
}

/// `refund` gives the maker the whole vault back: the maker's `mint_a`
/// account gains exactly what the vault held, the vault is closed, and no
/// other token account changes (the maker's account and the vault being
/// other accounts than the maker's wallet).
pub proof fn refund_returns_vault(
    accounts: Refund,
    program_id: Seq<u8>,
    cpis: Seq<TokenCpi>,
    ledger: Ledger,
    signers: Set<Seq<u8>>,
)
    requires
        accounts.spec_try_accounts(program_id) is Ok,
        refund::handler_cpis(accounts, cpis),
        refund_ledger(accounts, ledger),
        accounts.vault.info.key@ != accounts.maker.key@,
        refund_can_settle(accounts),
    ensures
        apply_cpis(ledger, signers, program_id, cpis) == Some(
            Ledger {
                accounts: ledger.accounts.insert(
                    accounts.maker_ata_a.info.key@,
                    TokenBalance {
                        amount: (accounts.maker_ata_a.amount + accounts.vault.amount) as nat,
                        ..balance_of(accounts.maker_ata_a)
                    },
                ).remove(accounts.vault.info.key@),
                lamports: move_lamports(
                    ledger.lamports,
                    accounts.vault.info.key@,
                    accounts.maker.key@,
                ),
                ..ledger
            },
        ),
{
    let ma = accounts.maker_ata_a.info.key@;
    let v = accounts.vault.info.key@;
    let keys = accounts.spec_mutable_keys();
    assert(keys[1]@ == ma && keys[2]@ == v);
    reveal_with_fuel(apply_cpis, 3);
    assert(cpis.skip(1).skip(1).len() == 0);
    assert(cpis.skip(1)[0] == cpis[1]);
    let l1 = apply_cpi(ledger, signers, program_id, cpis[0]).unwrap();
    assert(apply_cpi(ledger, signers, program_id, cpis[0]) is Some);
    assert(apply_cpi(l1, signers, program_id, cpis[1]) is Some);
    let l2 = apply_cpi(l1, signers, program_id, cpis[1]).unwrap();
    let expected = ledger.accounts.insert(
        ma,
        TokenBalance {
            amount: (accounts.maker_ata_a.amount + accounts.vault.amount) as nat,
            ..balance_of(accounts.maker_ata_a)
        },
    ).remove(v);
    assert(l2.accounts =~= expected);
    assert(l2.lamports =~= move_lamports(ledger.lamports, v, accounts.maker.key@));
    assert(apply_cpis(l2, signers, program_id, cpis.skip(1).skip(1)) == Some(l2));
}

/// The ledger after the whole `take` instruction on `accounts`, whose answer
/// is `r`: its calls made, then the escrow closed with its lamports to the
/// account named. `None` where `take` is refused or a call fails: the
/// instruction then fails, and the runtime keeps every account (its tokens,
/// its lamports, the escrow and the vault) as it was.
pub open spec fn take_effect(
    accounts: Take,
    ledger: Ledger,
    signers: Set<Seq<u8>>,
    program_id: Seq<u8>,
    r: Result<Settlement, EscrowError>,
) -> Option<Ledger> {
    match r {
        Err(_) => None,
        Ok(s) => settle(ledger, signers, program_id, s.cpis@, accounts.escrow.key@, s.close_escrow_to@),
    }
}

/// The ledger after the whole `refund` instruction on `accounts`, whose
/// answer is `r`, as for `take`.
pub open spec fn refund_effect(
    accounts: Refund,
    ledger: Ledger,
    signers: Set<Seq<u8>>,
    program_id: Seq<u8>,
    r: Result<Settlement, EscrowError>,
) -> Option<Ledger> {
    match r {
        Err(_) => None,
        Ok(s) => settle(ledger, signers, program_id, s.cpis@, accounts.escrow.key@, s.close_escrow_to@),
    }
}

/// `take` settles the offer or changes nothing: it succeeds exactly when its
/// account checks pass, the taker holds the `recieve` tokens of `mint_b`
/// asked for, no balance would overflow, and none of the token accounts
/// involved is frozen (`take_can_settle`). Then the maker's `mint_b`
/// account gains `recieve`, the taker's loses it, the taker's `mint_a`
/// account gains the whole vault, the vault and the escrow are closed with
/// all their lamports to the maker, and nothing else changes. Otherwise the
/// instruction fails as a whole: the maker is never paid without the taker
/// getting the deposit, nor the other way round.
pub proof fn take_settles_offer(
    accounts: Take,
    program_id: Seq<u8>,
    r: Result<Settlement, EscrowError>,
    ledger: Ledger,
    signers: Set<Seq<u8>>,
)
    requires
        take_result(accounts, program_id, r),
        take_ledger(accounts, ledger),
        signers.contains(accounts.taker.key@),
        accounts.vault.info.key@ != accounts.maker.key@,
    ensures
        ({
            let ta = accounts.taker_ata_a.info().key@;
            let tb = accounts.taker_ata_b.info().key@;
            let mb = accounts.maker_ata_b.info().key@;
            let v = accounts.vault.info.key@;
            let e = accounts.escrow.key@;
            let maker = accounts.maker.key@;
            let recieve = accounts.escrow_data.recieve;
            let locked = accounts.vault.amount;
            let a = ledger.accounts[ta];
            let b = ledger.accounts[tb];
            let m = ledger.accounts[mb];
            let out = take_effect(accounts, ledger, signers, program_id, r);
            &&& out is Some <==> (accounts.spec_try_accounts(program_id) is Ok && take_can_settle(
                accounts,
                ledger,
            ))
            &&& out is Some ==> out.unwrap() == Ledger {
                accounts: ledger.accounts.insert(
                    tb,
                    TokenBalance { amount: (b.amount - recieve) as nat, ..b },
                ).insert(mb, TokenBalance { amount: (m.amount + recieve) as nat, ..m }).insert(
                    ta,
                    TokenBalance { amount: (a.amount + locked) as nat, ..a },
                ).remove(v),
                lamports: move_lamports(move_lamports(ledger.lamports, v, maker), e, maker),
                ..ledger
            }
            &&& out is Some ==> out.unwrap().lamports[maker] == ledger.lamports[maker]
                + ledger.lamports[v] + ledger.lamports[e]
        }),
{
    if r is Ok {
        take_completes_exchange(accounts, program_id, r.unwrap().cpis@, ledger, signers);
        let keys = accounts.spec_mutable_keys();
        assert(keys[0]@ == accounts.escrow.key@ && keys[4]@ == accounts.vault.info.key@);
    }
}

/// `refund` gives the maker everything back or changes nothing: when its
/// account checks pass, the maker's `mint_a` account can take the vault's
/// balance and neither account is frozen (exactly then it succeeds), the
/// maker's `mint_a` account gains what the vault held, the vault and the
/// escrow are closed with all their lamports to the maker, and nothing else
/// changes.
pub proof fn refund_settles_offer(
    accounts: Refund,
    program_id: Seq<u8>,
    r: Result<Settlement, EscrowError>,
    ledger: Ledger,
    signers: Set<Seq<u8>>,
)
    requires
        refund_result(accounts, program_id, r),
        refund_ledger(accounts, ledger),
        accounts.vault.info.key@ != accounts.maker.key@,
    ensures
        ({
            let ma = accounts.maker_ata_a.info.key@;
            let v = accounts.vault.info.key@;
            let e = accounts.escrow.key@;
            let maker = accounts.maker.key@;
            let out = refund_effect(accounts, ledger, signers, program_id, r);
            &&& out is Some <==> (accounts.spec_try_accounts(program_id) is Ok
                && refund_can_settle(accounts))
            &&& out is Some ==> out.unwrap() == Ledger {
                accounts: ledger.accounts.insert(
                    ma,
                    TokenBalance {
                        amount: (accounts.maker_ata_a.amount + accounts.vault.amount) as nat,
                        ..balance_of(accounts.maker_ata_a)
                    },
                ).remove(v),
                lamports: move_lamports(move_lamports(ledger.lamports, v, maker), e, maker),
                ..ledger
            }
            &&& out is Some ==> out.unwrap().lamports[maker] == ledger.lamports[maker]
                + ledger.lamports[v] + ledger.lamports[e]
        }),
{
    if r is Ok {
        let cpis = r.unwrap().cpis@;
        let keys = accounts.spec_mutable_keys();
        assert(keys[0]@ == accounts.escrow.key@ && keys[2]@ == accounts.vault.info.key@);
        if refund_can_settle(accounts) {
            refund_returns_vault(accounts, program_id, cpis, ledger, signers);
        } else {
            let ma = accounts.maker_ata_a.info.key@;
            assert(keys[1]@ == ma);
            reveal_with_fuel(apply_cpis, 2);
            assert(apply_cpi(ledger, signers, program_id, cpis[0]) is None);
        }
    }
}

/// A refund undoes a make: after `make` has locked `amount` tokens, a
/// `refund` on the escrow and vault it created succeeds, and every token
/// account is then as it was before `make`, the vault gone again.
pub proof fn refund_undoes_make(
    make_before: Make,
    make_after: Make,
    seed: u64,
    amount: u64,
    recieve: u64,
    r: Result<Vec<TokenCpi>, EscrowError>,
    ledger: Ledger,
    make_signers: Set<Seq<u8>>,
    made: Ledger,
    refund_accounts: Refund,
    rr: Result<Settlement, EscrowError>,
    refund_signers: Set<Seq<u8>>,
    program_id: Seq<u8>,
)
    requires
        make_result(make_before, make_after, program_id, seed, amount, recieve, r),
        make_ledger(make_before, ledger, make_signers),
        make_effect(make_before, ledger, make_signers, program_id, r) == Some(made.accounts),
        make_after.escrow_data == Some(refund_accounts.escrow_data),
        refund_accounts.maker_ata_a.info.key@ == make_before.maker_ata_a.info.key@,
        refund_accounts.vault.info.key@ == make_before.vault.key@,
        refund_accounts.vault.info.key@ != refund_accounts.maker.key@,
        refund_ledger(refund_accounts, made),
        refund_result(refund_accounts, program_id, rr),
        refund_accounts.spec_try_accounts(program_id) is Ok,
    ensures
        refund_effect(refund_accounts, made, refund_signers, program_id, rr) is Some,
        refund_effect(refund_accounts, made, refund_signers, program_id, rr).unwrap().accounts
            == ledger.accounts,
{
    make_locks_amount(
        make_before,
        make_after,
        seed,
        amount,
        recieve,
        r,
        ledger,
        make_signers,
        program_id,
    );
    let ma = make_before.maker_ata_a.info.key@;
    let v = make_before.vault.key@;
    assert(made.accounts[ma].amount == make_before.maker_ata_a.amount - amount);
    assert(made.accounts[v].amount == amount);
    refund_settles_offer(refund_accounts, program_id, rr, made, refund_signers);
    let out = refund_effect(refund_accounts, made, refund_signers, program_id, rr).unwrap();
    assert(out.accounts =~= ledger.accounts);
}

/// A take completes the offer that a make recorded: after `make` has locked
/// `amount` tokens of `mint_a` asking `recieve` tokens of `mint_b`, a `take`
/// on that escrow by a taker holding `recieve` (with no balance overflowing
/// and none of the taker's or maker's accounts frozen)
/// succeeds; it moves exactly `recieve` from the taker's `mint_b` account to
/// the maker's and exactly `amount` to the taker's `mint_a` account, closes
/// the vault and the escrow, and changes no other token account. Compared
/// with the state before `make` (where neither of the taker's accounts nor
/// the maker's `mint_b` account is the maker's `mint_a` account), the
/// maker's `mint_a` account has lost `amount`, the taker's `mint_a` account
/// gained it, `recieve` went from the taker's `mint_b` account to the
/// maker's, no vault exists, and nothing else changed.
pub proof fn take_after_make_exchanges(
    make_before: Make,
    make_after: Make,
    seed: u64,
    amount: u64,
    recieve: u64,
    r: Result<Vec<TokenCpi>, EscrowError>,
    ledger: Ledger,
    make_signers: Set<Seq<u8>>,
    made: Ledger,
    take_accounts: Take,
    rt: Result<Settlement, EscrowError>,
    take_signers: Set<Seq<u8>>,
    program_id: Seq<u8>,
)
    requires
        make_result(make_before, make_after, program_id, seed, amount, recieve, r),
        make_ledger(make_before, ledger, make_signers),
        make_effect(make_before, ledger, make_signers, program_id, r) == Some(made.accounts),
        make_after.escrow_data == Some(take_accounts.escrow_data),
        take_accounts.vault.info.key@ == make_before.vault.key@,
        take_accounts.vault.info.key@ != take_accounts.maker.key@,
        take_ledger(take_accounts, made),
        take_result(take_accounts, program_id, rt),
        take_accounts.spec_try_accounts(program_id) is Ok,
        take_signers.contains(take_accounts.taker.key@),
    ensures
        ({
            let ta = take_accounts.taker_ata_a.info().key@;
            let tb = take_accounts.taker_ata_b.info().key@;
            let mb = take_accounts.maker_ata_b.info().key@;
            let a = made.accounts[ta];
            let b = made.accounts[tb];
            let m = made.accounts[mb];
            let out = take_effect(take_accounts, made, take_signers, program_id, rt);
            let ma = make_before.maker_ata_a.info.key@;
            let mine = ledger.accounts[ma];
            &&& (recieve <= b.amount && m.amount + recieve <= u64::MAX && a.amount + amount
                <= u64::MAX && !a.frozen && !b.frozen && !m.frozen) ==> out is Some
                && out.unwrap().accounts == made.accounts.insert(
                tb,
                TokenBalance { amount: (b.amount - recieve) as nat, ..b },
            ).insert(mb, TokenBalance { amount: (m.amount + recieve) as nat, ..m }).insert(
                ta,
                TokenBalance { amount: (a.amount + amount) as nat, ..a },
            ).remove(make_before.vault.key@)
            &&& (ta != ma && tb != ma && mb != ma) ==> a == ledger.accounts[ta] && b
                == ledger.accounts[tb] && m == ledger.accounts[mb]
            &&& (ta != ma && tb != ma && mb != ma && recieve <= b.amount && m.amount + recieve
                <= u64::MAX && a.amount + amount <= u64::MAX && !a.frozen && !b.frozen
                && !m.frozen) ==> out.unwrap().accounts == ledger.accounts.insert(
                ma,
                TokenBalance { amount: (mine.amount - amount) as nat, ..mine },
            ).insert(tb, TokenBalance { amount: (b.amount - recieve) as nat, ..b }).insert(
                mb,
                TokenBalance { amount: (m.amount + recieve) as nat, ..m },
            ).insert(ta, TokenBalance { amount: (a.amount + amount) as nat, ..a })
        }),
{
    make_locks_amount(
        make_before,
        make_after,
        seed,
        amount,
        recieve,
        r,
        ledger,
        make_signers,
        program_id,
    );
    assert(made.accounts[make_before.vault.key@].amount == amount);
    assert(take_accounts.vault.amount == amount);
    assert(take_accounts.escrow_data.recieve == recieve);
    take_settles_offer(take_accounts, program_id, rt, made, take_signers);
    let ta = take_accounts.taker_ata_a.info().key@;
    let tb = take_accounts.taker_ata_b.info().key@;
    let mb = take_accounts.maker_ata_b.info().key@;
    let v = make_before.vault.key@;
    let ma = make_before.maker_ata_a.info.key@;
    let keys = take_accounts.spec_mutable_keys();
    assert(keys[1]@ == ta && keys[2]@ == tb && keys[3]@ == mb && keys[4]@ == v);
    let a = made.accounts[ta];
    let b = made.accounts[tb];
    let m = made.accounts[mb];
    let mine = ledger.accounts[ma];
    if ta != ma && tb != ma && mb != ma && recieve <= b.amount && m.amount + recieve <= u64::MAX
        && a.amount + amount <= u64::MAX && !a.frozen && !b.frozen && !m.frozen {
        let out = take_effect(take_accounts, made, take_signers, program_id, rt).unwrap();
        assert(out.accounts =~= ledger.accounts.insert(
            ma,
            TokenBalance { amount: (mine.amount - amount) as nat, ..mine },
        ).insert(tb, TokenBalance { amount: (b.amount - recieve) as nat, ..b }).insert(
            mb,
            TokenBalance { amount: (m.amount + recieve) as nat, ..m },
        ).insert(ta, TokenBalance { amount: (a.amount + amount) as nat, ..a }));
    }
}

/// `make` creates and destroys no tokens: where it succeeds, every mint
/// has as many tokens over all token accounts as before (the new vault
/// starts empty).
pub proof fn make_keeps_each_supply(
    before: Make,
    ledger: Ledger,
    signers: Set<Seq<u8>>,
    program_id: Seq<u8>,
    r: Result<Vec<TokenCpi>, EscrowError>,
    mint: Seq<u8>,
)
    requires
        ledger.accounts.dom().finite(),
        !ledger.accounts.contains_key(before.vault.key@),
        make_effect(before, ledger, signers, program_id, r) is Some,
    ensures
        supply(
            Ledger { accounts: make_effect(before, ledger, signers, program_id, r).unwrap(), ..ledger },
            mint,
        ) == supply(ledger, mint),
{
    let opened = open_vault(before, ledger);
    let v = before.vault.key@;
    let dom = opened.accounts.dom();
    assert(dom.remove(v) =~= ledger.accounts.dom());
    lemma_supply_over_remove(opened.accounts, dom, mint, v);
    lemma_supply_over_agree(opened.accounts, ledger.accounts, ledger.accounts.dom(), mint);
    token_calls_keep_supply(opened, signers, program_id, r.unwrap()@, mint);
}

/// Where `take` or `refund` succeeds, every mint has as many tokens over all
/// token accounts as before (closing the escrow moves lamports only).
pub proof fn settle_keeps_each_supply(
    ledger: Ledger,
    signers: Set<Seq<u8>>,
    program_id: Seq<u8>,
    cpis: Seq<TokenCpi>,
    escrow: Seq<u8>,
    close_to: Seq<u8>,
    mint: Seq<u8>,
)
    requires
        ledger.accounts.dom().finite(),
        settle(ledger, signers, program_id, cpis, escrow, close_to) is Some,
    ensures
        supply(settle(ledger, signers, program_id, cpis, escrow, close_to).unwrap(), mint)
            == supply(ledger, mint),
{
    token_calls_keep_supply(ledger, signers, program_id, cpis, mint);
}

/// `take` accepts only an escrow of this program whose record names the
/// maker and both mints passed, at the address its seed and bump derive, and
/// only when the taker signed.
pub proof fn take_checks_escrow_record(accounts: Take, program_id: Seq<u8>)
    requires
        accounts.spec_try_accounts(program_id) is Ok,
    ensures
        accounts.taker.is_signer,
        accounts.escrow.owner@ == program_id,
        accounts.escrow_data.maker@ == accounts.maker.key@,
        accounts.escrow_data.mint_a@ == accounts.mint_a.info.key@,
        accounts.escrow_data.mint_b@ == accounts.mint_b.info.key@,
        spec_create_program_address(
            spec_escrow_signer_seeds(
                accounts.maker.key@,
                accounts.escrow_data.seed,
                accounts.escrow_data.bump,
            ),
            program_id,
        ) == Some(accounts.escrow.key@),
{
}

/// `refund` accepts only an escrow of this program whose record names the
/// maker and both mints passed, at the address its seed and bump derive, and
/// only when that maker signed.
pub proof fn refund_checks_escrow_record(accounts: Refund, program_id: Seq<u8>)
    requires
        accounts.spec_try_accounts(program_id) is Ok,
    ensures
        accounts.maker.is_signer,
        accounts.escrow.owner@ == program_id,
        accounts.escrow_data.maker@ == accounts.maker.key@,
        accounts.escrow_data.mint_a@ == accounts.mint_a.info.key@,
        accounts.escrow_data.mint_b@ == accounts.mint_b.info.key@,
        spec_create_program_address(
            spec_escrow_signer_seeds(
                accounts.maker.key@,
                accounts.escrow_data.seed,
                accounts.escrow_data.bump,
            ),
            program_id,
        ) == Some(accounts.escrow.key@),
{
}

/// Summing the holdings over a finite set of addresses may take any one
/// address out first.
pub proof fn lemma_supply_over_remove(
    accounts: Map<Seq<u8>, TokenBalance>,
    keys: Set<Seq<u8>>,
    mint: Seq<u8>,
    k: Seq<u8>,
)
    requires
        keys.finite(),
        keys.contains(k),
    ensures
        supply_over(accounts, keys, mint) == holding(accounts, k, mint) + supply_over(
            accounts,
            keys.remove(k),
            mint,
        ),
    decreases keys.len(),
{
    let c = keys.choose();
    if c != k {
        lemma_supply_over_remove(accounts, keys.remove(c), mint, k);
        lemma_supply_over_remove(accounts, keys.remove(k), mint, c);
        assert(keys.remove(c).remove(k) =~= keys.remove(k).remove(c));
    }
}

/// Two maps that give every address of `keys` the same holding of `mint`
/// sum to the same over `keys`.
pub proof fn lemma_supply_over_agree(
    a: Map<Seq<u8>, TokenBalance>,
    b: Map<Seq<u8>, TokenBalance>,
    keys: Set<Seq<u8>>,
    mint: Seq<u8>,
)
    requires
        keys.finite(),
        forall|k: Seq<u8>| keys.contains(k) ==> holding(a, k, mint) == holding(b, k, mint),
    ensures
        supply_over(a, keys, mint) == supply_over(b, keys, mint),
    decreases keys.len(),
{
    if keys.len() != 0 {
        let c = keys.choose();
        lemma_supply_over_agree(a, b, keys.remove(c), mint);
    }
}

/// A token call that succeeds keeps the number of tokens of every mint: a
/// transfer moves tokens between two accounts of one mint, and only an
/// empty account is closed.
pub proof fn token_call_keeps_supply(
    ledger: Ledger,
    signers: Set<Seq<u8>>,
    caller: Seq<u8>,
    cpi: TokenCpi,
    mint: Seq<u8>,
)
    requires
        ledger.accounts.dom().finite(),
        apply_cpi(ledger, signers, caller, cpi) is Some,
    ensures
        apply_cpi(ledger, signers, caller, cpi).unwrap().accounts.dom().finite(),
        supply(apply_cpi(ledger, signers, caller, cpi).unwrap(), mint) == supply(ledger, mint),
{
    let after = apply_cpi(ledger, signers, caller, cpi).unwrap();
    let dom = ledger.accounts.dom();
    match cpi {
        TokenCpi::TransferChecked { from, to, .. } => {
            let f = from@;
            let t = to@;
            if f != t {
                assert(after.accounts.dom() =~= dom);
                lemma_supply_over_remove(ledger.accounts, dom, mint, f);
                lemma_supply_over_remove(ledger.accounts, dom.remove(f), mint, t);
                lemma_supply_over_remove(after.accounts, dom, mint, f);
                lemma_supply_over_remove(after.accounts, dom.remove(f), mint, t);
                lemma_supply_over_agree(
                    ledger.accounts,
                    after.accounts,
                    dom.remove(f).remove(t),
                    mint,
                );
            }
        },
        TokenCpi::CloseAccount { account, .. } => {
            let a = account@;
            assert(after.accounts.dom() =~= dom.remove(a));
            lemma_supply_over_remove(ledger.accounts, dom, mint, a);
            lemma_supply_over_agree(ledger.accounts, after.accounts, dom.remove(a), mint);
        },
    }
}

/// Token calls that all succeed keep the number of tokens of every mint.
pub proof fn token_calls_keep_supply(
    ledger: Ledger,
    signers: Set<Seq<u8>>,
    caller: Seq<u8>,
    cpis: Seq<TokenCpi>,
    mint: Seq<u8>,
)
    requires
        ledger.accounts.dom().finite(),
        apply_cpis(ledger, signers, caller, cpis) is Some,
    ensures
        apply_cpis(ledger, signers, caller, cpis).unwrap().accounts.dom().finite(),
        supply(apply_cpis(ledger, signers, caller, cpis).unwrap(), mint) == supply(ledger, mint),
    decreases cpis.len(),
{
    if cpis.len() > 0 {
        token_call_keeps_supply(ledger, signers, caller, cpis[0], mint);
        let next = apply_cpi(ledger, signers, caller, cpis[0]).unwrap();
        token_calls_keep_supply(next, signers, caller, cpis.skip(1), mint);
    }
}

} // verus!
