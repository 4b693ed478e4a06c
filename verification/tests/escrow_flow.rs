use std::collections::HashMap;

use anchor_lang::prelude::Pubkey;
use anchor_spl::associated_token::get_associated_token_address_with_program_id;
use escrow_contract::accounts::{AccountRef, AssociatedSlot, MintAccount, TokenAccount};
use escrow_contract::address::Address;
use escrow_contract::cpi::TokenCpi;
use escrow_contract::error::EscrowError;
use escrow_contract::escrow_contract::{make, refund, take};
use escrow_contract::instructions::make::Make;
use escrow_contract::instructions::refund::Refund;
use escrow_contract::instructions::take::Take;
use escrow_contract::programs::{
    associated_token_program_id, system_program_id, token_2022_program_id, token_program_id,
};

const PROGRAM_ID: [u8; 32] = [
    161, 58, 107, 33, 67, 21, 241, 211, 219, 54, 214, 79, 177, 169, 17, 170, 154, 5, 157, 62,
    177, 232, 30, 232, 84, 153, 222, 173, 254, 161, 105, 31,
];

fn pk(a: &Address) -> Pubkey {
    Pubkey::new_from_array(a.bytes)
}

fn addr(p: &Pubkey) -> Address {
    Address::new(p.to_bytes())
}

fn ata(wallet: &Address, mint: &Address, token_program: &Address) -> Address {
    addr(&get_associated_token_address_with_program_id(
        &pk(wallet),
        &pk(mint),
        &pk(token_program),
    ))
}

fn info(key: Address, owner: Address, is_signer: bool, is_writable: bool) -> AccountRef {
    let data_len = if owner == system_program_id() { 0 } else { 165 };
    AccountRef { key, owner, lamports: 2_039_280, data_len, is_signer, is_writable, executable: false }
}

fn program(key: Address) -> AccountRef {
    AccountRef {
        key,
        owner: Address::new([0; 32]),
        lamports: 1,
        data_len: 36,
        is_signer: false,
        is_writable: false,
        executable: true,
    }
}

/// The addresses of one escrow scenario.
struct Scene {
    program_id: Address,
    maker: Address,
    taker: Address,
    mint_a: Address,
    mint_b: Address,
    escrow: Address,
    bump: u8,
    vault: Address,
    maker_ata_a: Address,
    maker_ata_b: Address,
    taker_ata_a: Address,
    taker_ata_b: Address,
    seed: u64,
}

fn scene(seed: u64) -> Scene {
    let program_id = Address::new(PROGRAM_ID);
    let maker = Address::new([11; 32]);
    let taker = Address::new([22; 32]);
    let mint_a = Address::new([33; 32]);
    let mint_b = Address::new([44; 32]);
    let tp = token_program_id();
    let (escrow_pk, bump) = Pubkey::find_program_address(
        &[b"escrow", &maker.bytes, &seed.to_le_bytes()],
        &pk(&program_id),
    );
    let escrow = addr(&escrow_pk);
    Scene {
        program_id,
        maker,
        taker,
        mint_a,
        mint_b,
        escrow,
        bump,
        vault: ata(&escrow, &mint_a, &tp),
        maker_ata_a: ata(&maker, &mint_a, &tp),
        maker_ata_b: ata(&maker, &mint_b, &tp),
        taker_ata_a: ata(&taker, &mint_a, &tp),
        taker_ata_b: ata(&taker, &mint_b, &tp),
        seed,
    }
}

fn mint(key: Address) -> MintAccount {
    MintAccount { info: info(key, token_program_id(), false, false), decimals: 9 }
}

fn token(key: Address, mint: Address, owner: Address, amount: u64) -> TokenAccount {
    TokenAccount {
        info: info(key, token_program_id(), false, true),
        mint,
        owner,
        amount,
        is_frozen: false,
    }
}

fn make_accounts(s: &Scene, maker_balance: u64) -> Make {
    Make {
        maker: info(s.maker, system_program_id(), true, true),
        escrow: info(s.escrow, system_program_id(), false, true),
        escrow_data: None,
        mint_a: mint(s.mint_a),
        mint_b: mint(s.mint_b),
        maker_ata_a: token(s.maker_ata_a, s.mint_a, s.maker, maker_balance),
        vault: info(s.vault, system_program_id(), false, true),
        token_program: program(token_program_id()),
        associated_token_program: program(associated_token_program_id()),
        system_program: program(system_program_id()),
    }
}

/// Token accounts as the token program keeps them: mint, owner, balance.
struct Ledger {
    accounts: HashMap<[u8; 32], ([u8; 32], [u8; 32], u64)>,
    program_id: Address,
}

impl Ledger {
    fn open(&mut self, key: Address, mint: Address, owner: Address, amount: u64) {
        self.accounts.insert(key.bytes, (mint.bytes, owner.bytes, amount));
    }

    fn balance(&self, key: &Address) -> Option<u64> {
        self.accounts.get(&key.bytes).map(|a| a.2)
    }

    fn approved(&self, authority: &Address, signers: &[Address], seeds: &Option<Vec<Vec<u8>>>) -> bool {
        if signers.iter().any(|s| s == authority) {
            return true;
        }
        match seeds {
            Some(seeds) => {
                let slices: Vec<&[u8]> = seeds.iter().map(|s| s.as_slice()).collect();
                Pubkey::create_program_address(&slices, &pk(&self.program_id))
                    .map(|p| addr(&p) == *authority)
                    .unwrap_or(false)
            }
            None => false,
        }
    }

    fn apply(&mut self, cpi: &TokenCpi, signers: &[Address]) -> Result<(), String> {
        match cpi {
            TokenCpi::TransferChecked { from, mint, to, authority, amount, signer_seeds, .. } => {
                let src = *self.accounts.get(&from.bytes).ok_or("no source")?;
                let dst = *self.accounts.get(&to.bytes).ok_or("no destination")?;
                if src.0 != mint.bytes || dst.0 != mint.bytes {
                    return Err("mint mismatch".into());
                }
                if src.1 != authority.bytes || !self.approved(authority, signers, signer_seeds) {
                    return Err("not approved".into());
                }
                if src.2 < *amount {
                    return Err("insufficient funds".into());
                }
                self.accounts.get_mut(&from.bytes).unwrap().2 -= amount;
                self.accounts.get_mut(&to.bytes).unwrap().2 += amount;
                Ok(())
            }
            TokenCpi::CloseAccount { account, authority, signer_seeds, .. } => {
                let acc = *self.accounts.get(&account.bytes).ok_or("no account")?;
                if acc.2 != 0 {
                    return Err("not empty".into());
                }
                if acc.1 != authority.bytes || !self.approved(authority, signers, signer_seeds) {
                    return Err("not approved".into());
                }
                self.accounts.remove(&account.bytes);
                Ok(())
            }
        }
    }
}

fn ledger_for(s: &Scene) -> Ledger {
    let mut l = Ledger { accounts: HashMap::new(), program_id: s.program_id };
    l.open(s.maker_ata_a, s.mint_a, s.maker, 50_000_000_000);
    l.open(s.maker_ata_b, s.mint_b, s.maker, 0);
    l.open(s.taker_ata_a, s.mint_a, s.taker, 0);
    l.open(s.taker_ata_b, s.mint_b, s.taker, 5_000_000_000);
    l
}

fn take_accounts(s: &Scene, record: escrow_contract::state::EscrowAccount, ledger: &Ledger) -> Take {
    let existing = |key: Address, mint: Address, owner: Address| {
        AssociatedSlot::Initialized(token(key, mint, owner, ledger.balance(&key).unwrap()))
    };
    Take {
        taker: info(s.taker, system_program_id(), true, true),
        maker: info(s.maker, system_program_id(), false, true),
        escrow: info(s.escrow, s.program_id, false, true),
        escrow_data: record,
        mint_a: mint(s.mint_a),
        mint_b: mint(s.mint_b),
        taker_ata_a: existing(s.taker_ata_a, s.mint_a, s.taker),
        taker_ata_b: existing(s.taker_ata_b, s.mint_b, s.taker),
        maker_ata_b: existing(s.maker_ata_b, s.mint_b, s.maker),
        vault: token(s.vault, s.mint_a, s.escrow, ledger.balance(&s.vault).unwrap()),
        system_program: program(system_program_id()),
        token_program: program(token_program_id()),
        associated_token_program: program(associated_token_program_id()),
    }
}

fn refund_accounts(s: &Scene, record: escrow_contract::state::EscrowAccount, ledger: &Ledger) -> Refund {
    Refund {
        maker: info(s.maker, system_program_id(), true, true),
        escrow: info(s.escrow, s.program_id, false, true),
        escrow_data: record,
        mint_a: mint(s.mint_a),
        mint_b: mint(s.mint_b),
        maker_ata_a: token(s.maker_ata_a, s.mint_a, s.maker, ledger.balance(&s.maker_ata_a).unwrap()),
        vault: token(s.vault, s.mint_a, s.escrow, ledger.balance(&s.vault).unwrap()),
        token_program: program(token_program_id()),
        associated_token_program: program(associated_token_program_id()),
        system_program: program(system_program_id()),
    }
}

/// Runs `make` for the scenario's maker (10 tokens of A offered for 5 of B,
/// in base units) and applies its calls to the ledger.
fn run_make(s: &Scene, ledger: &mut Ledger) -> escrow_contract::state::EscrowAccount {
    let mut m = make_accounts(s, ledger.balance(&s.maker_ata_a).unwrap());
    let cpis = make(&mut m, &s.program_id, s.seed, 10_000_000_000, 5_000_000_000).unwrap();
    // The vault is created empty by the framework before the body runs.
    ledger.open(s.vault, s.mint_a, s.escrow, 0);
    for cpi in &cpis {
        ledger.apply(cpi, &[s.maker]).unwrap();
    }
    m.escrow_data.unwrap()
}

#[test]
fn make_and_test() {
    let s = scene(42);
    let mut ledger = ledger_for(&s);
    assert_eq!(ledger.balance(&s.maker_ata_a), Some(50_000_000_000));

    let record = run_make(&s, &mut ledger);
    assert_eq!(ledger.balance(&s.vault), Some(10_000_000_000));

    let t = take_accounts(&s, record, &ledger);
    let settlement = take(&t, &s.program_id).unwrap();
    for cpi in &settlement.cpis {
        ledger.apply(cpi, &[s.taker]).unwrap();
    }
    assert_eq!(settlement.close_escrow_to, s.maker);

    assert_eq!(ledger.balance(&s.vault), None);
    assert_eq!(ledger.balance(&s.maker_ata_b), Some(5_000_000_000));
    assert_eq!(ledger.balance(&s.taker_ata_b), Some(0));
    assert_eq!(ledger.balance(&s.taker_ata_a), Some(10_000_000_000));
}

#[test]
fn make_and_refund() {
    let s = scene(42);
    let mut ledger = ledger_for(&s);
    assert_eq!(ledger.balance(&s.maker_ata_a), Some(50_000_000_000));

    let record = run_make(&s, &mut ledger);
    assert_eq!(ledger.balance(&s.vault), Some(10_000_000_000));

    let r = refund_accounts(&s, record, &ledger);
    let settlement = refund(&r, &s.program_id).unwrap();
    for cpi in &settlement.cpis {
        ledger.apply(cpi, &[s.maker]).unwrap();
    }
    assert_eq!(settlement.close_escrow_to, s.maker);

    assert_eq!(ledger.balance(&s.vault), None);
    assert_eq!(ledger.balance(&s.maker_ata_a), Some(50_000_000_000));
}

#[test]
fn make_records_the_offer() {
    let s = scene(42);
    let mut m = make_accounts(&s, 50_000_000_000);
    let cpis = make(&mut m, &s.program_id, 42, 10_000_000_000, 5_000_000_000).unwrap();
    let record = m.escrow_data.unwrap();
    assert_eq!(record.seed, 42);
    assert_eq!(record.maker, s.maker);
    assert_eq!(record.mint_a, s.mint_a);
    assert_eq!(record.mint_b, s.mint_b);
    assert_eq!(record.recieve, 5_000_000_000);
    assert_eq!(record.bump, s.bump);
    assert_eq!(cpis.len(), 1);
    match &cpis[0] {
        TokenCpi::TransferChecked {
            token_program,
            from,
            mint,
            to,
            authority,
            amount,
            decimals,
            signer_seeds,
        } => {
            assert_eq!(*token_program, token_program_id());
            assert_eq!(*from, s.maker_ata_a);
            assert_eq!(*mint, s.mint_a);
            assert_eq!(*to, s.vault);
            assert_eq!(*authority, s.maker);
            assert_eq!(*amount, 10_000_000_000);
            assert_eq!(*decimals, 9);
            assert!(signer_seeds.is_none());
        }
        other => panic!("unexpected call {:?}", other),
    }
}

#[test]
fn make_refuses_zero_amounts() {
    let s = scene(42);
    let mut m = make_accounts(&s, 50_000_000_000);
    assert_eq!(make(&mut m, &s.program_id, 42, 0, 5).unwrap_err(), EscrowError::RequireGtViolated);
    assert!(m.escrow_data.is_none());
    assert_eq!(make(&mut m, &s.program_id, 42, 5, 0).unwrap_err(), EscrowError::RequireGtViolated);
    assert!(m.escrow_data.is_none());
    assert_eq!(EscrowError::RequireGtViolated.code(), Some(2505));
}

#[test]
fn make_refuses_wrong_escrow_address() {
    let s = scene(42);
    let mut m = make_accounts(&s, 50_000_000_000);
    // The escrow of seed 42 does not match seed 43.
    assert_eq!(make(&mut m, &s.program_id, 43, 10, 5).unwrap_err(), EscrowError::ConstraintSeeds);
    assert!(m.escrow_data.is_none());
}

#[test]
fn make_refuses_unsigned_maker() {
    let s = scene(42);
    let mut m = make_accounts(&s, 50_000_000_000);
    m.maker.is_signer = false;
    assert_eq!(make(&mut m, &s.program_id, 42, 10, 5).unwrap_err(), EscrowError::AccountNotSigner);
}

#[test]
fn make_refuses_mint_of_other_program() {
    let s = scene(42);
    let mut m = make_accounts(&s, 50_000_000_000);
    m.mint_b.info.owner = token_2022_program_id();
    assert_eq!(
        make(&mut m, &s.program_id, 42, 10, 5).unwrap_err(),
        EscrowError::ConstraintMintTokenProgram
    );
}

#[test]
fn make_refuses_foreign_token_account() {
    let s = scene(42);
    let mut m = make_accounts(&s, 50_000_000_000);
    m.maker_ata_a.owner = s.taker;
    assert_eq!(make(&mut m, &s.program_id, 42, 10, 5).unwrap_err(), EscrowError::ConstraintTokenOwner);
    let mut m = make_accounts(&s, 50_000_000_000);
    m.maker_ata_a.info.key = s.taker_ata_a;
    assert_eq!(make(&mut m, &s.program_id, 42, 10, 5).unwrap_err(), EscrowError::ConstraintAssociated);
}

#[test]
fn make_refuses_wrong_programs() {
    let s = scene(42);
    let mut m = make_accounts(&s, 50_000_000_000);
    m.token_program.key = s.mint_a;
    assert_eq!(make(&mut m, &s.program_id, 42, 10, 5).unwrap_err(), EscrowError::InvalidProgramId);
    let mut m = make_accounts(&s, 50_000_000_000);
    m.mint_a.info.owner = s.program_id;
    assert_eq!(
        make(&mut m, &s.program_id, 42, 10, 5).unwrap_err(),
        EscrowError::AccountOwnedByWrongProgram
    );
    let mut m = make_accounts(&s, 50_000_000_000);
    m.maker_ata_a.info.is_writable = false;
    assert_eq!(make(&mut m, &s.program_id, 42, 10, 5).unwrap_err(), EscrowError::ConstraintMut);
}

fn made(s: &Scene) -> (escrow_contract::state::EscrowAccount, Ledger) {
    let mut ledger = ledger_for(s);
    let record = run_make(s, &mut ledger);
    (record, ledger)
}

#[test]
fn take_pays_recorded_price_and_hands_over_vault() {
    let s = scene(7);
    let (record, ledger) = made(&s);
    let t = take_accounts(&s, record, &ledger);
    let settlement = take(&t, &s.program_id).unwrap();
    assert_eq!(settlement.cpis.len(), 3);
    let seeds = vec![
        b"escrow".to_vec(),
        s.maker.bytes.to_vec(),
        7u64.to_le_bytes().to_vec(),
        vec![s.bump],
    ];
    match &settlement.cpis[0] {
        TokenCpi::TransferChecked { from, to, authority, amount, mint, signer_seeds, .. } => {
            assert_eq!((*from, *to, *authority, *amount, *mint), (s.taker_ata_b, s.maker_ata_b, s.taker, 5_000_000_000, s.mint_b));
            assert!(signer_seeds.is_none());
        }
        other => panic!("unexpected call {:?}", other),
    }
    match &settlement.cpis[1] {
        TokenCpi::TransferChecked { from, to, authority, amount, mint, signer_seeds, .. } => {
            assert_eq!((*from, *to, *authority, *amount, *mint), (s.vault, s.taker_ata_a, s.escrow, 10_000_000_000, s.mint_a));
            assert_eq!(signer_seeds.as_ref(), Some(&seeds));
        }
        other => panic!("unexpected call {:?}", other),
    }
    match &settlement.cpis[2] {
        TokenCpi::CloseAccount { account, destination, authority, signer_seeds, .. } => {
            assert_eq!((*account, *destination, *authority), (s.vault, s.maker, s.escrow));
            assert_eq!(signer_seeds.as_ref(), Some(&seeds));
        }
        other => panic!("unexpected call {:?}", other),
    }
}

#[test]
fn take_with_missing_token_accounts() {
    let s = scene(42);
    let (record, ledger) = made(&s);
    let mut t = take_accounts(&s, record, &ledger);
    t.taker_ata_a = AssociatedSlot::Uninitialized(info(s.taker_ata_a, system_program_id(), false, true));
    t.maker_ata_b = AssociatedSlot::Uninitialized(info(s.maker_ata_b, system_program_id(), false, true));
    assert!(take(&t, &s.program_id).is_ok());
}

#[test]
fn take_refuses_mismatched_record() {
    let s = scene(42);
    let (record, ledger) = made(&s);
    let mut t = take_accounts(&s, record, &ledger);
    t.escrow_data.mint_b = s.mint_a;
    assert_eq!(take(&t, &s.program_id).unwrap_err(), EscrowError::ConstraintHasOne);
    let mut t = take_accounts(&s, record, &ledger);
    t.escrow_data.bump = record.bump.wrapping_sub(1);
    assert_eq!(take(&t, &s.program_id).unwrap_err(), EscrowError::ConstraintSeeds);
    let mut t = take_accounts(&s, record, &ledger);
    t.escrow.owner = system_program_id();
    assert_eq!(take(&t, &s.program_id).unwrap_err(), EscrowError::AccountOwnedByWrongProgram);
}

#[test]
fn take_refuses_bad_accounts() {
    let s = scene(42);
    let (record, ledger) = made(&s);
    let mut t = take_accounts(&s, record, &ledger);
    t.taker.is_signer = false;
    assert_eq!(take(&t, &s.program_id).unwrap_err(), EscrowError::AccountNotSigner);
    let mut t = take_accounts(&s, record, &ledger);
    t.maker.owner = token_program_id();
    assert_eq!(take(&t, &s.program_id).unwrap_err(), EscrowError::AccountNotSystemOwned);
    let mut t = take_accounts(&s, record, &ledger);
    t.taker_ata_a = AssociatedSlot::Initialized(token(s.taker_ata_b, s.mint_a, s.taker, 0));
    assert_eq!(take(&t, &s.program_id).unwrap_err(), EscrowError::AccountNotAssociatedTokenAccount);
    let mut t = take_accounts(&s, record, &ledger);
    t.taker_ata_a = AssociatedSlot::Initialized(token(s.taker_ata_a, s.mint_b, s.taker, 0));
    assert_eq!(take(&t, &s.program_id).unwrap_err(), EscrowError::ConstraintTokenMint);
    let mut t = take_accounts(&s, record, &ledger);
    t.vault.info.key = s.taker_ata_a;
    assert_eq!(
        take(&t, &s.program_id).unwrap_err(),
        EscrowError::ConstraintDuplicateMutableAccount
    );
    assert_eq!(EscrowError::ConstraintDuplicateMutableAccount.code(), Some(2040));
}

#[test]
fn refund_refuses_other_maker() {
    let s = scene(42);
    let (record, ledger) = made(&s);
    let mut r = refund_accounts(&s, record, &ledger);
    r.maker.key = s.taker;
    // The escrow address is derived from the maker, so another signer fails the seeds check.
    assert_eq!(refund(&r, &s.program_id).unwrap_err(), EscrowError::ConstraintSeeds);
    let mut r = refund_accounts(&s, record, &ledger);
    r.maker.is_signer = false;
    assert_eq!(refund(&r, &s.program_id).unwrap_err(), EscrowError::AccountNotSigner);
}

#[test]
fn take_fails_when_taker_lacks_price() {
    let s = scene(42);
    let (record, mut ledger) = made(&s);
    ledger.open(s.taker_ata_b, s.mint_b, s.taker, 4_999_999_999);
    let t = take_accounts(&s, record, &ledger);
    let settlement = take(&t, &s.program_id).unwrap();
    assert!(ledger.apply(&settlement.cpis[0], &[s.taker]).is_err());
}

#[test]
fn make_refuses_programs_that_cannot_run() {
    let s = scene(42);
    let mut m = make_accounts(&s, 50_000_000_000);
    m.system_program.executable = false;
    assert_eq!(
        make(&mut m, &s.program_id, 42, 10, 5).unwrap_err(),
        EscrowError::InvalidProgramExecutable
    );
    assert_eq!(EscrowError::InvalidProgramExecutable.code(), Some(3009));
}

#[test]
fn make_refuses_token_account_of_other_program() {
    let s = scene(42);
    let mut m = make_accounts(&s, 50_000_000_000);
    m.maker_ata_a.info.owner = token_2022_program_id();
    assert_eq!(
        make(&mut m, &s.program_id, 42, 10, 5).unwrap_err(),
        EscrowError::ConstraintAssociatedTokenTokenProgram
    );
}

#[test]
fn take_refuses_missing_escrow() {
    let s = scene(42);
    let (record, ledger) = made(&s);
    let mut t = take_accounts(&s, record, &ledger);
    t.escrow.owner = system_program_id();
    t.escrow.lamports = 0;
    assert_eq!(take(&t, &s.program_id).unwrap_err(), EscrowError::AccountNotInitialized);
    assert_eq!(EscrowError::AccountNotInitialized.code(), Some(3012));
}

#[test]
fn token_calls_address_the_spl_token_program() {
    let s = scene(42);
    let tp = token_2022_program_id();
    let mut m = make_accounts(&s, 50_000_000_000);
    m.token_program = program(tp);
    m.mint_a.info.owner = tp;
    m.mint_b.info.owner = tp;
    m.maker_ata_a.info.owner = tp;
    m.maker_ata_a.info.key = ata(&s.maker, &s.mint_a, &tp);
    m.vault.key = ata(&s.escrow, &s.mint_a, &tp);
    let cpis = make(&mut m, &s.program_id, 42, 10, 5).unwrap();
    match &cpis[0] {
        TokenCpi::TransferChecked { token_program, .. } => {
            assert_eq!(*token_program, token_program_id())
        }
        other => panic!("unexpected call {:?}", other),
    }
}

#[test]
fn refund_refuses_vault_passed_twice() {
    let s = scene(42);
    let (record, ledger) = made(&s);
    let mut r = refund_accounts(&s, record, &ledger);
    r.maker_ata_a.info.key = s.vault;
    assert_eq!(
        refund(&r, &s.program_id).unwrap_err(),
        EscrowError::ConstraintDuplicateMutableAccount
    );
    let mut r = refund_accounts(&s, record, &ledger);
    r.escrow_data.maker = s.taker;
    assert_eq!(refund(&r, &s.program_id).unwrap_err(), EscrowError::ConstraintHasOne);
}

#[test]
fn make_refuses_existing_escrow() {
    let s = scene(42);
    let mut m = make_accounts(&s, 50_000_000_000);
    // A second offer with the same seed finds the escrow already created.
    m.escrow = info(s.escrow, s.program_id, false, true);
    assert_eq!(make(&mut m, &s.program_id, 42, 10, 5).unwrap_err(), EscrowError::AccountAlreadyInUse);
    assert!(m.escrow_data.is_none());
    // A System account that already holds data cannot be created either.
    let mut m = make_accounts(&s, 50_000_000_000);
    m.escrow.data_len = 8;
    assert_eq!(make(&mut m, &s.program_id, 42, 10, 5).unwrap_err(), EscrowError::AccountAlreadyInUse);
}

#[test]
fn make_refuses_existing_vault() {
    let s = scene(42);
    let mut m = make_accounts(&s, 50_000_000_000);
    m.vault = info(s.vault, token_program_id(), false, true);
    assert_eq!(make(&mut m, &s.program_id, 42, 10, 5).unwrap_err(), EscrowError::AccountAlreadyInUse);
    assert!(m.escrow_data.is_none());
}

#[test]
fn make_refuses_vault_elsewhere() {
    let s = scene(42);
    let mut m = make_accounts(&s, 50_000_000_000);
    // The maker's own mint_b account address is no vault of the escrow.
    m.vault = info(s.maker_ata_b, system_program_id(), false, true);
    assert_eq!(make(&mut m, &s.program_id, 42, 10, 5).unwrap_err(), EscrowError::MissingAccount);
    let mut m = make_accounts(&s, 50_000_000_000);
    m.vault = info(ata(&s.maker, &s.mint_a, &token_program_id()), system_program_id(), false, true);
    assert_eq!(make(&mut m, &s.program_id, 42, 10, 5).unwrap_err(), EscrowError::MissingAccount);
}

#[test]
fn make_refuses_read_only_new_accounts() {
    let s = scene(42);
    let mut m = make_accounts(&s, 50_000_000_000);
    m.escrow.is_writable = false;
    assert_eq!(make(&mut m, &s.program_id, 42, 10, 5).unwrap_err(), EscrowError::PrivilegeEscalation);
    let mut m = make_accounts(&s, 50_000_000_000);
    m.vault.is_writable = false;
    assert_eq!(make(&mut m, &s.program_id, 42, 10, 5).unwrap_err(), EscrowError::PrivilegeEscalation);
    let mut m = make_accounts(&s, 50_000_000_000);
    m.maker.is_writable = false;
    assert_eq!(make(&mut m, &s.program_id, 42, 10, 5).unwrap_err(), EscrowError::PrivilegeEscalation);
}

#[test]
fn take_refuses_missing_account_elsewhere() {
    let s = scene(42);
    let (record, ledger) = made(&s);
    let mut t = take_accounts(&s, record, &ledger);
    t.taker_ata_a = AssociatedSlot::Uninitialized(info(Address::new([99; 32]), system_program_id(), false, true));
    assert_eq!(take(&t, &s.program_id).unwrap_err(), EscrowError::MissingAccount);
    let mut t = take_accounts(&s, record, &ledger);
    // The taker's mint_b account address for the maker's mint_b account.
    t.maker_ata_b = AssociatedSlot::Uninitialized(info(s.taker_ata_b, system_program_id(), false, true));
    assert_eq!(take(&t, &s.program_id).unwrap_err(), EscrowError::MissingAccount);
    let mut t = take_accounts(&s, record, &ledger);
    let mut occupied = info(s.taker_ata_a, system_program_id(), false, true);
    occupied.data_len = 1;
    t.taker_ata_a = AssociatedSlot::Uninitialized(occupied);
    assert_eq!(take(&t, &s.program_id).unwrap_err(), EscrowError::AccountAlreadyInUse);
}

fn supply(ledger: &Ledger, mint: &Address) -> u64 {
    ledger.accounts.values().filter(|a| a.0 == mint.bytes).map(|a| a.2).sum()
}

#[test]
fn exchange_keeps_each_mint_supply() {
    let s = scene(42);
    let mut ledger = ledger_for(&s);
    let a0 = supply(&ledger, &s.mint_a);
    let b0 = supply(&ledger, &s.mint_b);
    let record = run_make(&s, &mut ledger);
    assert_eq!((supply(&ledger, &s.mint_a), supply(&ledger, &s.mint_b)), (a0, b0));
    let t = take_accounts(&s, record, &ledger);
    let settlement = take(&t, &s.program_id).unwrap();
    for cpi in &settlement.cpis {
        ledger.apply(cpi, &[s.taker]).unwrap();
    }
    assert_eq!((supply(&ledger, &s.mint_a), supply(&ledger, &s.mint_b)), (a0, b0));
}

#[test]
fn settlements_send_all_rent_to_the_maker() {
    let s = scene(42);
    let (record, ledger) = made(&s);
    let t = take_accounts(&s, record, &ledger);
    let settlement = take(&t, &s.program_id).unwrap();
    assert_eq!(settlement.close_escrow_to, s.maker);
    match &settlement.cpis[2] {
        TokenCpi::CloseAccount { account, destination, .. } => {
            assert_eq!((*account, *destination), (s.vault, s.maker))
        }
        other => panic!("unexpected call {:?}", other),
    }
    let r = refund_accounts(&s, record, &ledger);
    let settlement = refund(&r, &s.program_id).unwrap();
    assert_eq!(settlement.close_escrow_to, s.maker);
    match &settlement.cpis[1] {
        TokenCpi::CloseAccount { account, destination, .. } => {
            assert_eq!((*account, *destination), (s.vault, s.maker))
        }
        other => panic!("unexpected call {:?}", other),
    }
}

#[test]
fn frozen_accounts_are_left_to_the_token_program() {
    // The program itself does not look at the frozen state: it makes the
    // same calls, and the token program refuses them.
    let s = scene(42);
    let (record, ledger) = made(&s);
    let plain = take(&take_accounts(&s, record, &ledger), &s.program_id).unwrap();
    let mut t = take_accounts(&s, record, &ledger);
    if let AssociatedSlot::Initialized(acc) = &mut t.taker_ata_b {
        acc.is_frozen = true;
    }
    t.vault.is_frozen = true;
    let frozen = take(&t, &s.program_id).unwrap();
    assert_eq!(format!("{:?}", plain.cpis), format!("{:?}", frozen.cpis));
    let mut m = make_accounts(&s, 50_000_000_000);
    m.maker_ata_a.is_frozen = true;
    assert!(make(&mut m, &s.program_id, 42, 10, 5).is_ok());
}
