use vstd::prelude::*;

use crate::address::Address;
use crate::error::EscrowError;
use crate::pda::{
    associated_token_address, create_program_address, spec_associated_token_address,
    spec_create_program_address,
};
use crate::state::{escrow_signer_seeds, spec_escrow_signer_seeds};
use crate::programs::{
    spec_system_program_id, spec_token_2022_program_id, spec_token_program_id,
    system_program_id, token_2022_program_id, token_program_id,
};

verus! {

/// What an instruction sees of any account it is passed: its address, the
/// program that owns it, its lamports, the length of its data, whether it
/// signed, whether it is writable, and whether it is an executable program.
#[derive(Clone, Copy, Debug, PartialEq, Eq)]
pub struct AccountRef {
    pub key: Address,
    pub owner: Address,
    pub lamports: u64,
    pub data_len: u64,
    pub is_signer: bool,
    pub is_writable: bool,
    pub executable: bool,
}

/// A mint account with the number of decimals of its tokens.
#[derive(Clone, Copy, Debug, PartialEq, Eq)]
pub struct MintAccount {
    pub info: AccountRef,
    pub decimals: u8,
}

/// A token account: which mint it holds, the wallet that owns it, its
/// balance, and whether the mint's freeze authority has frozen it.
#[derive(Clone, Copy, Debug, PartialEq, Eq)]
pub struct TokenAccount {
    pub info: AccountRef,
    pub mint: Address,
    pub owner: Address,
    pub amount: u64,
    pub is_frozen: bool,
}

/// An associated token account that the instruction creates if it does not
/// exist yet: either a System-owned account still to be created, or an
/// existing token account.
#[derive(Clone, Copy, Debug, PartialEq, Eq)]
pub enum AssociatedSlot {
    Uninitialized(AccountRef),
    Initialized(TokenAccount),
}

impl AssociatedSlot {
    /// The slot's account.
    pub open spec fn info(self) -> AccountRef {
        match self {
            AssociatedSlot::Uninitialized(info) => info,
            AssociatedSlot::Initialized(acc) => acc.info,
        }
    }

    /// The slot's account.
    pub fn account(&self) -> (r: AccountRef)
        ensures
            r == self.info(),
    {
        match self {
            AssociatedSlot::Uninitialized(info) => *info,
            AssociatedSlot::Initialized(acc) => acc.info,
        }
    }

    /// The slot's address.
    pub fn key(&self) -> (r: Address)
        ensures
            r == self.info().key,
    {
        match self {
            AssociatedSlot::Uninitialized(info) => info.key,
            AssociatedSlot::Initialized(acc) => acc.info.key,
        }
    }
}

/// Whether `program` is one of the two token programs (SPL Token, Token-2022).
pub open spec fn spec_is_token_program(program: Seq<u8>) -> bool {
    program == spec_token_program_id() || program == spec_token_2022_program_id()
}

/// Tells whether `program` is one of the two token programs.
pub fn is_token_program(program: &Address) -> (r: bool)
    ensures
        r == spec_is_token_program(program@),
{
    program.same(&token_program_id()) || program.same(&token_2022_program_id())
}

/// `Signer`: the account signed.
pub open spec fn spec_check_signer(account: AccountRef) -> Result<(), EscrowError> {
    if account.is_signer {
        Ok(())
    } else {
        Err(EscrowError::AccountNotSigner)
    }
}

/// Checks that a `Signer` account signed.
pub fn check_signer(account: &AccountRef) -> (r: Result<(), EscrowError>)
    ensures
        r == spec_check_signer(*account),
{
    if account.is_signer {
        Ok(())
    } else {
        Err(EscrowError::AccountNotSigner)
    }
}

/// `mut`: the account is writable.
pub open spec fn spec_check_writable(account: AccountRef) -> Result<(), EscrowError> {
    if account.is_writable {
        Ok(())
    } else {
        Err(EscrowError::ConstraintMut)
    }
}

/// Checks that a `mut` account is writable.
pub fn check_writable(account: &AccountRef) -> (r: Result<(), EscrowError>)
    ensures
        r == spec_check_writable(*account),
{
    if account.is_writable {
        Ok(())
    } else {
        Err(EscrowError::ConstraintMut)
    }
}

/// `SystemAccount`: the account is owned by the System program.
pub open spec fn spec_check_system_owned(account: AccountRef) -> Result<(), EscrowError> {
    if account.owner@ == spec_system_program_id() {
        Ok(())
    } else {
        Err(EscrowError::AccountNotSystemOwned)
    }
}

/// Checks that a `SystemAccount` is owned by the System program.
pub fn check_system_owned(account: &AccountRef) -> (r: Result<(), EscrowError>)
    ensures
        r == spec_check_system_owned(*account),
{
    if account.owner.same(&system_program_id()) {
        Ok(())
    } else {
        Err(EscrowError::AccountNotSystemOwned)
    }
}

/// Loading an account that must be owned by one of `owners`: an empty
/// System-owned account does not exist yet; any other owner is refused.
pub open spec fn spec_check_loaded(account: AccountRef, owned: bool) -> Result<(), EscrowError> {
    if account.owner@ == spec_system_program_id() && account.lamports == 0 {
        Err(EscrowError::AccountNotInitialized)
    } else if !owned {
        Err(EscrowError::AccountOwnedByWrongProgram)
    } else {
        Ok(())
    }
}

/// Whether the account does not exist yet: System-owned and without lamports.
fn is_unfunded_system_account(account: &AccountRef) -> (r: bool)
    ensures
        r == (account.owner@ == spec_system_program_id() && account.lamports == 0),
{
    account.owner.same(&system_program_id()) && account.lamports == 0
}

/// `InterfaceAccount` of a mint or token account: loaded from an account
/// owned by one of the token programs.
pub open spec fn spec_check_token_owned(account: AccountRef) -> Result<(), EscrowError> {
    spec_check_loaded(account, spec_is_token_program(account.owner@))
}

/// Checks that a mint or token account is owned by one of the token programs.
pub fn check_token_owned(account: &AccountRef) -> (r: Result<(), EscrowError>)
    ensures
        r == spec_check_token_owned(*account),
{
    if is_unfunded_system_account(account) {
        Err(EscrowError::AccountNotInitialized)
    } else if !is_token_program(&account.owner) {
        Err(EscrowError::AccountOwnedByWrongProgram)
    } else {
        Ok(())
    }
}

/// `Account` of this program's own type: loaded from an account owned by
/// the program.
pub open spec fn spec_check_program_owned(account: AccountRef, program_id: Seq<u8>) -> Result<
    (),
    EscrowError,
> {
    spec_check_loaded(account, account.owner@ == program_id)
}

/// Checks that an account of this program's own type is owned by the program.
pub fn check_program_owned(account: &AccountRef, program_id: &Address) -> (r: Result<
    (),
    EscrowError,
>)
    ensures
        r == spec_check_program_owned(*account, program_id@),
{
    if is_unfunded_system_account(account) {
        Err(EscrowError::AccountNotInitialized)
    } else if !account.owner.same(program_id) {
        Err(EscrowError::AccountOwnedByWrongProgram)
    } else {
        Ok(())
    }
}

/// A program account: its address is an accepted program id, and it is
/// executable.
pub open spec fn spec_check_program(account: AccountRef, accepted: bool) -> Result<(), EscrowError> {
    if !accepted {
        Err(EscrowError::InvalidProgramId)
    } else if !account.executable {
        Err(EscrowError::InvalidProgramExecutable)
    } else {
        Ok(())
    }
}

/// `Interface<TokenInterface>`: one of the two token programs.
pub open spec fn spec_check_token_interface(account: AccountRef) -> Result<(), EscrowError> {
    spec_check_program(account, spec_is_token_program(account.key@))
}

/// Checks that a token-program account is one of the two token programs.
pub fn check_token_interface(account: &AccountRef) -> (r: Result<(), EscrowError>)
    ensures
        r == spec_check_token_interface(*account),
{
    if !is_token_program(&account.key) {
        Err(EscrowError::InvalidProgramId)
    } else if !account.executable {
        Err(EscrowError::InvalidProgramExecutable)
    } else {
        Ok(())
    }
}

/// `Program<P>`: the program `expected`.
pub open spec fn spec_check_program_key(account: AccountRef, expected: Seq<u8>) -> Result<
    (),
    EscrowError,
> {
    spec_check_program(account, account.key@ == expected)
}

/// Checks that a program account is the program `expected`.
pub fn check_program_key(account: &AccountRef, expected: &Address) -> (r: Result<(), EscrowError>)
    ensures
        r == spec_check_program_key(*account, expected@),
{
    if !account.key.same(expected) {
        Err(EscrowError::InvalidProgramId)
    } else if !account.executable {
        Err(EscrowError::InvalidProgramExecutable)
    } else {
        Ok(())
    }
}

/// `mint::token_program = token_program`: the mint is owned by that program.
pub open spec fn spec_check_mint_token_program(mint: MintAccount, token_program: AccountRef) -> Result<
    (),
    EscrowError,
> {
    if mint.info.owner@ == token_program.key@ {
        Ok(())
    } else {
        Err(EscrowError::ConstraintMintTokenProgram)
    }
}

/// Checks `mint::token_program = token_program`.
pub fn check_mint_token_program(mint: &MintAccount, token_program: &AccountRef) -> (r: Result<
    (),
    EscrowError,
>)
    ensures
        r == spec_check_mint_token_program(*mint, *token_program),
{
    if mint.info.owner.same(&token_program.key) {
        Ok(())
    } else {
        Err(EscrowError::ConstraintMintTokenProgram)
    }
}

/// The checks of `associated_token::mint = mint, associated_token::authority
/// = wallet, associated_token::token_program = token_program` on an existing
/// account, in the order they are made.
pub open spec fn spec_check_associated(
    account: TokenAccount,
    wallet: Seq<u8>,
    mint: Seq<u8>,
    token_program: Seq<u8>,
) -> Result<(), EscrowError> {
    if account.info.owner@ != token_program {
        Err(EscrowError::ConstraintAssociatedTokenTokenProgram)
    } else if account.owner@ != wallet {
        Err(EscrowError::ConstraintTokenOwner)
    } else {
        match spec_associated_token_address(wallet, mint, token_program) {
            None => Err(EscrowError::PdaNotFound),
            Some(expected) => if account.info.key@ == expected {
                Ok(())
            } else {
                Err(EscrowError::ConstraintAssociated)
            },
        }
    }
}

/// Checks that an existing token account is the associated token account of
/// `wallet` for `mint` under `token_program`.
pub fn check_associated(
    account: &TokenAccount,
    wallet: &Address,
    mint: &Address,
    token_program: &Address,
) -> (r: Result<(), EscrowError>)
    ensures
        r == spec_check_associated(*account, wallet@, mint@, token_program@),
{
    if !account.info.owner.same(token_program) {
        return Err(EscrowError::ConstraintAssociatedTokenTokenProgram);
    }
    if !account.owner.same(wallet) {
        return Err(EscrowError::ConstraintTokenOwner);
    }
    match associated_token_address(wallet, mint, token_program) {
        None => Err(EscrowError::PdaNotFound),
        Some(expected) => if account.info.key.same(&expected) {
            Ok(())
        } else {
            Err(EscrowError::ConstraintAssociated)
        },
    }
}

/// The account does not exist yet: it belongs to the System program and
/// holds no data.
pub open spec fn spec_is_missing(account: AccountRef) -> bool {
    account.owner@ == spec_system_program_id() && account.data_len == 0
}

/// Creating `account` with `payer` paying through the System program: both
/// must be writable, and the account must not exist yet.
pub open spec fn spec_check_create(account: AccountRef, payer: AccountRef) -> Result<(), EscrowError> {
    if !payer.is_writable || !account.is_writable {
        Err(EscrowError::PrivilegeEscalation)
    } else if !spec_is_missing(account) {
        Err(EscrowError::AccountAlreadyInUse)
    } else {
        Ok(())
    }
}

/// Checks that `account` can be created with `payer` paying.
pub fn check_create(account: &AccountRef, payer: &AccountRef) -> (r: Result<(), EscrowError>)
    ensures
        r == spec_check_create(*account, *payer),
{
    if !payer.is_writable || !account.is_writable {
        Err(EscrowError::PrivilegeEscalation)
    } else if !(account.owner.same(&system_program_id()) && account.data_len == 0) {
        Err(EscrowError::AccountAlreadyInUse)
    } else {
        Ok(())
    }
}

/// `init` of an account of this program's own type: an account that already
/// holds lamports is funded up to rent and must not be the payer; then it is
/// created.
pub open spec fn spec_check_init(account: AccountRef, payer: AccountRef) -> Result<(), EscrowError> {
    if account.lamports != 0 && account.key@ == payer.key@ {
        Err(EscrowError::TryingToInitPayerAsProgramAccount)
    } else {
        spec_check_create(account, payer)
    }
}

/// Checks the `init` of an account of this program's own type.
pub fn check_init(account: &AccountRef, payer: &AccountRef) -> (r: Result<(), EscrowError>)
    ensures
        r == spec_check_init(*account, *payer),
{
    if account.lamports != 0 && account.key.same(&payer.key) {
        Err(EscrowError::TryingToInitPayerAsProgramAccount)
    } else {
        check_create(account, payer)
    }
}

/// `init` of an associated token account: the Associated Token Account
/// program creates the account at the associated address of `wallet` for
/// `mint` under `token_program`, so `account` must be at that address, and
/// then be creatable with `payer` paying.
pub open spec fn spec_check_init_associated(
    account: AccountRef,
    payer: AccountRef,
    wallet: Seq<u8>,
    mint: Seq<u8>,
    token_program: Seq<u8>,
) -> Result<(), EscrowError> {
    match spec_associated_token_address(wallet, mint, token_program) {
        None => Err(EscrowError::PdaNotFound),
        Some(expected) => if account.key@ != expected {
            Err(EscrowError::MissingAccount)
        } else {
            spec_check_create(account, payer)
        },
    }
}

/// Checks the `init` of an associated token account.
pub fn check_init_associated(
    account: &AccountRef,
    payer: &AccountRef,
    wallet: &Address,
    mint: &Address,
    token_program: &Address,
) -> (r: Result<(), EscrowError>)
    ensures
        r == spec_check_init_associated(*account, *payer, wallet@, mint@, token_program@),
{
    match associated_token_address(wallet, mint, token_program) {
        None => Err(EscrowError::PdaNotFound),
        Some(expected) => if !account.key.same(&expected) {
            Err(EscrowError::MissingAccount)
        } else {
            check_create(account, payer)
        },
    }
}

/// The checks on an associated token account that is created when missing:
/// a System-owned account is created as by `init` with `payer` paying; an
/// existing one must be a token account of `mint`, owned by `wallet`, under
/// `token_program`, at the associated address.
pub open spec fn spec_check_associated_if_needed(
    slot: AssociatedSlot,
    payer: AccountRef,
    wallet: Seq<u8>,
    mint: Seq<u8>,
    token_program: Seq<u8>,
) -> Result<(), EscrowError> {
    match slot {
        AssociatedSlot::Uninitialized(info) => if info.owner@ == spec_system_program_id() {
            spec_check_init_associated(info, payer, wallet, mint, token_program)
        } else {
            Err(EscrowError::AccountOwnedByWrongProgram)
        },
        AssociatedSlot::Initialized(account) => if spec_check_token_owned(account.info) is Err {
            spec_check_token_owned(account.info)
        } else if account.mint@ != mint {
            Err(EscrowError::ConstraintTokenMint)
        } else if account.owner@ != wallet {
            Err(EscrowError::ConstraintTokenOwner)
        } else if account.info.owner@ != token_program {
            Err(EscrowError::ConstraintAssociatedTokenTokenProgram)
        } else {
            match spec_associated_token_address(wallet, mint, token_program) {
                None => Err(EscrowError::PdaNotFound),
                Some(expected) => if account.info.key@ == expected {
                    Ok(())
                } else {
                    Err(EscrowError::AccountNotAssociatedTokenAccount)
                },
            }
        },
    }
}

/// Checks an associated token account that is created when missing.
pub fn check_associated_if_needed(
    slot: &AssociatedSlot,
    payer: &AccountRef,
    wallet: &Address,
    mint: &Address,
    token_program: &Address,
) -> (r: Result<(), EscrowError>)
    ensures
        r == spec_check_associated_if_needed(*slot, *payer, wallet@, mint@, token_program@),
{
    match slot {
        AssociatedSlot::Uninitialized(info) => {
            if info.owner.same(&system_program_id()) {
                check_init_associated(info, payer, wallet, mint, token_program)
            } else {
                Err(EscrowError::AccountOwnedByWrongProgram)
            }
        },
        AssociatedSlot::Initialized(account) => {
            check_token_owned(&account.info)?;
            if !account.mint.same(mint) {
                return Err(EscrowError::ConstraintTokenMint);
            }
            if !account.owner.same(wallet) {
                return Err(EscrowError::ConstraintTokenOwner);
            }
            if !account.info.owner.same(token_program) {
                return Err(EscrowError::ConstraintAssociatedTokenTokenProgram);
            }
            match associated_token_address(wallet, mint, token_program) {
                None => Err(EscrowError::PdaNotFound),
                Some(expected) => if account.info.key.same(&expected) {
                    Ok(())
                } else {
                    Err(EscrowError::AccountNotAssociatedTokenAccount)
                },
            }
        },
    }
}

/// The `seeds = ["escrow", maker, seed], bump = bump` check on an existing
/// escrow: its address must be the one those seeds and bump derive.
pub open spec fn spec_check_escrow_address(
    escrow: Seq<u8>,
    maker: Seq<u8>,
    seed: u64,
    bump: u8,
    program_id: Seq<u8>,
) -> Result<(), EscrowError> {
    match spec_create_program_address(spec_escrow_signer_seeds(maker, seed, bump), program_id) {
        None => Err(EscrowError::ConstraintSeeds),
        Some(pda) => if escrow == pda {
            Ok(())
        } else {
            Err(EscrowError::ConstraintSeeds)
        },
    }
}

/// Checks that `escrow` is the address derived from `["escrow", maker,
/// seed, [bump]]` under `program_id`.
pub fn check_escrow_address(
    escrow: &Address,
    maker: &Address,
    seed: u64,
    bump: u8,
    program_id: &Address,
) -> (r: Result<(), EscrowError>)
    ensures
        r == spec_check_escrow_address(escrow@, maker@, seed, bump, program_id@),
{
    let seeds = escrow_signer_seeds(maker, seed, bump);
    match create_program_address(&seeds, program_id) {
        None => Err(EscrowError::ConstraintSeeds),
        Some(pda) => if escrow.same(&pda) {
            Ok(())
        } else {
            Err(EscrowError::ConstraintSeeds)
        },
    }
}

/// Whether no address occurs twice in `keys`.
pub open spec fn spec_all_distinct(keys: Seq<Address>) -> bool {
    forall|i: int, j: int| 0 <= i < j < keys.len() ==> keys[i]@ != keys[j]@
}

/// No writable account of the program's types is passed twice.
pub open spec fn spec_check_distinct(keys: Seq<Address>) -> Result<(), EscrowError> {
    if spec_all_distinct(keys) {
        Ok(())
    } else {
        Err(EscrowError::ConstraintDuplicateMutableAccount)
    }
}

/// Checks that no writable account of the program's types is passed twice.
pub fn check_distinct(keys: &Vec<Address>) -> (r: Result<(), EscrowError>)
    ensures
        r == spec_check_distinct(keys@),
{
    let n = keys.len();
    let mut i: usize = 0;
    while i < n
        invariant
            n == keys@.len(),
            i <= n,
            forall|a: int, b: int| 0 <= a < b < keys@.len() && a < i ==> keys@[a]@ != keys@[b]@,
        decreases n - i,
    {
        let mut j: usize = i + 1;
        while j < n
            invariant
                n == keys@.len(),
                i < n,
                i + 1 <= j <= n,
                forall|a: int, b: int| 0 <= a < b < keys@.len() && a < i ==> keys@[a]@ != keys@[b]@,
                forall|b: int| i < b < j ==> keys@[i as int]@ != keys@[b]@,
            decreases n - j,
        {
            if keys[i].same(&keys[j]) {
                return Err(EscrowError::ConstraintDuplicateMutableAccount);
            }
            j = j + 1;
        }
        i = i + 1;
    }
    Ok(())
}

/// `has_one`: the address a record field names is the account passed.
pub open spec fn spec_check_has_one(named: Address, passed: Address) -> Result<(), EscrowError> {
    if named@ == passed@ {
        Ok(())
    } else {
        Err(EscrowError::ConstraintHasOne)
    }
}

/// Checks a `has_one` constraint.
pub fn check_has_one(named: &Address, passed: &Address) -> (r: Result<(), EscrowError>)
    ensures
        r == spec_check_has_one(*named, *passed),
{
    if named.same(passed) {
        Ok(())
    } else {
        Err(EscrowError::ConstraintHasOne)
    }
}

/// `close = destination`: an account is not closed into itself.
pub open spec fn spec_check_close(account: Address, destination: Address) -> Result<(), EscrowError> {
    if account@ == destination@ {
        Err(EscrowError::ConstraintClose)
    } else {
        Ok(())
    }
}

/// Checks a `close` constraint.
pub fn check_close(account: &Address, destination: &Address) -> (r: Result<(), EscrowError>)
    ensures
        r == spec_check_close(*account, *destination),
{
    if account.same(destination) {
        Err(EscrowError::ConstraintClose)
    } else {
        Ok(())
    }
}

} // verus!
