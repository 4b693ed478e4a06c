use vstd::prelude::*;

verus! {

/// Why an instruction is refused: an Anchor error that the program reports,
/// or a refusal by the runtime or by a program it calls.
#[derive(Clone, Copy, Debug, PartialEq, Eq)]
pub enum EscrowError {
    /// An account declared `mut` was not passed as writable.
    ConstraintMut,
    /// A `has_one` field of the escrow record names another account.
    ConstraintHasOne,
    /// An account's address is not the one its seeds derive.
    ConstraintSeeds,
    /// A token account is not the associated token account it must be.
    ConstraintAssociated,
    /// An account would be closed into itself.
    ConstraintClose,
    /// A token account holds another mint.
    ConstraintTokenMint,
    /// A token account belongs to another wallet.
    ConstraintTokenOwner,
    /// A mint is not owned by the given token program.
    ConstraintMintTokenProgram,
    /// An associated token account is not owned by the given token program.
    ConstraintAssociatedTokenTokenProgram,
    /// The same writable account was passed twice.
    ConstraintDuplicateMutableAccount,
    /// A `require_gt!` check failed (an amount was zero).
    RequireGtViolated,
    /// An account is owned by another program than its type demands.
    AccountOwnedByWrongProgram,
    /// A program account is not the expected program.
    InvalidProgramId,
    /// A program account is not executable.
    InvalidProgramExecutable,
    /// An account that must sign did not.
    AccountNotSigner,
    /// An account that must belong to the System program does not.
    AccountNotSystemOwned,
    /// An account that must already exist does not.
    AccountNotInitialized,
    /// An existing token account is not at its associated address.
    AccountNotAssociatedTokenAccount,
    /// An account created with `init` is the payer itself.
    TryingToInitPayerAsProgramAccount,
    /// The System program refuses to create an account that already exists
    /// (it has an owner other than the System program, or data).
    AccountAlreadyInUse,
    /// A call names an account that the instruction was not passed in that
    /// place: the account to create is not at the address it must have.
    MissingAccount,
    /// A call needs an account writable that the instruction was passed
    /// read-only.
    PrivilegeEscalation,
    /// No bump seed derives a program address from the seeds (the framework
    /// aborts the transaction here).
    PdaNotFound,
}

impl EscrowError {
    /// The Anchor error number reported for this error; `None` where the
    /// refusal is not Anchor's.
    pub fn code(&self) -> (r: Option<u32>)
        ensures
            r == match *self {
                EscrowError::ConstraintMut => Some(2000u32),
                EscrowError::ConstraintHasOne => Some(2001u32),
                EscrowError::ConstraintSeeds => Some(2006u32),
                EscrowError::ConstraintAssociated => Some(2009u32),
                EscrowError::ConstraintClose => Some(2011u32),
                EscrowError::ConstraintTokenMint => Some(2014u32),
                EscrowError::ConstraintTokenOwner => Some(2015u32),
                EscrowError::ConstraintMintTokenProgram => Some(2022u32),
                EscrowError::ConstraintAssociatedTokenTokenProgram => Some(2023u32),
                EscrowError::ConstraintDuplicateMutableAccount => Some(2040u32),
                EscrowError::RequireGtViolated => Some(2505u32),
                EscrowError::AccountOwnedByWrongProgram => Some(3007u32),
                EscrowError::InvalidProgramId => Some(3008u32),
                EscrowError::InvalidProgramExecutable => Some(3009u32),
                EscrowError::AccountNotSigner => Some(3010u32),
                EscrowError::AccountNotSystemOwned => Some(3011u32),
                EscrowError::AccountNotInitialized => Some(3012u32),
                EscrowError::AccountNotAssociatedTokenAccount => Some(3014u32),
                EscrowError::TryingToInitPayerAsProgramAccount => Some(4101u32),
                EscrowError::AccountAlreadyInUse => None,
                EscrowError::MissingAccount => None,
                EscrowError::PrivilegeEscalation => None,
                EscrowError::PdaNotFound => None,
            },
    {
        match self {
            EscrowError::ConstraintMut => Some(2000),
            EscrowError::ConstraintHasOne => Some(2001),
            EscrowError::ConstraintSeeds => Some(2006),
            EscrowError::ConstraintAssociated => Some(2009),
            EscrowError::ConstraintClose => Some(2011),
            EscrowError::ConstraintTokenMint => Some(2014),
            EscrowError::ConstraintTokenOwner => Some(2015),
            EscrowError::ConstraintMintTokenProgram => Some(2022),
            EscrowError::ConstraintAssociatedTokenTokenProgram => Some(2023),
            EscrowError::ConstraintDuplicateMutableAccount => Some(2040),
            EscrowError::RequireGtViolated => Some(2505),
            EscrowError::AccountOwnedByWrongProgram => Some(3007),
            EscrowError::InvalidProgramId => Some(3008),
            EscrowError::InvalidProgramExecutable => Some(3009),
            EscrowError::AccountNotSigner => Some(3010),
            EscrowError::AccountNotSystemOwned => Some(3011),
            EscrowError::AccountNotInitialized => Some(3012),
            EscrowError::AccountNotAssociatedTokenAccount => Some(3014),
            EscrowError::TryingToInitPayerAsProgramAccount => Some(4101),
            EscrowError::AccountAlreadyInUse => None,
            EscrowError::MissingAccount => None,
            EscrowError::PrivilegeEscalation => None,
            EscrowError::PdaNotFound => None,
        }
    }
}

} // verus!
