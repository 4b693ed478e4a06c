use anchor_lang::error::ErrorCode;
use anchor_lang::prelude::Pubkey;
use anchor_spl::associated_token::get_associated_token_address_with_program_id;
use escrow_contract::address::Address;
use escrow_contract::error::EscrowError;
use escrow_contract::pda::associated_token_address;
use escrow_contract::programs::{
    associated_token_program_id, system_program_id, token_2022_program_id, token_program_id,
};
use escrow_contract::state::{escrow_seeds, escrow_signer_seeds};

#[test]
fn program_ids_are_the_token_programs() {
    assert_eq!(token_program_id().bytes, anchor_spl::token::ID.to_bytes());
    assert_eq!(token_2022_program_id().bytes, anchor_spl::token_2022::ID.to_bytes());
    assert_eq!(
        associated_token_program_id().bytes,
        anchor_spl::associated_token::ID.to_bytes()
    );
    assert_eq!(system_program_id().bytes, anchor_lang::system_program::ID.to_bytes());
}

#[test]
fn associated_address_matches_the_derivation() {
    let wallet = Address::new([7; 32]);
    let mint = Address::new([8; 32]);
    for tp in [token_program_id(), token_2022_program_id()] {
        let expected = get_associated_token_address_with_program_id(
            &Pubkey::new_from_array(wallet.bytes),
            &Pubkey::new_from_array(mint.bytes),
            &Pubkey::new_from_array(tp.bytes),
        );
        let got = associated_token_address(&wallet, &mint, &tp).unwrap();
        assert_eq!(got.bytes, expected.to_bytes());
        assert_ne!(got, wallet);
    }
}

#[test]
fn escrow_seeds_are_tag_maker_and_seed() {
    let maker = Address::new([3; 32]);
    let seeds = escrow_seeds(&maker, 42);
    assert_eq!(seeds, vec![b"escrow".to_vec(), vec![3; 32], 42u64.to_le_bytes().to_vec()]);
    let signer = escrow_signer_seeds(&maker, 0x0102030405060708, 254);
    assert_eq!(
        signer,
        vec![
            b"escrow".to_vec(),
            vec![3; 32],
            vec![8, 7, 6, 5, 4, 3, 2, 1],
            vec![254],
        ]
    );
}

#[test]
fn addresses_compare_bytewise() {
    let a = Address::new([1; 32]);
    let mut bytes = [1; 32];
    assert!(a.same(&Address::new(bytes)));
    bytes[31] = 2;
    assert!(!a.same(&Address::new(bytes)));
    bytes[31] = 1;
    bytes[0] = 0;
    assert!(!a.same(&Address::new(bytes)));
    assert_eq!(a.to_vec(), vec![1; 32]);
}

#[test]
fn error_codes_are_the_framework_codes() {
    let pairs = [
        (EscrowError::ConstraintMut, ErrorCode::ConstraintMut),
        (EscrowError::ConstraintHasOne, ErrorCode::ConstraintHasOne),
        (EscrowError::ConstraintSeeds, ErrorCode::ConstraintSeeds),
        (EscrowError::ConstraintAssociated, ErrorCode::ConstraintAssociated),
        (EscrowError::ConstraintClose, ErrorCode::ConstraintClose),
        (EscrowError::ConstraintTokenMint, ErrorCode::ConstraintTokenMint),
        (EscrowError::ConstraintTokenOwner, ErrorCode::ConstraintTokenOwner),
        (EscrowError::ConstraintMintTokenProgram, ErrorCode::ConstraintMintTokenProgram),
        (
            EscrowError::ConstraintAssociatedTokenTokenProgram,
            ErrorCode::ConstraintAssociatedTokenTokenProgram,
        ),
        (
            EscrowError::ConstraintDuplicateMutableAccount,
            ErrorCode::ConstraintDuplicateMutableAccount,
        ),
        (EscrowError::RequireGtViolated, ErrorCode::RequireGtViolated),
        (EscrowError::AccountOwnedByWrongProgram, ErrorCode::AccountOwnedByWrongProgram),
        (EscrowError::InvalidProgramId, ErrorCode::InvalidProgramId),
        (EscrowError::InvalidProgramExecutable, ErrorCode::InvalidProgramExecutable),
        (EscrowError::AccountNotSigner, ErrorCode::AccountNotSigner),
        (EscrowError::AccountNotSystemOwned, ErrorCode::AccountNotSystemOwned),
        (EscrowError::AccountNotInitialized, ErrorCode::AccountNotInitialized),
        (
            EscrowError::AccountNotAssociatedTokenAccount,
            ErrorCode::AccountNotAssociatedTokenAccount,
        ),
        (
            EscrowError::TryingToInitPayerAsProgramAccount,
            ErrorCode::TryingToInitPayerAsProgramAccount,
        ),
    ];
    for (ours, theirs) in pairs {
        assert_eq!(ours.code(), Some(theirs as u32));
    }
    assert_eq!(EscrowError::PdaNotFound.code(), None);
    assert_eq!(EscrowError::AccountAlreadyInUse.code(), None);
    assert_eq!(EscrowError::MissingAccount.code(), None);
    assert_eq!(EscrowError::PrivilegeEscalation.code(), None);
}
