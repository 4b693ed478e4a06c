use vstd::prelude::*;

use crate::address::Address;

verus! {

/// A call into a token program that an instruction makes. `signer_seeds` is
/// `Some` where this program signs for a program-derived authority with
/// those seeds.
#[derive(Debug)]
pub enum TokenCpi {
    /// Move `amount` tokens of `mint` (which has `decimals` decimals) from
    /// `from` to `to`, authorised by `authority`.
    TransferChecked {
        token_program: Address,
        from: Address,
        mint: Address,
        to: Address,
        authority: Address,
        amount: u64,
        decimals: u8,
        signer_seeds: Option<Vec<Vec<u8>>>,
    },
    /// Close the empty token account `account`, sending its rent to
    /// `destination`, authorised by `authority`.
    CloseAccount {
        token_program: Address,
        account: Address,
        destination: Address,
        authority: Address,
        signer_seeds: Option<Vec<Vec<u8>>>,
    },
}

/// Whether `cpi` is a `transfer_checked` call with exactly these arguments
/// (addresses taken as bytes).
pub open spec fn is_transfer_checked(
    cpi: TokenCpi,
    token_program: Seq<u8>,
    from: Seq<u8>,
    mint: Seq<u8>,
    to: Seq<u8>,
    authority: Seq<u8>,
    amount: u64,
    decimals: u8,
    signer_seeds: Option<Seq<Seq<u8>>>,
) -> bool {
    match cpi {
        TokenCpi::TransferChecked {
            token_program: p,
            from: f,
            mint: m,
            to: t,
            authority: a,
            amount: n,
            decimals: d,
            signer_seeds: s,
        } => {
            &&& p@ == token_program
            &&& f@ == from
            &&& m@ == mint
            &&& t@ == to
            &&& a@ == authority
            &&& n == amount
            &&& d == decimals
            &&& s.deep_view() == signer_seeds
        },
        _ => false,
    }
}

/// Whether `cpi` is a `close_account` call with exactly these arguments
/// (addresses taken as bytes).
pub open spec fn is_close_account(
    cpi: TokenCpi,
    token_program: Seq<u8>,
    account: Seq<u8>,
    destination: Seq<u8>,
    authority: Seq<u8>,
    signer_seeds: Option<Seq<Seq<u8>>>,
) -> bool {
    match cpi {
        TokenCpi::CloseAccount {
            token_program: p,
            account: c,
            destination: d,
            authority: a,
            signer_seeds: s,
        } => {
            &&& p@ == token_program
            &&& c@ == account
            &&& d@ == destination
            &&& a@ == authority
            &&& s.deep_view() == signer_seeds
        },
        _ => false,
    }
}

} // verus!
