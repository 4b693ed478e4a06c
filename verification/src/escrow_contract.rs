use vstd::prelude::*;

use crate::address::Address;
use crate::cpi::TokenCpi;
use crate::error::EscrowError;
use crate::instructions::make::{self, Make};
use crate::instructions::refund::{self, Refund};
use crate::instructions::take::{self, Take};

verus! {

/// What the `make` instruction does with the accounts `before`: refused
/// with the first failing account check and nothing changed, or else what
/// the `make` body does with the bump found (`after`, the result `r`).
pub open spec fn make_result(
    before: Make,
    after: Make,
    program_id: Seq<u8>,
    seed: u64,
    amount: u64,
    recieve: u64,
    r: Result<Vec<TokenCpi>, EscrowError>,
) -> bool {
    match before.spec_try_accounts(program_id, seed) {
        Err(e) => r == Err::<Vec<TokenCpi>, EscrowError>(e) && after == before,
        Ok(bumps) => make::handler_outcome(before, after, bumps, seed, amount, recieve, r),
    }
}

/// The `make` instruction: checks the accounts for the offer with `seed`,
/// then runs the `make` body with the bump found.
pub fn make(accounts: &mut Make, program_id: &Address, seed: u64, amount: u64, recieve: u64) -> (r:
    Result<Vec<TokenCpi>, EscrowError>)
    ensures
        make_result(*old(accounts), *final(accounts), program_id@, seed, amount, recieve, r),
{
    let bumps = match accounts.try_accounts(program_id, seed) {
        Ok(b) => b,
        Err(e) => {
            return Err(e);
        },
    };
    make::handler(accounts, &bumps, seed, amount, recieve)
}

/// What an instruction that ends an offer does: the token calls of its body,
/// then the closing of the escrow account with its rent to `close_escrow_to`.
#[derive(Debug)]
pub struct Settlement {
    pub cpis: Vec<TokenCpi>,
    pub close_escrow_to: Address,
}

/// What the `take` instruction answers for `accounts`: the first failing
/// account check, or the calls of the `take` body with the escrow closed
/// into the maker.
pub open spec fn take_result(accounts: Take, program_id: Seq<u8>, r: Result<Settlement, EscrowError>) -> bool {
    match accounts.spec_try_accounts(program_id) {
        Err(e) => r == Err::<Settlement, EscrowError>(e),
        Ok(()) => r is Ok && take::handler_cpis(accounts, r.unwrap().cpis@)
            && r.unwrap().close_escrow_to@ == accounts.maker.key@,
    }
}

/// The `take` instruction: checks the accounts, makes the calls of the
/// `take` body, and closes the escrow into the maker.
pub fn take(accounts: &Take, program_id: &Address) -> (r: Result<Settlement, EscrowError>)
    ensures
        take_result(*accounts, program_id@, r),
{
    match accounts.try_accounts(program_id) {
        Ok(()) => Ok(Settlement { cpis: take::handler(accounts), close_escrow_to: accounts.maker.key }),
        Err(e) => Err(e),
    }
}

/// What the `refund` instruction answers for `accounts`: the first failing
/// account check, or the calls of the `refund` body with the escrow closed
/// into the maker.
pub open spec fn refund_result(accounts: Refund, program_id: Seq<u8>, r: Result<Settlement, EscrowError>) -> bool {
    match accounts.spec_try_accounts(program_id) {
        Err(e) => r == Err::<Settlement, EscrowError>(e),
        Ok(()) => r is Ok && refund::handler_cpis(accounts, r.unwrap().cpis@)
            && r.unwrap().close_escrow_to@ == accounts.maker.key@,
    }
}

/// The `refund` instruction: checks the accounts, makes the calls of the
/// `refund` body, and closes the escrow into the maker.
pub fn refund(accounts: &Refund, program_id: &Address) -> (r: Result<Settlement, EscrowError>)
    ensures
        refund_result(*accounts, program_id@, r),
{
    match accounts.try_accounts(program_id) {
        Ok(()) => Ok(
            Settlement { cpis: refund::handler(accounts), close_escrow_to: accounts.maker.key },
        ),
        Err(e) => Err(e),
    }
}

} // verus!
