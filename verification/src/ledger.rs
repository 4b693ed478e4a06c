use vstd::prelude::*;

use crate::accounts::{AssociatedSlot, TokenAccount};
use crate::cpi::TokenCpi;
use crate::pda::spec_create_program_address;

verus! {

/// A token account as a token program keeps it: its mint, the wallet that
/// owns it, the token program that owns the account, its balance, and
/// whether it is frozen.
pub struct TokenBalance {
    pub mint: Seq<u8>,
    pub owner: Seq<u8>,
    pub program: Seq<u8>,
    pub amount: nat,
    pub frozen: bool,
}

/// The token accounts (by address), the decimals of each mint (by address)
/// and the lamports of each account (by address) that an instruction reads
/// and changes.
pub struct Ledger {
    pub accounts: Map<Seq<u8>, TokenBalance>,
    pub decimals: Map<Seq<u8>, u8>,
    pub lamports: Map<Seq<u8>, nat>,
}

/// The balance record of a token account as an instruction sees it.
pub open spec fn balance_of(account: TokenAccount) -> TokenBalance {
    TokenBalance {
        mint: account.mint@,
        owner: account.owner@,
        program: account.info.owner@,
        amount: account.amount as nat,
        frozen: account.is_frozen,
    }
}

/// The balance record of an associated token account slot: the existing
/// account as seen, or the empty account of `wallet` for `mint` under
/// `token_program` that creating it gives (not frozen).
pub open spec fn slot_balance(
    slot: AssociatedSlot,
    wallet: Seq<u8>,
    mint: Seq<u8>,
    token_program: Seq<u8>,
) -> TokenBalance {
    match slot {
        AssociatedSlot::Initialized(account) => balance_of(account),
        AssociatedSlot::Uninitialized(_) => TokenBalance {
            mint,
            owner: wallet,
            program: token_program,
            amount: 0,
            frozen: false,
        },
    }
}

/// `authority` has approved a call: it signed the transaction, or it is the
/// program address that the calling program's `signer_seeds` derive.
pub open spec fn authorized(
    authority: Seq<u8>,
    signers: Set<Seq<u8>>,
    caller: Seq<u8>,
    signer_seeds: Option<Seq<Seq<u8>>>,
) -> bool {
    ||| signers.contains(authority)
    ||| (signer_seeds matches Some(seeds) && spec_create_program_address(seeds, caller) == Some(
        authority,
    ))
}

/// The documented effect of one token call made by the program `caller`
/// with the transaction signed by `signers`: `None` where the call fails.
///
/// A checked transfer needs both accounts under the named token program,
/// of the named mint and not frozen, the mint's decimals, the source owner's
/// approval, and enough balance; it moves `amount` without overflowing the
/// destination. Closing needs an empty account that is not frozen, its
/// owner's approval and another destination; the account's lamports go to
/// the destination and the account disappears. Delegates, close authorities
/// and native-token accounts are outside this model.
pub open spec fn apply_cpi(
    ledger: Ledger,
    signers: Set<Seq<u8>>,
    caller: Seq<u8>,
    cpi: TokenCpi,
) -> Option<Ledger> {
    match cpi {
        TokenCpi::TransferChecked {
            token_program,
            from,
            mint,
            to,
            authority,
            amount,
            decimals,
            signer_seeds,
        } => {
            let f = from@;
            let t = to@;
            if ledger.accounts.contains_key(f) && ledger.accounts.contains_key(t)
                && ledger.decimals.contains_key(mint@) && ledger.accounts[f].program
                == token_program@ && ledger.accounts[t].program == token_program@
                && ledger.accounts[f].mint == mint@ && ledger.accounts[t].mint == mint@
                && !ledger.accounts[f].frozen && !ledger.accounts[t].frozen
                && ledger.decimals[mint@] == decimals && ledger.accounts[f].owner == authority@
                && authorized(authority@, signers, caller, signer_seeds.deep_view()) && amount
                <= ledger.accounts[f].amount && (f == t || ledger.accounts[t].amount + amount
                <= u64::MAX) {
                if f == t {
                    Some(ledger)
                } else {
                    let src = ledger.accounts[f];
                    let dst = ledger.accounts[t];
                    Some(
                        Ledger {
                            accounts: ledger.accounts.insert(
                                f,
                                TokenBalance { amount: (src.amount - amount) as nat, ..src },
                            ).insert(t, TokenBalance { amount: (dst.amount + amount) as nat, ..dst }),
                            ..ledger
                        },
                    )
                }
            } else {
                None
            }
        },
        TokenCpi::CloseAccount { token_program, account, destination, authority, signer_seeds } => {
            let a = account@;
            if ledger.accounts.contains_key(a) && ledger.accounts[a].program == token_program@
                && ledger.accounts[a].amount == 0 && !ledger.accounts[a].frozen
                && ledger.accounts[a].owner == authority@
                && authorized(authority@, signers, caller, signer_seeds.deep_view()) && a
                != destination@ && ledger.lamports.contains_key(a)
                && ledger.lamports.contains_key(destination@) {
                Some(
                    Ledger {
                        accounts: ledger.accounts.remove(a),
                        lamports: move_lamports(ledger.lamports, a, destination@),
                        ..ledger
                    },
                )
            } else {
                None
            }
        },
    }
}

/// All lamports of `from` go to `to`, and `from` disappears.
pub open spec fn move_lamports(lamports: Map<Seq<u8>, nat>, from: Seq<u8>, to: Seq<u8>) -> Map<
    Seq<u8>,
    nat,
> {
    lamports.insert(to, lamports[to] + lamports[from]).remove(from)
}

/// The effect of a sequence of token calls made in order; `None` as soon as
/// one fails (the whole instruction then fails).
pub open spec fn apply_cpis(
    ledger: Ledger,
    signers: Set<Seq<u8>>,
    caller: Seq<u8>,
    cpis: Seq<TokenCpi>,
) -> Option<Ledger>
    decreases cpis.len(),
{
    if cpis.len() == 0 {
        Some(ledger)
    } else {
        match apply_cpi(ledger, signers, caller, cpis[0]) {
            None => None,
            Some(next) => apply_cpis(next, signers, caller, cpis.skip(1)),
        }
    }
}

/// The effect of a whole instruction that ends an offer: its token calls in
/// order, then the escrow account `escrow` closed with its lamports to
/// `close_to`. `None` where a call fails or the escrow holds no lamports
/// entry: then the instruction fails and the runtime keeps every account as
/// it was.
pub open spec fn settle(
    ledger: Ledger,
    signers: Set<Seq<u8>>,
    caller: Seq<u8>,
    cpis: Seq<TokenCpi>,
    escrow: Seq<u8>,
    close_to: Seq<u8>,
) -> Option<Ledger> {
    match apply_cpis(ledger, signers, caller, cpis) {
        None => None,
        Some(after) => if after.lamports.contains_key(escrow) && after.lamports.contains_key(
            close_to,
        ) && escrow != close_to {
            Some(Ledger { lamports: move_lamports(after.lamports, escrow, close_to), ..after })
        } else {
            None
        },
    }
}

/// How many tokens of `mint` the token account at `key` holds (none where
/// it holds another mint or is not in `accounts`).
pub open spec fn holding(accounts: Map<Seq<u8>, TokenBalance>, key: Seq<u8>, mint: Seq<u8>) -> nat {
    if accounts.contains_key(key) && accounts[key].mint == mint {
        accounts[key].amount
    } else {
        0
    }
}

/// The tokens of `mint` held over the addresses in `keys`.
pub open spec fn supply_over(
    accounts: Map<Seq<u8>, TokenBalance>,
    keys: Set<Seq<u8>>,
    mint: Seq<u8>,
) -> nat
    decreases keys.len(),
    when keys.finite()
{
    if keys.len() == 0 {
        0
    } else {
        let k = keys.choose();
        holding(accounts, k, mint) + supply_over(accounts, keys.remove(k), mint)
    }
}

/// The tokens of `mint` held over all token accounts of the ledger.
pub open spec fn supply(ledger: Ledger, mint: Seq<u8>) -> nat {
    supply_over(ledger.accounts, ledger.accounts.dom(), mint)
}

} // verus!
