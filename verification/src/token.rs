//! Value-holding accounts and the primitive that moves value between them.
//!
//! These are the library's books of the accounts a call touches. A call is
//! decided on them, all or nothing; a caller that keeps the real balances
//! elsewhere then has the same transfers made there.

use vstd::prelude::*;

use crate::error::TrumpwormError;
use crate::identity::Identity;

verus! {

/// A value-holding account: a balance of one token unit, under the control of
/// one identity.
#[derive(Clone, Copy, Debug, PartialEq, Eq)]
pub struct TokenAccount {
    /// The account's own address.
    pub key: Identity,
    /// The token unit the balance is counted in.
    pub mint: Identity,
    /// The identity that must sign to move value out.
    pub owner: Identity,
    /// The balance.
    pub amount: u64,
}

impl TokenAccount {
    /// This account with `amount` taken out of its balance.
    pub open spec fn debited(self, amount: u64) -> TokenAccount
        recommends
            amount <= self.amount,
    {
        TokenAccount { amount: (self.amount - amount) as u64, ..self }
    }

    /// This account with `amount` added to its balance.
    pub open spec fn credited(self, amount: u64) -> TokenAccount
        recommends
            self.amount + amount <= u64::MAX,
    {
        TokenAccount { amount: (self.amount + amount) as u64, ..self }
    }
}

/// Whether the ledger moves `amount` from `from` to `to`: the identity that
/// controls `from` has signed, both accounts hold the same token unit, `from`
/// holds at least `amount`, and `to` can hold `amount` more.
pub open spec fn transfer_permitted(
    from: TokenAccount,
    to: TokenAccount,
    signed: bool,
    amount: u64,
) -> bool {
    &&& signed
    &&& from.mint == to.mint
    &&& amount <= from.amount
    &&& to.amount + amount <= u64::MAX
}

/// Moves `amount` from `from` to `to` as one step: either both balances
/// change or neither does. `signer` is the identity that signs the move, if
/// any; it must be the one that controls `from`.
pub fn transfer(
    from: &mut TokenAccount,
    to: &mut TokenAccount,
    signer: &Option<Identity>,
    amount: u64,
) -> (res: Result<(), TrumpwormError>)
    ensures
        res is Ok <==> transfer_permitted(
            *old(from),
            *old(to),
            *signer == Some(old(from).owner),
            amount,
        ),
        res is Ok ==> *final(from) == old(from).debited(amount) && *final(to) == old(
            to,
        ).credited(amount),
        res is Err ==> res == Err::<(), TrumpwormError>(TrumpwormError::TransferFailed)
            && *final(from) == *old(from) && *final(to) == *old(to),
{
    let signed = match signer {
        Some(id) => *id == from.owner,
        None => false,
    };
    if !signed {
        return Err(TrumpwormError::TransferFailed);
    }
    if from.mint != to.mint {
        return Err(TrumpwormError::TransferFailed);
    }
    if amount > from.amount {
        return Err(TrumpwormError::TransferFailed);
    }
    match to.amount.checked_add(amount) {
        None => Err(TrumpwormError::TransferFailed),
        Some(raised) => {
            from.amount = from.amount - amount;
            to.amount = raised;
            Ok(())
        },
    }
}

} // verus!
