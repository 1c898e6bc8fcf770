//! Moving balances between token accounts. Funds enter a custody account by
//! a transfer that the paying holder signs; they leave it only under a
//! `CustodyAuthority` for the custody account's authority.
use vstd::prelude::*;
use crate::derivation::CustodyAuthority;
use crate::state::TokenAccount;

verus! {

pub open spec fn credited(a: TokenAccount, n: u64) -> TokenAccount {
    TokenAccount { amount: (a.amount + n) as u64, ..a }
}

pub open spec fn debited(a: TokenAccount, n: u64) -> TokenAccount {
    TokenAccount { amount: (a.amount - n) as u64, ..a }
}

pub open spec fn closed(a: TokenAccount) -> TokenAccount {
    TokenAccount { closed: true, ..a }
}

/// Whether `n` units can move from `from` to `to`.
pub open spec fn can_move(from: TokenAccount, to: TokenAccount, n: u64) -> bool {
    &&& from.mint@ == to.mint@
    &&& n <= from.amount
    &&& to.amount + n <= u64::MAX
}

/// A transfer signed by the holder of `from`, such as a deposit into custody
/// or a payment.
pub fn transfer(from: &mut TokenAccount, to: &mut TokenAccount, amount: u64)
    requires
        can_move(*old(from), *old(to), amount),
    ensures
        *final(from) == debited(*old(from), amount),
        *final(to) == credited(*old(to), amount),
{
    from.amount = from.amount - amount;
    to.amount = to.amount + amount;
}

/// A transfer out of a custody account, under the authority that controls it.
pub fn withdraw_with_authority(
    custody: &mut TokenAccount,
    to: &mut TokenAccount,
    amount: u64,
    authority: &CustodyAuthority,
)
    requires
        authority.signer_view() == old(custody).owner@,
        can_move(*old(custody), *old(to), amount),
    ensures
        *final(custody) == debited(*old(custody), amount),
        *final(to) == credited(*old(to), amount),
{
    custody.amount = custody.amount - amount;
    to.amount = to.amount + amount;
}

/// Closes an emptied custody account, under the authority that controls it.
pub fn close_custody(custody: &mut TokenAccount, authority: &CustodyAuthority)
    requires
        authority.signer_view() == old(custody).owner@,
        old(custody).amount == 0,
    ensures
        *final(custody) == closed(*old(custody)),
{
    custody.closed = true;
}

} // verus!
