//! The exchange's instructions. Each takes the accounts it reads and writes,
//! checks everything before it changes anything, and on a refusal leaves
//! every account as it was.
use vstd::prelude::*;
use crate::address::Address;
use crate::custody::{closed, close_custody, credited, debited, withdraw_with_authority};
use crate::derivation::{authority_signer, CustodyAuthority};
use crate::errors::VoucherExchangeError;
use crate::state::{TokenAccount, VoucherBid};

pub mod accept_voucher_bid;
pub mod cancel_voucher_bid;
pub mod cancel_voucher_listing;
pub mod create_voucher_bid;
pub mod create_voucher_listing;
pub mod fulfill_voucher_listing;
pub mod initialize_exchange;
pub mod mark_bid_for_refund;
pub mod refund_bid;

verus! {

/// The result of an instruction whose first failed check, if any, is `e`.
pub open spec fn result_of(e: Option<VoucherExchangeError>) -> Result<(), VoucherExchangeError> {
    match e {
        Some(e) => Err(e),
        None => Ok(()),
    }
}

/// The first check that returning a bid's funds from custody to the bidder
/// fails, given the signer derived for the bid's custody account: the
/// custody account must sit at that address and be its own authority.
pub open spec fn release_error(
    bid: VoucherBid,
    bidder: Address,
    escrow: TokenAccount,
    to: TokenAccount,
    signer: Option<Seq<u8>>,
) -> Option<VoucherExchangeError> {
    if escrow.key@ != bid.escrow_account@ {
        Some(VoucherExchangeError::InvalidBidState)
    } else if escrow.mint@ != bid.payment_mint@ || to.mint@ != bid.payment_mint@ || to.owner@ != bidder@
        || to.key@ == escrow.key@ {
        Some(VoucherExchangeError::InvalidTokenAccount)
    } else if escrow.amount != bid.price {
        Some(VoucherExchangeError::InvalidBidState)
    } else if signer != Some(escrow.key@) || escrow.owner@ != escrow.key@ {
        Some(VoucherExchangeError::InvalidCustodyAddress)
    } else if to.amount + bid.price > u64::MAX {
        Some(VoucherExchangeError::ArithmeticError)
    } else {
        None
    }
}

/// Returns the bid's funds from its custody account to the bidder's account
/// `to` and closes the custody account, or changes nothing.
pub fn release_bid_escrow(
    bid: &VoucherBid,
    bidder: &Address,
    escrow: &mut TokenAccount,
    to: &mut TokenAccount,
    authority: Option<CustodyAuthority>,
) -> (r: Result<(), VoucherExchangeError>)
    ensures
        r == result_of(release_error(*bid, *bidder, *old(escrow), *old(to), authority_signer(authority))),
        r is Err ==> *final(escrow) == *old(escrow) && *final(to) == *old(to),
        r is Ok ==> *final(escrow) == closed(debited(*old(escrow), bid.price))
            && *final(to) == credited(*old(to), bid.price),
{
    if !escrow.key.same_as(&bid.escrow_account) {
        return Err(VoucherExchangeError::InvalidBidState);
    }
    if !escrow.mint.same_as(&bid.payment_mint) || !to.mint.same_as(&bid.payment_mint) || !to.owner.same_as(bidder)
        || to.key.same_as(&escrow.key) {
        return Err(VoucherExchangeError::InvalidTokenAccount);
    }
    if escrow.amount != bid.price {
        return Err(VoucherExchangeError::InvalidBidState);
    }
    let authority = match authority {
        Some(a) => a,
        None => return Err(VoucherExchangeError::InvalidCustodyAddress),
    };
    if !authority.signer().same_as(&escrow.key) || !escrow.owner.same_as(&escrow.key) {
        return Err(VoucherExchangeError::InvalidCustodyAddress);
    }
    if to.amount > u64::MAX - bid.price {
        return Err(VoucherExchangeError::ArithmeticError);
    }
    withdraw_with_authority(escrow, to, bid.price, &authority);
    close_custody(escrow, &authority);
    Ok(())
}

} // verus!
