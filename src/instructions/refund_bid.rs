//! A bidder whose bid was marked for refund gets its funds back.
use vstd::prelude::*;
use crate::address::Address;
use crate::custody::{closed, credited, debited};
use crate::derivation::{
    authority_signer, bid_custody_seed_list, bid_custody_seeds, program_address, with_bump, CustodyAuthority,
};
use crate::errors::VoucherExchangeError;
use crate::instructions::{release_bid_escrow, release_error, result_of};
use crate::state::{TokenAccount, VoucherBid};

verus! {

/// The accounts that a refund reads and writes.
#[derive(Clone, Copy, Debug)]
pub struct RefundBid {
    pub bid: VoucherBid,
    /// The signer who claims the refund: the bidder.
    pub bidder: Address,
    /// The custody account that holds the bid's funds.
    pub escrow_account: TokenAccount,
    /// The bidder's account in the bid's currency.
    pub bidder_token_account: TokenAccount,
}

/// The first check that a refund fails, given the signer derived for the
/// bid's custody account.
pub open spec fn refund_error(ctx: RefundBid, signer: Option<Seq<u8>>) -> Option<VoucherExchangeError> {
    if ctx.bid.bidder@ != ctx.bidder@ {
        Some(VoucherExchangeError::NotBidder)
    } else if !ctx.bid.requires_refund {
        Some(VoucherExchangeError::BidNotRequiresRefund)
    } else if !ctx.bid.active {
        Some(VoucherExchangeError::BidNotActive)
    } else {
        release_error(ctx.bid, ctx.bidder, ctx.escrow_account, ctx.bidder_token_account, signer)
    }
}

/// The accounts after a refund: the funds are back with the bidder, the
/// custody account is closed, and the bid is inactive and no longer marked.
pub open spec fn refund_effect(ctx: RefundBid) -> RefundBid {
    RefundBid {
        bid: VoucherBid { active: false, requires_refund: false, ..ctx.bid },
        escrow_account: closed(debited(ctx.escrow_account, ctx.bid.price)),
        bidder_token_account: credited(ctx.bidder_token_account, ctx.bid.price),
        ..ctx
    }
}

/// Refunds the bid given the authority derived for its custody account
/// (`None` where no address derives).
pub fn process(ctx: &mut RefundBid, authority: Option<CustodyAuthority>) -> (r: Result<(), VoucherExchangeError>)
    ensures
        r == result_of(refund_error(*old(ctx), authority_signer(authority))),
        r is Err ==> *final(ctx) == *old(ctx),
        r is Ok ==> *final(ctx) == refund_effect(*old(ctx)),
        r is Ok ==> old(ctx).bid.requires_refund && old(ctx).bid.active && !final(ctx).bid.active,
{
    if !ctx.bid.bidder.same_as(&ctx.bidder) {
        return Err(VoucherExchangeError::NotBidder);
    }
    if !ctx.bid.requires_refund {
        return Err(VoucherExchangeError::BidNotRequiresRefund);
    }
    if !ctx.bid.active {
        return Err(VoucherExchangeError::BidNotActive);
    }
    let bid = ctx.bid;
    let bidder = ctx.bidder;
    match release_bid_escrow(&bid, &bidder, &mut ctx.escrow_account, &mut ctx.bidder_token_account, authority) {
        Ok(()) => {},
        Err(e) => return Err(e),
    }
    ctx.bid.active = false;
    ctx.bid.requires_refund = false;
    Ok(())
}

/// Refunds the bid. The bid's seeds and stored nonce must derive the
/// address of its custody account, which must be its own authority.
pub fn handler(program_id: &Address, ctx: &mut RefundBid) -> (r: Result<(), VoucherExchangeError>)
    ensures
        r == result_of(refund_error(*old(ctx), program_address(
            with_bump(bid_custody_seeds(old(ctx).bid.bidder@, old(ctx).bid.nft_mint@), old(ctx).bid.escrow_bump),
            program_id@,
        ))),
        r is Err ==> *final(ctx) == *old(ctx),
        r is Ok ==> *final(ctx) == refund_effect(*old(ctx)),
        r is Ok ==> old(ctx).bid.requires_refund && old(ctx).bid.active && !final(ctx).bid.active,
{
    let seeds = bid_custody_seed_list(&ctx.bid.bidder, &ctx.bid.nft_mint);
    let authority = CustodyAuthority::derive(program_id, seeds, ctx.bid.escrow_bump);
    process(ctx, authority)
}

} // verus!
