//! A bidder withdraws an active bid and gets its funds back.
use vstd::prelude::*;
use crate::address::Address;
use crate::custody::{closed, credited, debited};
use crate::derivation::{
    authority_signer, bid_custody_seed_list, bid_custody_seeds, program_address, with_bump, CustodyAuthority,
};
use crate::errors::VoucherExchangeError;
use crate::instructions::{release_bid_escrow, release_error, result_of};
use crate::state::{saturating_dec, TokenAccount, VoucherBid, VoucherExchange};

verus! {

/// The accounts that cancelling a bid reads and writes.
#[derive(Clone, Copy, Debug)]
pub struct CancelVoucherBid {
    pub bid: VoucherBid,
    pub exchange: VoucherExchange,
    /// The signer who cancels: the bidder.
    pub bidder: Address,
    /// The custody account that holds the bid's funds.
    pub escrow_account: TokenAccount,
    /// The bidder's account in the bid's currency.
    pub bidder_token_account: TokenAccount,
}

/// The first check that cancelling fails, given the signer derived for the
/// bid's custody account.
pub open spec fn cancel_bid_error(ctx: CancelVoucherBid, signer: Option<Seq<u8>>) -> Option<VoucherExchangeError> {
    if ctx.bid.bidder@ != ctx.bidder@ {
        Some(VoucherExchangeError::NotBidder)
    } else if !ctx.bid.active {
        Some(VoucherExchangeError::BidNotActive)
    } else {
        release_error(ctx.bid, ctx.bidder, ctx.escrow_account, ctx.bidder_token_account, signer)
    }
}

/// The accounts after a cancellation: the funds are back with the bidder,
/// the custody account is closed and the bid is inactive.
pub open spec fn cancel_bid_effect(ctx: CancelVoucherBid) -> CancelVoucherBid {
    CancelVoucherBid {
        bid: VoucherBid { active: false, ..ctx.bid },
        exchange: ctx.exchange.with_bids(saturating_dec(ctx.exchange.total_bids)),
        escrow_account: closed(debited(ctx.escrow_account, ctx.bid.price)),
        bidder_token_account: credited(ctx.bidder_token_account, ctx.bid.price),
        ..ctx
    }
}

/// Cancels the bid given the authority derived for its custody account
/// (`None` where no address derives).
pub fn process(ctx: &mut CancelVoucherBid, authority: Option<CustodyAuthority>) -> (r: Result<(), VoucherExchangeError>)
    ensures
        r == result_of(cancel_bid_error(*old(ctx), authority_signer(authority))),
        r is Err ==> *final(ctx) == *old(ctx),
        r is Ok ==> *final(ctx) == cancel_bid_effect(*old(ctx)),
        !old(ctx).bid.active ==> r is Err && *final(ctx) == *old(ctx),
{
    if !ctx.bid.bidder.same_as(&ctx.bidder) {
        return Err(VoucherExchangeError::NotBidder);
    }
    if !ctx.bid.active {
        return Err(VoucherExchangeError::BidNotActive);
    }
    let bid = ctx.bid;
    let bidder = ctx.bidder;
    match release_bid_escrow(&bid, &bidder, &mut ctx.escrow_account, &mut ctx.bidder_token_account, authority) {
        Ok(()) => {},
        Err(e) => return Err(e),
    }
    ctx.bid.active = false;
    ctx.exchange.decrement_bids();
    Ok(())
}

/// Cancels the bid. The bid's seeds and stored nonce must derive the
/// address of its custody account, which must be its own authority.
pub fn handler(program_id: &Address, ctx: &mut CancelVoucherBid) -> (r: Result<(), VoucherExchangeError>)
    ensures
        r == result_of(cancel_bid_error(*old(ctx), program_address(
            with_bump(bid_custody_seeds(old(ctx).bid.bidder@, old(ctx).bid.nft_mint@), old(ctx).bid.escrow_bump),
            program_id@,
        ))),
        r is Err ==> *final(ctx) == *old(ctx),
        r is Ok ==> *final(ctx) == cancel_bid_effect(*old(ctx)),
        !old(ctx).bid.active ==> r is Err && *final(ctx) == *old(ctx),
{
    let seeds = bid_custody_seed_list(&ctx.bid.bidder, &ctx.bid.nft_mint);
    let authority = CustodyAuthority::derive(program_id, seeds, ctx.bid.escrow_bump);
    process(ctx, authority)
}

} // verus!
