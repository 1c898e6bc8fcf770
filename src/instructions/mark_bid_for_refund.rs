//! The exchange's authority marks a bid left standing after its asset sold,
//! so that the bidder can claim a refund.
use vstd::prelude::*;
use crate::address::Address;
use crate::errors::VoucherExchangeError;
use crate::instructions::result_of;
use crate::state::{VoucherBid, VoucherExchange, VoucherState};

verus! {

/// The accounts that marking a bid reads and writes.
#[derive(Clone, Copy, Debug)]
pub struct MarkBidForRefund {
    /// The signer who marks.
    pub authority: Address,
    pub exchange: VoucherExchange,
    pub bid: VoucherBid,
    /// The sale record of the bid's asset.
    pub nft_state: VoucherState,
}

/// The first check that marking fails.
pub open spec fn mark_error(ctx: MarkBidForRefund) -> Option<VoucherExchangeError> {
    if ctx.authority@ != ctx.exchange.authority@ {
        Some(VoucherExchangeError::NotExchangeAuthority)
    } else if ctx.nft_state.nft_mint@ != ctx.bid.nft_mint@ {
        Some(VoucherExchangeError::InvalidNFTAccount)
    } else if !ctx.nft_state.sold {
        Some(VoucherExchangeError::InvalidBidState)
    } else if !ctx.bid.active {
        Some(VoucherExchangeError::BidNotActive)
    } else if ctx.bid.requires_refund {
        Some(VoucherExchangeError::BidNotRequiresRefund)
    } else {
        None
    }
}

/// The accounts after marking: only the bid's refund mark changed.
pub open spec fn mark_effect(ctx: MarkBidForRefund) -> MarkBidForRefund {
    MarkBidForRefund { bid: VoucherBid { requires_refund: true, ..ctx.bid }, ..ctx }
}

/// Marks the bid for refund: the caller must be the exchange's authority,
/// the asset must have sold, and the bid must be active and not yet marked.
pub fn handler(ctx: &mut MarkBidForRefund) -> (r: Result<(), VoucherExchangeError>)
    ensures
        r == result_of(mark_error(*old(ctx))),
        r is Err ==> *final(ctx) == *old(ctx),
        r is Ok ==> *final(ctx) == mark_effect(*old(ctx)),
{
    if !ctx.authority.same_as(&ctx.exchange.authority) {
        return Err(VoucherExchangeError::NotExchangeAuthority);
    }
    if !ctx.nft_state.nft_mint.same_as(&ctx.bid.nft_mint) {
        return Err(VoucherExchangeError::InvalidNFTAccount);
    }
    if !ctx.nft_state.is_sold() {
        return Err(VoucherExchangeError::InvalidBidState);
    }
    if !ctx.bid.active {
        return Err(VoucherExchangeError::BidNotActive);
    }
    if ctx.bid.requires_refund {
        return Err(VoucherExchangeError::BidNotRequiresRefund);
    }
    ctx.bid.requires_refund = true;
    Ok(())
}

/// Marking succeeds at most once: once a bid is marked, marking it again
/// fails with `BidNotRequiresRefund`.
pub proof fn lemma_mark_twice_fails(ctx: MarkBidForRefund)
    requires
        mark_error(ctx) is None,
    ensures
        mark_error(mark_effect(ctx)) == Some(VoucherExchangeError::BidNotRequiresRefund),
{
}

} // verus!
