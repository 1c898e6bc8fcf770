//! A bidder offers a price for an asset and puts the funds in custody.
use vstd::prelude::*;
use crate::address::Address;
use crate::custody::{debited, transfer};
use crate::derivation::{
    authority_signer, bid_custody_seed_list, bid_custody_seeds, program_address, with_bump, CustodyAuthority,
};
use crate::errors::VoucherExchangeError;
use crate::instructions::result_of;
use crate::state::{saturating_inc, TokenAccount, VoucherBid, VoucherExchange, VoucherState};

verus! {

/// The accounts that placing a bid reads and writes.
#[derive(Clone, Copy, Debug)]
pub struct CreateVoucherBid {
    /// The slot for the bidder's bid on the asset.
    pub bid: VoucherBid,
    pub exchange: VoucherExchange,
    /// The signer who bids.
    pub bidder: Address,
    /// The asset bid on.
    pub nft_mint: Address,
    /// The currency of the bid.
    pub payment_mint: Address,
    /// The sale record of the asset.
    pub nft_state: VoucherState,
    /// The bidder's account in the bid's currency.
    pub bidder_token_account: TokenAccount,
    /// The custody account for the bid's funds, its own authority.
    pub escrow_account: TokenAccount,
}

/// The first check that placing a bid at `price` fails, given the address
/// that the bid's custody seeds and nonce derive.
pub open spec fn create_bid_error(ctx: CreateVoucherBid, price: u64, custody: Option<Seq<u8>>) -> Option<VoucherExchangeError> {
    if price == 0 {
        Some(VoucherExchangeError::InvalidPrice)
    } else if ctx.bidder_token_account.mint@ != ctx.payment_mint@ {
        Some(VoucherExchangeError::InvalidPrice)
    } else if ctx.bidder_token_account.owner@ != ctx.bidder@ {
        Some(VoucherExchangeError::NotBidder)
    } else if ctx.bidder_token_account.amount < price {
        Some(VoucherExchangeError::InsufficientFunds)
    } else if ctx.nft_state.nft_mint@ != ctx.nft_mint@ {
        Some(VoucherExchangeError::InvalidNFTAccount)
    } else if ctx.nft_state.sold {
        Some(VoucherExchangeError::NFTAlreadySold)
    } else if ctx.bid.active {
        Some(VoucherExchangeError::InvalidBidState)
    } else if custody != Some(ctx.escrow_account.key@) || ctx.escrow_account.owner@ != ctx.escrow_account.key@ {
        Some(VoucherExchangeError::InvalidCustodyAddress)
    } else if ctx.escrow_account.mint@ != ctx.payment_mint@ || ctx.escrow_account.key@ == ctx.bidder_token_account.key@ {
        Some(VoucherExchangeError::InvalidTokenAccount)
    } else if ctx.escrow_account.amount != 0 {
        Some(VoucherExchangeError::InvalidBidState)
    } else {
        None
    }
}

/// The accounts after the bid is placed: `price` moved from the bidder into
/// the open custody account, and the slot holds an active, unmarked bid.
pub open spec fn create_bid_effect(ctx: CreateVoucherBid, price: u64, escrow_bump: u8) -> CreateVoucherBid {
    CreateVoucherBid {
        bid: VoucherBid {
            bidder: ctx.bidder,
            nft_mint: ctx.nft_mint,
            price,
            payment_mint: ctx.payment_mint,
            escrow_account: ctx.escrow_account.key,
            active: true,
            requires_refund: false,
            escrow_bump,
        },
        exchange: ctx.exchange.with_bids(saturating_inc(ctx.exchange.total_bids)),
        bidder_token_account: debited(ctx.bidder_token_account, price),
        escrow_account: TokenAccount { amount: price, closed: false, ..ctx.escrow_account },
        ..ctx
    }
}

/// A freshly placed bid is active, unmarked, and fully funded: its custody
/// account is the one it records and holds exactly its price.
pub proof fn lemma_new_bid_is_funded(ctx: CreateVoucherBid, price: u64, escrow_bump: u8, custody: Option<Seq<u8>>)
    requires
        create_bid_error(ctx, price, custody) is None,
    ensures
        ({
            let post = create_bid_effect(ctx, price, escrow_bump);
            &&& post.bid.active
            &&& !post.bid.requires_refund
            &&& post.bid.price > 0
            &&& post.escrow_account.key == post.bid.escrow_account
            &&& post.escrow_account.amount == post.bid.price
            &&& !post.escrow_account.closed
        }),
{
}

/// Places the bid given the authority that the custody seeds and
/// `escrow_bump` derive (`None` where no address derives).
pub fn process(
    ctx: &mut CreateVoucherBid,
    price: u64,
    escrow_bump: u8,
    custody: Option<CustodyAuthority>,
) -> (r: Result<(), VoucherExchangeError>)
    ensures
        r == result_of(create_bid_error(*old(ctx), price, authority_signer(custody))),
        r is Err ==> *final(ctx) == *old(ctx),
        r is Ok ==> *final(ctx) == create_bid_effect(*old(ctx), price, escrow_bump),
        price == 0 ==> r == Err::<(), VoucherExchangeError>(VoucherExchangeError::InvalidPrice),
{
    if price == 0 {
        return Err(VoucherExchangeError::InvalidPrice);
    }
    if !ctx.bidder_token_account.mint.same_as(&ctx.payment_mint) {
        return Err(VoucherExchangeError::InvalidPrice);
    }
    if !ctx.bidder_token_account.owner.same_as(&ctx.bidder) {
        return Err(VoucherExchangeError::NotBidder);
    }
    if ctx.bidder_token_account.amount < price {
        return Err(VoucherExchangeError::InsufficientFunds);
    }
    if !ctx.nft_state.nft_mint.same_as(&ctx.nft_mint) {
        return Err(VoucherExchangeError::InvalidNFTAccount);
    }
    if ctx.nft_state.is_sold() {
        return Err(VoucherExchangeError::NFTAlreadySold);
    }
    if ctx.bid.active {
        return Err(VoucherExchangeError::InvalidBidState);
    }
    let custody = match custody {
        Some(a) => a,
        None => return Err(VoucherExchangeError::InvalidCustodyAddress),
    };
    if !custody.signer().same_as(&ctx.escrow_account.key) || !ctx.escrow_account.owner.same_as(&ctx.escrow_account.key) {
        return Err(VoucherExchangeError::InvalidCustodyAddress);
    }
    if !ctx.escrow_account.mint.same_as(&ctx.payment_mint) || ctx.escrow_account.key.same_as(&ctx.bidder_token_account.key) {
        return Err(VoucherExchangeError::InvalidTokenAccount);
    }
    if ctx.escrow_account.amount != 0 {
        return Err(VoucherExchangeError::InvalidBidState);
    }
    ctx.escrow_account.closed = false;
    transfer(&mut ctx.bidder_token_account, &mut ctx.escrow_account, price);
    ctx.bid = VoucherBid {
        bidder: ctx.bidder,
        nft_mint: ctx.nft_mint,
        price,
        payment_mint: ctx.payment_mint,
        escrow_account: ctx.escrow_account.key,
        active: true,
        requires_refund: false,
        escrow_bump,
    };
    ctx.exchange.increment_bids();
    Ok(())
}

/// Places a bid of `price`. The custody account must sit at the address
/// that the bid's seeds and `escrow_bump` derive.
pub fn handler(program_id: &Address, ctx: &mut CreateVoucherBid, price: u64, escrow_bump: u8) -> (r: Result<(), VoucherExchangeError>)
    ensures
        r == result_of(create_bid_error(*old(ctx), price, program_address(
            with_bump(bid_custody_seeds(old(ctx).bidder@, old(ctx).nft_mint@), escrow_bump),
            program_id@,
        ))),
        r is Err ==> *final(ctx) == *old(ctx),
        r is Ok ==> *final(ctx) == create_bid_effect(*old(ctx), price, escrow_bump),
        price == 0 ==> r == Err::<(), VoucherExchangeError>(VoucherExchangeError::InvalidPrice),
{
    let seeds = bid_custody_seed_list(&ctx.bidder, &ctx.nft_mint);
    let custody = CustodyAuthority::derive(program_id, seeds, escrow_bump);
    process(ctx, price, escrow_bump, custody)
}

} // verus!
