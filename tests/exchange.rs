use voucher_exchange::address::Address;
use voucher_exchange::derivation::{
    asset_custody_seed_list, bid_custody_seed_list, exchange_seed_list, find_address, listing_seed_list,
    CustodyAuthority,
};
use voucher_exchange::errors::VoucherExchangeError;
use voucher_exchange::instructions::accept_voucher_bid::{self, AcceptVoucherBid};
use voucher_exchange::instructions::cancel_voucher_bid::{self, CancelVoucherBid};
use voucher_exchange::instructions::cancel_voucher_listing::{self, CancelVoucherListing};
use voucher_exchange::instructions::create_voucher_bid::{self, CreateVoucherBid};
use voucher_exchange::instructions::create_voucher_listing::{self, CreateVoucherListing};
use voucher_exchange::instructions::fulfill_voucher_listing::{self, FulfillVoucherListing};
use voucher_exchange::instructions::initialize_exchange::{self, InitializeExchange};
use voucher_exchange::instructions::mark_bid_for_refund::{self, MarkBidForRefund};
use voucher_exchange::instructions::refund_bid::{self, RefundBid};
use voucher_exchange::settlement::{calculate_fee_split, FeeSplit};
use voucher_exchange::state::{TokenAccount, VoucherBid, VoucherExchange, VoucherListing, VoucherState};

fn addr(n: u8) -> Address {
    Address::new([n; 32])
}

fn program_id() -> Address {
    addr(200)
}

const AUTHORITY: u8 = 1;
const FEE_WALLET: u8 = 2;
const OWNER: u8 = 3;
const BUYER: u8 = 4;
const BIDDER_A: u8 = 5;
const BIDDER_B: u8 = 6;
const NFT: u8 = 10;
const USDC: u8 = 11;

fn token(key: u8, mint: u8, owner: u8, amount: u64) -> TokenAccount {
    TokenAccount { key: addr(key), mint: addr(mint), owner: addr(owner), amount, closed: false }
}

fn empty_exchange() -> VoucherExchange {
    VoucherExchange {
        authority: addr(0),
        fee_basis_points: 0,
        fee_account: addr(0),
        total_listings: 0,
        total_bids: 0,
        bump: 0,
    }
}

fn empty_listing() -> VoucherListing {
    VoucherListing {
        owner: addr(0),
        nft_mint: addr(0),
        nft_account: addr(0),
        price: 0,
        payment_mint: addr(0),
        active: false,
        bump: 0,
    }
}

fn empty_bid() -> VoucherBid {
    VoucherBid {
        bidder: addr(0),
        nft_mint: addr(0),
        price: 0,
        payment_mint: addr(0),
        escrow_account: addr(0),
        active: false,
        requires_refund: false,
        escrow_bump: 0,
    }
}

/// The fee account of the exchange, in USDC.
fn fee_token(amount: u64) -> TokenAccount {
    token(102, USDC, FEE_WALLET, amount)
}

fn initialized_exchange(fee_bps: u16) -> VoucherExchange {
    let mut ctx = InitializeExchange { exchange: None, authority: addr(AUTHORITY), fee_account: addr(102) };
    initialize_exchange::handler(&program_id(), &mut ctx, fee_bps).unwrap();
    ctx.exchange.unwrap()
}

/// The custody account for `mint`'s listing by `owner`, empty and open.
fn listing_custody(owner: u8, mint: u8) -> TokenAccount {
    let (key, _) = find_address(&asset_custody_seed_list(&addr(mint)), &program_id()).unwrap();
    let (listing_key, _) = find_address(&listing_seed_list(&addr(owner), &addr(mint)), &program_id()).unwrap();
    TokenAccount { key, mint: addr(mint), owner: listing_key, amount: 0, closed: false }
}

/// The custody account for `bidder`'s bid on `mint`, empty and open, and its nonce.
fn bid_custody(bidder: u8, mint: u8) -> (TokenAccount, u8) {
    let (key, bump) = find_address(&bid_custody_seed_list(&addr(bidder), &addr(mint)), &program_id()).unwrap();
    (TokenAccount { key, mint: addr(USDC), owner: key, amount: 0, closed: false }, bump)
}

fn listing_ctx(exchange: VoucherExchange, owner_nft_amount: u64) -> CreateVoucherListing {
    CreateVoucherListing {
        listing: empty_listing(),
        exchange,
        owner: addr(OWNER),
        nft_mint: addr(NFT),
        payment_mint: addr(USDC),
        owner_nft_account: token(30, NFT, OWNER, owner_nft_amount),
        escrow_nft_account: listing_custody(OWNER, NFT),
    }
}

fn bid_ctx(exchange: VoucherExchange, bidder: u8, balance: u64, nft_state: VoucherState) -> (CreateVoucherBid, u8) {
    let (escrow, bump) = bid_custody(bidder, NFT);
    let ctx = CreateVoucherBid {
        bid: empty_bid(),
        exchange,
        bidder: addr(bidder),
        nft_mint: addr(NFT),
        payment_mint: addr(USDC),
        nft_state,
        bidder_token_account: token(bidder + 50, USDC, bidder, balance),
        escrow_account: escrow,
    };
    (ctx, bump)
}

#[test]
fn fee_split_at_two_and_a_half_percent() {
    assert_eq!(calculate_fee_split(1000, 250), Ok(FeeSplit { fee: 25, seller_amount: 975 }));
}

#[test]
fn fee_split_rounds_down() {
    assert_eq!(calculate_fee_split(9999, 1000), Ok(FeeSplit { fee: 999, seller_amount: 9000 }));
    assert_eq!(calculate_fee_split(39, 250), Ok(FeeSplit { fee: 0, seller_amount: 39 }));
}

#[test]
fn fee_split_with_zero_fee() {
    assert_eq!(calculate_fee_split(1234, 0), Ok(FeeSplit { fee: 0, seller_amount: 1234 }));
}

#[test]
fn fee_split_largest_price_does_not_overflow() {
    let s = calculate_fee_split(u64::MAX, 1000).unwrap();
    assert_eq!(s.fee, u64::MAX / 10);
    assert_eq!(s.fee + s.seller_amount, u64::MAX);
}

#[test]
fn fee_split_parts_add_up_for_many_prices() {
    for price in [1u64, 2, 7, 99, 100, 101, 10_000, 123_456_789] {
        for bps in [0u16, 1, 250, 999, 1000] {
            let s = calculate_fee_split(price, bps).unwrap();
            assert_eq!(s.fee + s.seller_amount, price);
            assert_eq!(s.fee as u128, (price as u128) * (bps as u128) / 10000);
        }
    }
}

#[test]
fn fee_split_above_the_whole_is_an_arithmetic_error() {
    assert_eq!(calculate_fee_split(10000, 10001), Err(VoucherExchangeError::ArithmeticError));
}

#[test]
fn initialize_sets_configuration() {
    let e = initialized_exchange(250);
    assert_eq!(e.authority.bytes, addr(AUTHORITY).bytes);
    assert_eq!(e.fee_basis_points, 250);
    assert_eq!(e.fee_account.bytes, addr(102).bytes);
    assert_eq!(e.total_listings, 0);
    assert_eq!(e.total_bids, 0);
    let (_, bump) = find_address(&exchange_seed_list(), &program_id()).unwrap();
    assert_eq!(e.bump, bump);
}

#[test]
fn initialize_accepts_largest_fee() {
    assert_eq!(initialized_exchange(1000).fee_basis_points, 1000);
}

#[test]
fn initialize_rejects_fee_too_high() {
    let mut ctx = InitializeExchange { exchange: None, authority: addr(AUTHORITY), fee_account: addr(102) };
    assert_eq!(initialize_exchange::handler(&program_id(), &mut ctx, 1001), Err(VoucherExchangeError::FeeTooHigh));
    assert!(ctx.exchange.is_none());
}

#[test]
fn initialize_twice_fails() {
    let mut existing = initialized_exchange(250);
    existing.total_listings = 4;
    existing.total_bids = 7;
    let mut ctx = InitializeExchange { exchange: Some(existing), authority: addr(AUTHORITY), fee_account: addr(102) };
    assert_eq!(
        initialize_exchange::handler(&program_id(), &mut ctx, 100),
        Err(VoucherExchangeError::ExchangeAlreadyInitialized)
    );
    let e = ctx.exchange.unwrap();
    assert_eq!(e.fee_basis_points, 250);
    assert_eq!(e.total_listings, 4);
    assert_eq!(e.total_bids, 7);
}

#[test]
fn create_listing_with_zero_price_fails() {
    let mut ctx = listing_ctx(initialized_exchange(250), 1);
    assert_eq!(create_voucher_listing::handler(&program_id(), &mut ctx, 0), Err(VoucherExchangeError::InvalidPrice));
    assert!(!ctx.listing.active);
    assert_eq!(ctx.owner_nft_account.amount, 1);
    assert_eq!(ctx.escrow_nft_account.amount, 0);
    assert_eq!(ctx.exchange.total_listings, 0);
}

#[test]
fn create_listing_moves_asset_into_custody() {
    let mut ctx = listing_ctx(initialized_exchange(250), 1);
    assert_eq!(create_voucher_listing::handler(&program_id(), &mut ctx, 1000), Ok(()));
    assert!(ctx.listing.active);
    assert_eq!(ctx.listing.price, 1000);
    assert_eq!(ctx.listing.owner.bytes, addr(OWNER).bytes);
    assert_eq!(ctx.listing.nft_account.bytes, ctx.escrow_nft_account.key.bytes);
    assert_eq!(ctx.owner_nft_account.amount, 0);
    assert_eq!(ctx.escrow_nft_account.amount, 1);
    assert_eq!(ctx.exchange.total_listings, 1);
    let (_, bump) = find_address(&listing_seed_list(&addr(OWNER), &addr(NFT)), &program_id()).unwrap();
    assert_eq!(ctx.listing.bump, bump);
}

#[test]
fn create_listing_without_the_asset_fails() {
    let mut ctx = listing_ctx(initialized_exchange(250), 0);
    assert_eq!(
        create_voucher_listing::handler(&program_id(), &mut ctx, 1000),
        Err(VoucherExchangeError::InsufficientAssetAmount)
    );
}

#[test]
fn create_listing_by_non_holder_fails() {
    let mut ctx = listing_ctx(initialized_exchange(250), 1);
    ctx.owner_nft_account.owner = addr(BUYER);
    assert_eq!(create_voucher_listing::handler(&program_id(), &mut ctx, 1000), Err(VoucherExchangeError::NotNFTOwner));
}

#[test]
fn create_listing_with_foreign_custody_fails() {
    let mut ctx = listing_ctx(initialized_exchange(250), 1);
    ctx.escrow_nft_account.key = addr(99);
    assert_eq!(
        create_voucher_listing::handler(&program_id(), &mut ctx, 1000),
        Err(VoucherExchangeError::InvalidCustodyAddress)
    );
    assert_eq!(ctx.owner_nft_account.amount, 1);
}

/// Lists the asset at `price` on an exchange with fee `fee_bps`.
fn listed(fee_bps: u16, price: u64) -> (VoucherExchange, VoucherListing, TokenAccount) {
    let mut ctx = listing_ctx(initialized_exchange(fee_bps), 1);
    create_voucher_listing::handler(&program_id(), &mut ctx, price).unwrap();
    (ctx.exchange, ctx.listing, ctx.escrow_nft_account)
}

fn fulfill_ctx(exchange: VoucherExchange, listing: VoucherListing, escrow: TokenAccount, buyer_funds: u64) -> FulfillVoucherListing {
    FulfillVoucherListing {
        listing,
        exchange,
        buyer: addr(BUYER),
        nft_state: VoucherState::unsold(addr(NFT)),
        escrow_nft_account: escrow,
        buyer_nft_account: token(40, NFT, BUYER, 0),
        buyer_payment_account: token(41, USDC, BUYER, buyer_funds),
        owner_payment_account: token(31, USDC, OWNER, 0),
        fee_payment_account: fee_token(0),
    }
}

#[test]
fn fulfill_listing_at_two_and_a_half_percent() {
    let (exchange, listing, escrow) = listed(250, 1000);
    let mut ctx = fulfill_ctx(exchange, listing, escrow, 5000);
    assert_eq!(fulfill_voucher_listing::handler(&program_id(), &mut ctx, 1_700_000_000), Ok(()));
    assert_eq!(ctx.fee_payment_account.amount, 25);
    assert_eq!(ctx.owner_payment_account.amount, 975);
    assert_eq!(ctx.buyer_payment_account.amount, 4000);
    assert!(ctx.nft_state.sold);
    assert_eq!(ctx.nft_state.latest_sale_timestamp, 1_700_000_000);
    assert!(!ctx.listing.active);
    assert_eq!(ctx.buyer_nft_account.amount, 1);
    assert_eq!(ctx.escrow_nft_account.amount, 0);
    assert!(ctx.escrow_nft_account.closed);
    assert_eq!(ctx.exchange.total_listings, 0);
}

#[test]
fn fulfill_listing_with_insufficient_funds_fails() {
    let (exchange, listing, escrow) = listed(250, 1000);
    let mut ctx = fulfill_ctx(exchange, listing, escrow, 999);
    assert_eq!(fulfill_voucher_listing::handler(&program_id(), &mut ctx, 5), Err(VoucherExchangeError::InsufficientFunds));
    assert_eq!(ctx.buyer_payment_account.amount, 999);
    assert_eq!(ctx.escrow_nft_account.amount, 1);
    assert!(ctx.listing.active);
    assert!(!ctx.nft_state.sold);
}

#[test]
fn fulfill_listing_twice_fails() {
    let (exchange, listing, escrow) = listed(250, 1000);
    let mut ctx = fulfill_ctx(exchange, listing, escrow, 5000);
    fulfill_voucher_listing::handler(&program_id(), &mut ctx, 5).unwrap();
    assert_eq!(fulfill_voucher_listing::handler(&program_id(), &mut ctx, 6), Err(VoucherExchangeError::ListingNotActive));
    assert_eq!(ctx.nft_state.latest_sale_timestamp, 5);
}

#[test]
fn fulfill_listing_with_forged_nonce_fails() {
    let (exchange, mut listing, escrow) = listed(250, 1000);
    listing.bump = listing.bump.wrapping_sub(1);
    let mut ctx = fulfill_ctx(exchange, listing, escrow, 5000);
    assert_eq!(
        fulfill_voucher_listing::handler(&program_id(), &mut ctx, 5),
        Err(VoucherExchangeError::InvalidCustodyAddress)
    );
    assert_eq!(ctx.escrow_nft_account.amount, 1);
    assert_eq!(ctx.buyer_payment_account.amount, 5000);
}

#[test]
fn fulfill_listing_without_fee_skips_fee_leg() {
    let (exchange, listing, escrow) = listed(0, 1000);
    let mut ctx = fulfill_ctx(exchange, listing, escrow, 1000);
    assert_eq!(fulfill_voucher_listing::handler(&program_id(), &mut ctx, 5), Ok(()));
    assert_eq!(ctx.fee_payment_account.amount, 0);
    assert_eq!(ctx.owner_payment_account.amount, 1000);
    assert_eq!(ctx.buyer_payment_account.amount, 0);
}

#[test]
fn cancel_listing_returns_asset() {
    let (exchange, listing, escrow) = listed(250, 1000);
    let mut ctx = CancelVoucherListing {
        listing,
        exchange,
        owner: addr(OWNER),
        owner_nft_account: token(30, NFT, OWNER, 0),
        escrow_nft_account: escrow,
    };
    assert_eq!(cancel_voucher_listing::handler(&program_id(), &mut ctx), Ok(()));
    assert_eq!(ctx.owner_nft_account.amount, 1);
    assert_eq!(ctx.escrow_nft_account.amount, 0);
    assert!(ctx.escrow_nft_account.closed);
    assert!(!ctx.listing.active);
    assert_eq!(ctx.exchange.total_listings, 0);
}

#[test]
fn cancel_listing_by_stranger_fails() {
    let (exchange, listing, escrow) = listed(250, 1000);
    let mut ctx = CancelVoucherListing {
        listing,
        exchange,
        owner: addr(BUYER),
        owner_nft_account: token(40, NFT, BUYER, 0),
        escrow_nft_account: escrow,
    };
    assert_eq!(cancel_voucher_listing::handler(&program_id(), &mut ctx), Err(VoucherExchangeError::NotListingOwner));
    assert_eq!(ctx.escrow_nft_account.amount, 1);
}

#[test]
fn cancel_inactive_listing_fails() {
    let (exchange, mut listing, escrow) = listed(250, 1000);
    listing.active = false;
    let mut ctx = CancelVoucherListing {
        listing,
        exchange,
        owner: addr(OWNER),
        owner_nft_account: token(30, NFT, OWNER, 0),
        escrow_nft_account: escrow,
    };
    assert_eq!(cancel_voucher_listing::handler(&program_id(), &mut ctx), Err(VoucherExchangeError::ListingNotActive));
    assert_eq!(ctx.escrow_nft_account.amount, 1);
    assert_eq!(ctx.owner_nft_account.amount, 0);
    assert_eq!(ctx.exchange.total_listings, 1);
}

/// Places a bid of `price` by `bidder` on the asset.
fn placed_bid(exchange: VoucherExchange, bidder: u8, price: u64) -> (VoucherExchange, VoucherBid, TokenAccount, TokenAccount) {
    let (mut ctx, bump) = bid_ctx(exchange, bidder, 1000, VoucherState::unsold(addr(NFT)));
    create_voucher_bid::handler(&program_id(), &mut ctx, price, bump).unwrap();
    (ctx.exchange, ctx.bid, ctx.escrow_account, ctx.bidder_token_account)
}

#[test]
fn create_bid_escrows_funds() {
    let (mut ctx, bump) = bid_ctx(initialized_exchange(250), BIDDER_A, 1000, VoucherState::unsold(addr(NFT)));
    assert_eq!(create_voucher_bid::handler(&program_id(), &mut ctx, 600, bump), Ok(()));
    assert!(ctx.bid.active);
    assert!(!ctx.bid.requires_refund);
    assert_eq!(ctx.bid.price, 600);
    assert_eq!(ctx.bid.escrow_bump, bump);
    assert_eq!(ctx.bid.escrow_account.bytes, ctx.escrow_account.key.bytes);
    assert_eq!(ctx.escrow_account.amount, 600);
    assert_eq!(ctx.bidder_token_account.amount, 400);
    assert_eq!(ctx.exchange.total_bids, 1);
}

#[test]
fn create_bid_with_zero_price_fails() {
    let (mut ctx, bump) = bid_ctx(initialized_exchange(250), BIDDER_A, 1000, VoucherState::unsold(addr(NFT)));
    assert_eq!(create_voucher_bid::handler(&program_id(), &mut ctx, 0, bump), Err(VoucherExchangeError::InvalidPrice));
    assert!(!ctx.bid.active);
    assert_eq!(ctx.bidder_token_account.amount, 1000);
    assert_eq!(ctx.escrow_account.amount, 0);
    assert_eq!(ctx.exchange.total_bids, 0);
}

#[test]
fn create_bid_beyond_balance_fails() {
    let (mut ctx, bump) = bid_ctx(initialized_exchange(250), BIDDER_A, 1000, VoucherState::unsold(addr(NFT)));
    assert_eq!(create_voucher_bid::handler(&program_id(), &mut ctx, 1001, bump), Err(VoucherExchangeError::InsufficientFunds));
}

#[test]
fn create_bid_on_sold_asset_fails() {
    let mut sold = VoucherState::unsold(addr(NFT));
    sold.record_sale(10);
    let (mut ctx, bump) = bid_ctx(initialized_exchange(250), BIDDER_A, 1000, sold);
    assert_eq!(create_voucher_bid::handler(&program_id(), &mut ctx, 500, bump), Err(VoucherExchangeError::NFTAlreadySold));
    assert_eq!(ctx.bidder_token_account.amount, 1000);
}

#[test]
fn create_bid_with_wrong_nonce_fails() {
    let (mut ctx, bump) = bid_ctx(initialized_exchange(250), BIDDER_A, 1000, VoucherState::unsold(addr(NFT)));
    assert_eq!(
        create_voucher_bid::handler(&program_id(), &mut ctx, 500, bump.wrapping_sub(1)),
        Err(VoucherExchangeError::InvalidCustodyAddress)
    );
    assert_eq!(ctx.escrow_account.amount, 0);
}

#[test]
fn cancel_bid_returns_funds() {
    let (exchange, bid, escrow, funds) = placed_bid(initialized_exchange(250), BIDDER_A, 500);
    let mut ctx = CancelVoucherBid { bid, exchange, bidder: addr(BIDDER_A), escrow_account: escrow, bidder_token_account: funds };
    assert_eq!(cancel_voucher_bid::handler(&program_id(), &mut ctx), Ok(()));
    assert_eq!(ctx.bidder_token_account.amount, 1000);
    assert_eq!(ctx.escrow_account.amount, 0);
    assert!(ctx.escrow_account.closed);
    assert!(!ctx.bid.active);
    assert_eq!(ctx.exchange.total_bids, 0);
}

#[test]
fn cancel_bid_by_stranger_fails() {
    let (exchange, bid, escrow, _) = placed_bid(initialized_exchange(250), BIDDER_A, 500);
    let mut ctx = CancelVoucherBid {
        bid,
        exchange,
        bidder: addr(BIDDER_B),
        escrow_account: escrow,
        bidder_token_account: token(BIDDER_B + 50, USDC, BIDDER_B, 0),
    };
    assert_eq!(cancel_voucher_bid::handler(&program_id(), &mut ctx), Err(VoucherExchangeError::NotBidder));
    assert_eq!(ctx.escrow_account.amount, 500);
}

#[test]
fn cancel_bid_from_custody_off_its_address_fails() {
    let (exchange, mut bid, mut escrow, funds) = placed_bid(initialized_exchange(250), BIDDER_A, 500);
    escrow.key = addr(99);
    bid.escrow_account = addr(99);
    let mut ctx = CancelVoucherBid { bid, exchange, bidder: addr(BIDDER_A), escrow_account: escrow, bidder_token_account: funds };
    assert_eq!(cancel_voucher_bid::handler(&program_id(), &mut ctx), Err(VoucherExchangeError::InvalidCustodyAddress));
    assert_eq!(ctx.escrow_account.amount, 500);
    assert_eq!(ctx.bidder_token_account.amount, 500);
    assert!(ctx.bid.active);
}

#[test]
fn refund_from_custody_off_its_address_fails() {
    let (_, mut bid, mut escrow, funds) = placed_bid(initialized_exchange(250), BIDDER_A, 500);
    escrow.key = addr(99);
    bid.escrow_account = addr(99);
    bid.requires_refund = true;
    let mut ctx = RefundBid { bid, bidder: addr(BIDDER_A), escrow_account: escrow, bidder_token_account: funds };
    assert_eq!(refund_bid::handler(&program_id(), &mut ctx), Err(VoucherExchangeError::InvalidCustodyAddress));
    assert_eq!(ctx.escrow_account.amount, 500);
}

#[test]
fn accept_bid_from_custody_off_its_address_fails() {
    let (exchange, listing, escrow_nft) = listed(250, 1000);
    let (exchange, mut bid, mut escrow, _) = placed_bid(exchange, BIDDER_A, 500);
    escrow.key = addr(99);
    bid.escrow_account = addr(99);
    let mut ctx = accept_ctx(exchange, listing, escrow_nft, bid, escrow);
    assert_eq!(accept_voucher_bid::handler(&program_id(), &mut ctx, 1), Err(VoucherExchangeError::InvalidCustodyAddress));
    assert_eq!(ctx.escrow_payment_account.amount, 500);
    assert_eq!(ctx.escrow_nft_account.amount, 1);
}

#[test]
fn cancel_listing_from_custody_off_its_address_fails() {
    let (exchange, mut listing, mut escrow) = listed(250, 1000);
    escrow.key = addr(98);
    listing.nft_account = addr(98);
    let mut ctx = CancelVoucherListing {
        listing,
        exchange,
        owner: addr(OWNER),
        owner_nft_account: token(30, NFT, OWNER, 0),
        escrow_nft_account: escrow,
    };
    assert_eq!(cancel_voucher_listing::handler(&program_id(), &mut ctx), Err(VoucherExchangeError::InvalidCustodyAddress));
    assert_eq!(ctx.escrow_nft_account.amount, 1);
    assert!(ctx.listing.active);
}

#[test]
fn fulfill_listing_from_custody_off_its_address_fails() {
    let (exchange, mut listing, mut escrow) = listed(250, 1000);
    escrow.key = addr(98);
    listing.nft_account = addr(98);
    let mut ctx = fulfill_ctx(exchange, listing, escrow, 5000);
    assert_eq!(
        fulfill_voucher_listing::handler(&program_id(), &mut ctx, 5),
        Err(VoucherExchangeError::InvalidCustodyAddress)
    );
    assert_eq!(ctx.escrow_nft_account.amount, 1);
    assert_eq!(ctx.buyer_payment_account.amount, 5000);
}

#[test]
fn cancel_inactive_bid_fails() {
    let (exchange, bid, escrow, funds) = placed_bid(initialized_exchange(250), BIDDER_A, 500);
    let mut ctx = CancelVoucherBid { bid, exchange, bidder: addr(BIDDER_A), escrow_account: escrow, bidder_token_account: funds };
    cancel_voucher_bid::handler(&program_id(), &mut ctx).unwrap();
    assert_eq!(cancel_voucher_bid::handler(&program_id(), &mut ctx), Err(VoucherExchangeError::BidNotActive));
    assert_eq!(ctx.bidder_token_account.amount, 1000);
    assert_eq!(ctx.escrow_account.amount, 0);
}

fn accept_ctx(
    exchange: VoucherExchange,
    listing: VoucherListing,
    escrow_nft: TokenAccount,
    bid: VoucherBid,
    escrow_funds: TokenAccount,
) -> AcceptVoucherBid {
    let bidder = bid.bidder.bytes[0];
    AcceptVoucherBid {
        bid,
        listing,
        exchange,
        owner: addr(OWNER),
        nft_state: VoucherState::unsold(addr(NFT)),
        escrow_nft_account: escrow_nft,
        bidder_nft_account: token(bidder + 80, NFT, bidder, 0),
        escrow_payment_account: escrow_funds,
        owner_payment_account: token(31, USDC, OWNER, 0),
        fee_payment_account: fee_token(0),
    }
}

#[test]
fn two_bids_one_accepted_other_refunded() {
    let (exchange, listing, escrow_nft) = listed(250, 1000);
    let (exchange, bid_a, escrow_a, funds_a) = placed_bid(exchange, BIDDER_A, 500);
    let (exchange, bid_b, escrow_b, funds_b) = placed_bid(exchange, BIDDER_B, 600);
    assert_eq!(exchange.total_bids, 2);
    assert_eq!(funds_a.amount, 500);
    assert_eq!(funds_b.amount, 400);

    let mut accept = accept_ctx(exchange, listing, escrow_nft, bid_b, escrow_b);
    assert_eq!(accept_voucher_bid::handler(&program_id(), &mut accept, 77), Ok(()));
    assert!(!accept.bid.active);
    assert!(!accept.listing.active);
    assert!(accept.nft_state.sold);
    assert_eq!(accept.owner_payment_account.amount, 585);
    assert_eq!(accept.fee_payment_account.amount, 15);
    assert_eq!(accept.bidder_nft_account.amount, 1);
    assert_eq!(accept.escrow_payment_account.amount, 0);
    assert_eq!(accept.escrow_nft_account.amount, 0);
    assert_eq!(accept.exchange.total_bids, 1);
    assert_eq!(accept.exchange.total_listings, 0);

    assert!(bid_a.active);
    assert!(!bid_a.requires_refund);

    let mut mark = MarkBidForRefund { authority: addr(AUTHORITY), exchange: accept.exchange, bid: bid_a, nft_state: accept.nft_state };
    assert_eq!(mark_bid_for_refund::handler(&mut mark), Ok(()));
    assert!(mark.bid.requires_refund);
    assert!(mark.bid.active);

    let mut refund = RefundBid { bid: mark.bid, bidder: addr(BIDDER_A), escrow_account: escrow_a, bidder_token_account: funds_a };
    assert_eq!(refund_bid::handler(&program_id(), &mut refund), Ok(()));
    assert_eq!(refund.bidder_token_account.amount, 1000);
    assert_eq!(refund.bidder_token_account.amount - funds_a.amount, 500);
    assert_eq!(refund.escrow_account.amount, 0);
    assert!(!refund.bid.active);
    assert!(!refund.bid.requires_refund);
}

#[test]
fn accept_bid_without_active_listing_fails() {
    let (exchange, mut listing, escrow_nft) = listed(250, 1000);
    listing.active = false;
    let (exchange, bid, escrow, _) = placed_bid(exchange, BIDDER_A, 500);
    let mut ctx = accept_ctx(exchange, listing, escrow_nft, bid, escrow);
    assert_eq!(accept_voucher_bid::handler(&program_id(), &mut ctx, 1), Err(VoucherExchangeError::ListingNotActive));
    assert_eq!(ctx.escrow_payment_account.amount, 500);
    assert!(ctx.bid.active);
}

#[test]
fn accept_bid_by_non_owner_fails() {
    let (exchange, listing, escrow_nft) = listed(250, 1000);
    let (exchange, bid, escrow, _) = placed_bid(exchange, BIDDER_A, 500);
    let mut ctx = accept_ctx(exchange, listing, escrow_nft, bid, escrow);
    ctx.owner = addr(BUYER);
    assert_eq!(accept_voucher_bid::handler(&program_id(), &mut ctx, 1), Err(VoucherExchangeError::NotListingOwner));
}

#[test]
fn accept_inactive_bid_fails() {
    let (exchange, listing, escrow_nft) = listed(250, 1000);
    let (exchange, mut bid, escrow, _) = placed_bid(exchange, BIDDER_A, 500);
    bid.active = false;
    let mut ctx = accept_ctx(exchange, listing, escrow_nft, bid, escrow);
    assert_eq!(accept_voucher_bid::handler(&program_id(), &mut ctx, 1), Err(VoucherExchangeError::BidNotActive));
    assert_eq!(ctx.escrow_nft_account.amount, 1);
}

fn sold_state() -> VoucherState {
    let mut s = VoucherState::unsold(addr(NFT));
    s.record_sale(3);
    s
}

#[test]
fn mark_bid_twice_fails_second_time() {
    let (exchange, bid, _, _) = placed_bid(initialized_exchange(250), BIDDER_A, 500);
    let mut ctx = MarkBidForRefund { authority: addr(AUTHORITY), exchange, bid, nft_state: sold_state() };
    assert_eq!(mark_bid_for_refund::handler(&mut ctx), Ok(()));
    assert_eq!(mark_bid_for_refund::handler(&mut ctx), Err(VoucherExchangeError::BidNotRequiresRefund));
    assert!(ctx.bid.requires_refund);
}

#[test]
fn mark_bid_by_stranger_fails() {
    let (exchange, bid, _, _) = placed_bid(initialized_exchange(250), BIDDER_A, 500);
    let mut ctx = MarkBidForRefund { authority: addr(BUYER), exchange, bid, nft_state: sold_state() };
    assert_eq!(mark_bid_for_refund::handler(&mut ctx), Err(VoucherExchangeError::NotExchangeAuthority));
    assert!(!ctx.bid.requires_refund);
}

#[test]
fn mark_bid_before_sale_fails() {
    let (exchange, bid, _, _) = placed_bid(initialized_exchange(250), BIDDER_A, 500);
    let mut ctx = MarkBidForRefund { authority: addr(AUTHORITY), exchange, bid, nft_state: VoucherState::unsold(addr(NFT)) };
    assert_eq!(mark_bid_for_refund::handler(&mut ctx), Err(VoucherExchangeError::InvalidBidState));
}

#[test]
fn mark_inactive_bid_fails() {
    let (exchange, mut bid, _, _) = placed_bid(initialized_exchange(250), BIDDER_A, 500);
    bid.active = false;
    let mut ctx = MarkBidForRefund { authority: addr(AUTHORITY), exchange, bid, nft_state: sold_state() };
    assert_eq!(mark_bid_for_refund::handler(&mut ctx), Err(VoucherExchangeError::BidNotActive));
}

#[test]
fn refund_unmarked_bid_fails() {
    let (_, bid, escrow, funds) = placed_bid(initialized_exchange(250), BIDDER_A, 500);
    let mut ctx = RefundBid { bid, bidder: addr(BIDDER_A), escrow_account: escrow, bidder_token_account: funds };
    assert_eq!(refund_bid::handler(&program_id(), &mut ctx), Err(VoucherExchangeError::BidNotRequiresRefund));
    assert_eq!(ctx.escrow_account.amount, 500);
    assert!(ctx.bid.active);
}

#[test]
fn refund_inactive_bid_fails() {
    let (_, mut bid, escrow, funds) = placed_bid(initialized_exchange(250), BIDDER_A, 500);
    bid.requires_refund = true;
    bid.active = false;
    let mut ctx = RefundBid { bid, bidder: addr(BIDDER_A), escrow_account: escrow, bidder_token_account: funds };
    assert_eq!(refund_bid::handler(&program_id(), &mut ctx), Err(VoucherExchangeError::BidNotActive));
    assert_eq!(ctx.escrow_account.amount, 500);
}

#[test]
fn counters_saturate() {
    let mut e = empty_exchange();
    e.decrement_listings();
    e.decrement_bids();
    assert_eq!(e.total_listings, 0);
    assert_eq!(e.total_bids, 0);
    e.total_listings = u64::MAX;
    e.total_bids = u64::MAX;
    e.increment_listings();
    e.increment_bids();
    assert_eq!(e.total_listings, u64::MAX);
    assert_eq!(e.total_bids, u64::MAX);
}

#[test]
fn derived_signer_matches_found_address() {
    let seeds = bid_custody_seed_list(&addr(BIDDER_A), &addr(NFT));
    let (found, bump) = find_address(&seeds, &program_id()).unwrap();
    let authority = CustodyAuthority::derive(&program_id(), seeds, bump).unwrap();
    assert_eq!(authority.signer().bytes, found.bytes);
    assert_ne!(found.bytes, addr(BIDDER_A).bytes);
    assert_ne!(found.bytes, program_id().bytes);
}

#[test]
fn derivation_depends_on_every_seed() {
    let a = find_address(&bid_custody_seed_list(&addr(BIDDER_A), &addr(NFT)), &program_id()).unwrap().0;
    let b = find_address(&bid_custody_seed_list(&addr(BIDDER_B), &addr(NFT)), &program_id()).unwrap().0;
    let c = find_address(&asset_custody_seed_list(&addr(NFT)), &program_id()).unwrap().0;
    let d = find_address(&bid_custody_seed_list(&addr(BIDDER_A), &addr(NFT)), &addr(201)).unwrap().0;
    assert_ne!(a.bytes, b.bytes);
    assert_ne!(a.bytes, c.bytes);
    assert_ne!(a.bytes, d.bytes);
}

#[test]
fn address_comparison_and_seed_bytes() {
    let a = addr(3);
    let mut b = addr(3);
    assert!(a.same_as(&b));
    b.bytes[31] = 4;
    assert!(!a.same_as(&b));
    assert_eq!(a.to_seed(), vec![3u8; 32]);
}

#[test]
fn error_messages() {
    assert_eq!(VoucherExchangeError::FeeTooHigh.message(), "Exchange fee is too high");
    assert_eq!(VoucherExchangeError::BidNotRequiresRefund.message(), "Bid does not require refund");
}
