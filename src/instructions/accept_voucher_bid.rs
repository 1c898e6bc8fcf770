//! The owner of a listed asset accepts a bid: the bid's funds go to the
//! owner and the exchange, and the asset goes from custody to the bidder.
use vstd::prelude::*;
use crate::address::Address;
use crate::custody::{closed, close_custody, credited, debited, withdraw_with_authority};
use crate::derivation::{
    asset_custody_seed_list, asset_custody_seeds, authority_signer, bid_custody_seed_list, bid_custody_seeds,
    canonical_program_address, derived_at, find_address, found_at, found_view, listing_seed_list, listing_seeds,
    program_address, with_bump, CustodyAuthority,
};
use crate::errors::VoucherExchangeError;
use crate::instructions::result_of;
use crate::settlement::{calculate_fee_split, fee_split};
use crate::state::{saturating_dec, TokenAccount, VoucherBid, VoucherExchange, VoucherListing, VoucherState};

verus! {

/// The accounts that accepting a bid reads and writes.
#[derive(Clone, Copy, Debug)]
pub struct AcceptVoucherBid {
    pub bid: VoucherBid,
    /// The owner's active listing of the asset.
    pub listing: VoucherListing,
    pub exchange: VoucherExchange,
    /// The signer who accepts: the listing's owner.
    pub owner: Address,
    /// The sale record of the asset.
    pub nft_state: VoucherState,
    /// The custody account that holds the listed asset.
    pub escrow_nft_account: TokenAccount,
    /// The bidder's account for the asset.
    pub bidder_nft_account: TokenAccount,
    /// The custody account that holds the bid's funds.
    pub escrow_payment_account: TokenAccount,
    /// The owner's account in the bid's currency.
    pub owner_payment_account: TokenAccount,
    /// The exchange's fee account.
    pub fee_payment_account: TokenAccount,
}

/// Whether the asset accounts and the sale record are those of the listed
/// asset, and the bid is on that asset.
pub open spec fn asset_accounts_match(ctx: AcceptVoucherBid) -> bool {
    let mint = ctx.listing.nft_mint@;
    &&& ctx.bid.nft_mint@ == mint
    &&& ctx.escrow_nft_account.key@ == ctx.listing.nft_account@
    &&& ctx.escrow_nft_account.mint@ == mint
    &&& ctx.bidder_nft_account.mint@ == mint
    &&& ctx.bidder_nft_account.owner@ == ctx.bid.bidder@
    &&& ctx.bidder_nft_account.key@ != ctx.escrow_nft_account.key@
    &&& ctx.nft_state.nft_mint@ == mint
}

/// Whether the three payment accounts are distinct, in the bid's currency,
/// and the owner's and the exchange's where they receive.
pub open spec fn payment_accounts_match(ctx: AcceptVoucherBid) -> bool {
    let currency = ctx.bid.payment_mint@;
    &&& ctx.escrow_payment_account.mint@ == currency
    &&& ctx.owner_payment_account.mint@ == currency
    &&& ctx.owner_payment_account.owner@ == ctx.owner@
    &&& ctx.fee_payment_account.mint@ == currency
    &&& ctx.fee_payment_account.key@ == ctx.exchange.fee_account@
    &&& ctx.escrow_payment_account.key@ != ctx.owner_payment_account.key@
    &&& ctx.escrow_payment_account.key@ != ctx.fee_payment_account.key@
    &&& ctx.owner_payment_account.key@ != ctx.fee_payment_account.key@
}

/// The first check that accepting fails, given the signers that the
/// listing's and the bid's seeds and nonces derive and the derived address
/// of the asset's custody account.
pub open spec fn accept_error(
    ctx: AcceptVoucherBid,
    listing_signer: Option<Seq<u8>>,
    bid_signer: Option<Seq<u8>>,
    custody_address: Option<(Seq<u8>, u8)>,
) -> Option<VoucherExchangeError> {
    let price = ctx.bid.price;
    let split = fee_split(price, ctx.exchange.fee_basis_points);
    if !ctx.bid.active {
        Some(VoucherExchangeError::BidNotActive)
    } else if !ctx.listing.active {
        Some(VoucherExchangeError::ListingNotActive)
    } else if ctx.listing.owner@ != ctx.owner@ {
        Some(VoucherExchangeError::NotListingOwner)
    } else if !asset_accounts_match(ctx) {
        Some(VoucherExchangeError::InvalidNFTAccount)
    } else if ctx.escrow_payment_account.key@ != ctx.bid.escrow_account@ {
        Some(VoucherExchangeError::InvalidBidState)
    } else if !payment_accounts_match(ctx) {
        Some(VoucherExchangeError::InvalidTokenAccount)
    } else if ctx.escrow_nft_account.amount != 1 {
        Some(VoucherExchangeError::InsufficientAssetAmount)
    } else if ctx.escrow_payment_account.amount != price {
        Some(VoucherExchangeError::InvalidBidState)
    } else if split is Err {
        Some(VoucherExchangeError::ArithmeticError)
    } else if !derived_at(custody_address, ctx.escrow_nft_account.key@)
        || listing_signer != Some(ctx.escrow_nft_account.owner@)
        || bid_signer != Some(ctx.escrow_payment_account.key@)
        || ctx.escrow_payment_account.owner@ != ctx.escrow_payment_account.key@ {
        Some(VoucherExchangeError::InvalidCustodyAddress)
    } else if ctx.owner_payment_account.amount + split->Ok_0.seller_amount > u64::MAX
        || ctx.fee_payment_account.amount + split->Ok_0.fee > u64::MAX
        || ctx.bidder_nft_account.amount + 1 > u64::MAX {
        Some(VoucherExchangeError::ArithmeticError)
    } else {
        None
    }
}

/// The accounts after the bid is accepted at `now`: its funds went to the
/// owner and the exchange, the asset to the bidder, both custody accounts
/// are closed, the bid and the listing are inactive and the asset is
/// recorded as sold.
pub open spec fn accept_effect(ctx: AcceptVoucherBid, now: i64) -> AcceptVoucherBid {
    let price = ctx.bid.price;
    let split = fee_split(price, ctx.exchange.fee_basis_points)->Ok_0;
    AcceptVoucherBid {
        bid: VoucherBid { active: false, ..ctx.bid },
        listing: VoucherListing { active: false, ..ctx.listing },
        exchange: ctx.exchange
            .with_listings(saturating_dec(ctx.exchange.total_listings))
            .with_bids(saturating_dec(ctx.exchange.total_bids)),
        nft_state: ctx.nft_state.after_sale(now),
        escrow_nft_account: closed(debited(ctx.escrow_nft_account, 1)),
        bidder_nft_account: credited(ctx.bidder_nft_account, 1),
        escrow_payment_account: closed(debited(ctx.escrow_payment_account, price)),
        owner_payment_account: credited(ctx.owner_payment_account, split.seller_amount),
        fee_payment_account: credited(ctx.fee_payment_account, split.fee),
        ..ctx
    }
}

/// Settles an accepted bid given the authorities derived for the listing's
/// and the bid's custody accounts and the derived address of the asset's
/// custody account (`None` where none derives).
pub fn process(
    ctx: &mut AcceptVoucherBid,
    now: i64,
    listing_authority: Option<CustodyAuthority>,
    bid_authority: Option<CustodyAuthority>,
    custody_address: Option<(Address, u8)>,
) -> (r: Result<(), VoucherExchangeError>)
    ensures
        r == result_of(accept_error(
            *old(ctx),
            authority_signer(listing_authority),
            authority_signer(bid_authority),
            found_view(custody_address),
        )),
        r is Err ==> *final(ctx) == *old(ctx),
        r is Ok ==> *final(ctx) == accept_effect(*old(ctx), now),
        r is Ok ==> !final(ctx).bid.active && !final(ctx).listing.active && final(ctx).nft_state.sold,
{
    let price = ctx.bid.price;
    if !ctx.bid.active {
        return Err(VoucherExchangeError::BidNotActive);
    }
    if !ctx.listing.active {
        return Err(VoucherExchangeError::ListingNotActive);
    }
    if !ctx.listing.owner.same_as(&ctx.owner) {
        return Err(VoucherExchangeError::NotListingOwner);
    }
    let mint = ctx.listing.nft_mint;
    if !ctx.bid.nft_mint.same_as(&mint)
        || !ctx.escrow_nft_account.key.same_as(&ctx.listing.nft_account)
        || !ctx.escrow_nft_account.mint.same_as(&mint)
        || !ctx.bidder_nft_account.mint.same_as(&mint)
        || !ctx.bidder_nft_account.owner.same_as(&ctx.bid.bidder)
        || ctx.bidder_nft_account.key.same_as(&ctx.escrow_nft_account.key)
        || !ctx.nft_state.nft_mint.same_as(&mint) {
        return Err(VoucherExchangeError::InvalidNFTAccount);
    }
    if !ctx.escrow_payment_account.key.same_as(&ctx.bid.escrow_account) {
        return Err(VoucherExchangeError::InvalidBidState);
    }
    let currency = ctx.bid.payment_mint;
    if !ctx.escrow_payment_account.mint.same_as(&currency)
        || !ctx.owner_payment_account.mint.same_as(&currency)
        || !ctx.owner_payment_account.owner.same_as(&ctx.owner)
        || !ctx.fee_payment_account.mint.same_as(&currency)
        || !ctx.fee_payment_account.key.same_as(&ctx.exchange.fee_account)
        || ctx.escrow_payment_account.key.same_as(&ctx.owner_payment_account.key)
        || ctx.escrow_payment_account.key.same_as(&ctx.fee_payment_account.key)
        || ctx.owner_payment_account.key.same_as(&ctx.fee_payment_account.key) {
        return Err(VoucherExchangeError::InvalidTokenAccount);
    }
    if ctx.escrow_nft_account.amount != 1 {
        return Err(VoucherExchangeError::InsufficientAssetAmount);
    }
    if ctx.escrow_payment_account.amount != price {
        return Err(VoucherExchangeError::InvalidBidState);
    }
    let split = match calculate_fee_split(price, ctx.exchange.fee_basis_points) {
        Ok(s) => s,
        Err(e) => return Err(e),
    };
    if !found_at(&custody_address, &ctx.escrow_nft_account.key) {
        return Err(VoucherExchangeError::InvalidCustodyAddress);
    }
    let listing_authority = match listing_authority {
        Some(a) => a,
        None => return Err(VoucherExchangeError::InvalidCustodyAddress),
    };
    if !listing_authority.signer().same_as(&ctx.escrow_nft_account.owner) {
        return Err(VoucherExchangeError::InvalidCustodyAddress);
    }
    let bid_authority = match bid_authority {
        Some(a) => a,
        None => return Err(VoucherExchangeError::InvalidCustodyAddress),
    };
    if !bid_authority.signer().same_as(&ctx.escrow_payment_account.key)
        || !ctx.escrow_payment_account.owner.same_as(&ctx.escrow_payment_account.key) {
        return Err(VoucherExchangeError::InvalidCustodyAddress);
    }
    if ctx.owner_payment_account.amount > u64::MAX - split.seller_amount
        || ctx.fee_payment_account.amount > u64::MAX - split.fee
        || ctx.bidder_nft_account.amount == u64::MAX {
        return Err(VoucherExchangeError::ArithmeticError);
    }
    withdraw_with_authority(
        &mut ctx.escrow_payment_account,
        &mut ctx.owner_payment_account,
        split.seller_amount,
        &bid_authority,
    );
    if split.fee > 0 {
        withdraw_with_authority(&mut ctx.escrow_payment_account, &mut ctx.fee_payment_account, split.fee, &bid_authority);
    }
    close_custody(&mut ctx.escrow_payment_account, &bid_authority);
    withdraw_with_authority(&mut ctx.escrow_nft_account, &mut ctx.bidder_nft_account, 1, &listing_authority);
    close_custody(&mut ctx.escrow_nft_account, &listing_authority);
    ctx.nft_state.record_sale(now);
    ctx.bid.active = false;
    ctx.listing.active = false;
    ctx.exchange.decrement_bids();
    ctx.exchange.decrement_listings();
    Ok(())
}

/// Accepts the bid at `now`. The asset's custody account must sit at the
/// address derived from the asset, and the listing's seeds and stored nonce
/// must derive its authority; the funds' custody account must sit at the
/// address that the bid's seeds and stored nonce derive, and be its own
/// authority.
pub fn handler(program_id: &Address, ctx: &mut AcceptVoucherBid, now: i64) -> (r: Result<(), VoucherExchangeError>)
    ensures
        r == result_of(accept_error(
            *old(ctx),
            program_address(
                with_bump(listing_seeds(old(ctx).listing.owner@, old(ctx).listing.nft_mint@), old(ctx).listing.bump),
                program_id@,
            ),
            program_address(
                with_bump(bid_custody_seeds(old(ctx).bid.bidder@, old(ctx).bid.nft_mint@), old(ctx).bid.escrow_bump),
                program_id@,
            ),
            canonical_program_address(asset_custody_seeds(old(ctx).listing.nft_mint@), program_id@),
        )),
        r is Err ==> *final(ctx) == *old(ctx),
        r is Ok ==> *final(ctx) == accept_effect(*old(ctx), now),
        r is Ok ==> !final(ctx).bid.active && !final(ctx).listing.active && final(ctx).nft_state.sold,
{
    let listing_seeds = listing_seed_list(&ctx.listing.owner, &ctx.listing.nft_mint);
    let listing_authority = CustodyAuthority::derive(program_id, listing_seeds, ctx.listing.bump);
    let bid_seeds = bid_custody_seed_list(&ctx.bid.bidder, &ctx.bid.nft_mint);
    let bid_authority = CustodyAuthority::derive(program_id, bid_seeds, ctx.bid.escrow_bump);
    let custody_address = find_address(&asset_custody_seed_list(&ctx.listing.nft_mint), program_id);
    process(ctx, now, listing_authority, bid_authority, custody_address)
}

} // verus!
