//! A buyer pays a listing's price and receives the listed asset from custody.
use vstd::prelude::*;
use crate::address::Address;
use crate::custody::{closed, close_custody, credited, debited, transfer, withdraw_with_authority};
use crate::derivation::{
    asset_custody_seed_list, asset_custody_seeds, authority_signer, canonical_program_address, derived_at, find_address,
    found_at, found_view, listing_seed_list, listing_seeds, program_address, with_bump, CustodyAuthority,
};
use crate::errors::VoucherExchangeError;
use crate::instructions::result_of;
use crate::settlement::{calculate_fee_split, fee_split};
use crate::state::{saturating_dec, TokenAccount, VoucherExchange, VoucherListing, VoucherState};

verus! {

/// The accounts that a purchase of a listing reads and writes.
#[derive(Clone, Copy, Debug)]
pub struct FulfillVoucherListing {
    pub listing: VoucherListing,
    pub exchange: VoucherExchange,
    /// The signer who pays.
    pub buyer: Address,
    /// The sale record of the listed asset.
    pub nft_state: VoucherState,
    /// The custody account that holds the listed asset.
    pub escrow_nft_account: TokenAccount,
    /// The buyer's account for the asset.
    pub buyer_nft_account: TokenAccount,
    /// The buyer's account in the payment currency.
    pub buyer_payment_account: TokenAccount,
    /// The listing owner's account in the payment currency.
    pub owner_payment_account: TokenAccount,
    /// The exchange's fee account.
    pub fee_payment_account: TokenAccount,
}

/// Whether the asset accounts and the sale record are those of the listing.
pub open spec fn asset_accounts_match(ctx: FulfillVoucherListing) -> bool {
    let mint = ctx.listing.nft_mint@;
    &&& ctx.escrow_nft_account.key@ == ctx.listing.nft_account@
    &&& ctx.escrow_nft_account.mint@ == mint
    &&& ctx.buyer_nft_account.mint@ == mint
    &&& ctx.buyer_nft_account.owner@ == ctx.buyer@
    &&& ctx.buyer_nft_account.key@ != ctx.escrow_nft_account.key@
    &&& ctx.nft_state.nft_mint@ == mint
}

/// Whether the three payment accounts are distinct, in the listing's
/// currency, and held by the buyer, the listing owner and the exchange.
pub open spec fn payment_accounts_match(ctx: FulfillVoucherListing) -> bool {
    let currency = ctx.listing.payment_mint@;
    &&& ctx.buyer_payment_account.mint@ == currency
    &&& ctx.buyer_payment_account.owner@ == ctx.buyer@
    &&& ctx.owner_payment_account.mint@ == currency
    &&& ctx.owner_payment_account.owner@ == ctx.listing.owner@
    &&& ctx.fee_payment_account.mint@ == currency
    &&& ctx.fee_payment_account.key@ == ctx.exchange.fee_account@
    &&& ctx.buyer_payment_account.key@ != ctx.owner_payment_account.key@
    &&& ctx.buyer_payment_account.key@ != ctx.fee_payment_account.key@
    &&& ctx.owner_payment_account.key@ != ctx.fee_payment_account.key@
}

/// The first check that a purchase fails, given the signer that the
/// listing's seeds and nonce derive and the custody account's derived
/// address.
pub open spec fn fulfill_error(
    ctx: FulfillVoucherListing,
    signer: Option<Seq<u8>>,
    custody_address: Option<(Seq<u8>, u8)>,
) -> Option<VoucherExchangeError> {
    let price = ctx.listing.price;
    let split = fee_split(price, ctx.exchange.fee_basis_points);
    if !ctx.listing.active {
        Some(VoucherExchangeError::ListingNotActive)
    } else if !asset_accounts_match(ctx) {
        Some(VoucherExchangeError::InvalidNFTAccount)
    } else if !payment_accounts_match(ctx) {
        Some(VoucherExchangeError::InvalidTokenAccount)
    } else if ctx.buyer_payment_account.amount < price {
        Some(VoucherExchangeError::InsufficientFunds)
    } else if ctx.escrow_nft_account.amount != 1 {
        Some(VoucherExchangeError::InsufficientAssetAmount)
    } else if split is Err {
        Some(VoucherExchangeError::ArithmeticError)
    } else if !derived_at(custody_address, ctx.escrow_nft_account.key@) || signer != Some(ctx.escrow_nft_account.owner@) {
        Some(VoucherExchangeError::InvalidCustodyAddress)
    } else if ctx.owner_payment_account.amount + split->Ok_0.seller_amount > u64::MAX
        || ctx.fee_payment_account.amount + split->Ok_0.fee > u64::MAX
        || ctx.buyer_nft_account.amount + 1 > u64::MAX {
        Some(VoucherExchangeError::ArithmeticError)
    } else {
        None
    }
}

/// The accounts after a purchase at `now`: the buyer paid the seller's
/// amount to the owner and the fee to the exchange, the asset went to the
/// buyer, the custody account is closed, the listing is inactive and the
/// asset is recorded as sold.
pub open spec fn fulfill_effect(ctx: FulfillVoucherListing, now: i64) -> FulfillVoucherListing {
    let price = ctx.listing.price;
    let split = fee_split(price, ctx.exchange.fee_basis_points)->Ok_0;
    FulfillVoucherListing {
        listing: VoucherListing { active: false, ..ctx.listing },
        exchange: ctx.exchange.with_listings(saturating_dec(ctx.exchange.total_listings)),
        nft_state: ctx.nft_state.after_sale(now),
        escrow_nft_account: closed(debited(ctx.escrow_nft_account, 1)),
        buyer_nft_account: credited(ctx.buyer_nft_account, 1),
        buyer_payment_account: debited(ctx.buyer_payment_account, price),
        owner_payment_account: credited(ctx.owner_payment_account, split.seller_amount),
        fee_payment_account: credited(ctx.fee_payment_account, split.fee),
        ..ctx
    }
}

/// Settles a purchase given the authority derived for the listing's custody
/// account and that account's derived address (`None` where none derives).
pub fn process(
    ctx: &mut FulfillVoucherListing,
    now: i64,
    authority: Option<CustodyAuthority>,
    custody_address: Option<(Address, u8)>,
) -> (r: Result<(), VoucherExchangeError>)
    ensures
        r == result_of(fulfill_error(*old(ctx), authority_signer(authority), found_view(custody_address))),
        r is Err ==> *final(ctx) == *old(ctx),
        r is Ok ==> *final(ctx) == fulfill_effect(*old(ctx), now),
        r is Ok ==> !final(ctx).listing.active && final(ctx).nft_state.sold,
{
    let price = ctx.listing.price;
    if !ctx.listing.active {
        return Err(VoucherExchangeError::ListingNotActive);
    }
    let mint = ctx.listing.nft_mint;
    if !ctx.escrow_nft_account.key.same_as(&ctx.listing.nft_account)
        || !ctx.escrow_nft_account.mint.same_as(&mint)
        || !ctx.buyer_nft_account.mint.same_as(&mint)
        || !ctx.buyer_nft_account.owner.same_as(&ctx.buyer)
        || ctx.buyer_nft_account.key.same_as(&ctx.escrow_nft_account.key)
        || !ctx.nft_state.nft_mint.same_as(&mint) {
        return Err(VoucherExchangeError::InvalidNFTAccount);
    }
    let currency = ctx.listing.payment_mint;
    if !ctx.buyer_payment_account.mint.same_as(&currency)
        || !ctx.buyer_payment_account.owner.same_as(&ctx.buyer)
        || !ctx.owner_payment_account.mint.same_as(&currency)
        || !ctx.owner_payment_account.owner.same_as(&ctx.listing.owner)
        || !ctx.fee_payment_account.mint.same_as(&currency)
        || !ctx.fee_payment_account.key.same_as(&ctx.exchange.fee_account)
        || ctx.buyer_payment_account.key.same_as(&ctx.owner_payment_account.key)
        || ctx.buyer_payment_account.key.same_as(&ctx.fee_payment_account.key)
        || ctx.owner_payment_account.key.same_as(&ctx.fee_payment_account.key) {
        return Err(VoucherExchangeError::InvalidTokenAccount);
    }
    if ctx.buyer_payment_account.amount < price {
        return Err(VoucherExchangeError::InsufficientFunds);
    }
    if ctx.escrow_nft_account.amount != 1 {
        return Err(VoucherExchangeError::InsufficientAssetAmount);
    }
    let split = match calculate_fee_split(price, ctx.exchange.fee_basis_points) {
        Ok(s) => s,
        Err(e) => return Err(e),
    };
    if !found_at(&custody_address, &ctx.escrow_nft_account.key) {
        return Err(VoucherExchangeError::InvalidCustodyAddress);
    }
    let authority = match authority {
        Some(a) => a,
        None => return Err(VoucherExchangeError::InvalidCustodyAddress),
    };
    if !authority.signer().same_as(&ctx.escrow_nft_account.owner) {
        return Err(VoucherExchangeError::InvalidCustodyAddress);
    }
    if ctx.owner_payment_account.amount > u64::MAX - split.seller_amount
        || ctx.fee_payment_account.amount > u64::MAX - split.fee
        || ctx.buyer_nft_account.amount == u64::MAX {
        return Err(VoucherExchangeError::ArithmeticError);
    }
    transfer(&mut ctx.buyer_payment_account, &mut ctx.owner_payment_account, split.seller_amount);
    if split.fee > 0 {
        transfer(&mut ctx.buyer_payment_account, &mut ctx.fee_payment_account, split.fee);
    }
    withdraw_with_authority(&mut ctx.escrow_nft_account, &mut ctx.buyer_nft_account, 1, &authority);
    close_custody(&mut ctx.escrow_nft_account, &authority);
    ctx.nft_state.record_sale(now);
    ctx.listing.active = false;
    ctx.exchange.decrement_listings();
    Ok(())
}

/// Buys the listing at `now`. The custody account that holds the asset must
/// sit at the address derived from the asset, and the listing's seeds and
/// stored nonce must derive its authority.
pub fn handler(program_id: &Address, ctx: &mut FulfillVoucherListing, now: i64) -> (r: Result<(), VoucherExchangeError>)
    ensures
        r == result_of(fulfill_error(*old(ctx), program_address(
            with_bump(listing_seeds(old(ctx).listing.owner@, old(ctx).listing.nft_mint@), old(ctx).listing.bump),
            program_id@,
        ), canonical_program_address(asset_custody_seeds(old(ctx).listing.nft_mint@), program_id@))),
        r is Err ==> *final(ctx) == *old(ctx),
        r is Ok ==> *final(ctx) == fulfill_effect(*old(ctx), now),
        r is Ok ==> !final(ctx).listing.active && final(ctx).nft_state.sold,
{
    let seeds = listing_seed_list(&ctx.listing.owner, &ctx.listing.nft_mint);
    let authority = CustodyAuthority::derive(program_id, seeds, ctx.listing.bump);
    let custody_address = find_address(&asset_custody_seed_list(&ctx.listing.nft_mint), program_id);
    process(ctx, now, authority, custody_address)
}

} // verus!
