//! An owner offers an asset at a fixed price and puts it in custody.
use vstd::prelude::*;
use crate::address::Address;
use crate::custody::{debited, transfer};
use crate::derivation::{
    asset_custody_seed_list, asset_custody_seeds, canonical_program_address, find_address, found_view,
    listing_seed_list, listing_seeds,
};
use crate::errors::VoucherExchangeError;
use crate::instructions::result_of;
use crate::state::{saturating_inc, TokenAccount, VoucherExchange, VoucherListing};

verus! {

/// The accounts that listing an asset reads and writes.
#[derive(Clone, Copy, Debug)]
pub struct CreateVoucherListing {
    /// The slot for the owner's listing of the asset.
    pub listing: VoucherListing,
    pub exchange: VoucherExchange,
    /// The signer who lists: the asset's holder.
    pub owner: Address,
    /// The asset listed.
    pub nft_mint: Address,
    /// The currency the price is in.
    pub payment_mint: Address,
    /// The owner's account holding the asset.
    pub owner_nft_account: TokenAccount,
    /// The custody account for the asset, controlled by the listing's address.
    pub escrow_nft_account: TokenAccount,
}

/// The first check that listing at `price` fails, given the derived
/// addresses (with nonces) of the listing and of the asset's custody account.
pub open spec fn create_listing_error(
    ctx: CreateVoucherListing,
    price: u64,
    listing_address: Option<(Seq<u8>, u8)>,
    custody_address: Option<(Seq<u8>, u8)>,
) -> Option<VoucherExchangeError> {
    if price == 0 {
        Some(VoucherExchangeError::InvalidPrice)
    } else if ctx.owner_nft_account.mint@ != ctx.nft_mint@ || ctx.owner_nft_account.owner@ != ctx.owner@ {
        Some(VoucherExchangeError::NotNFTOwner)
    } else if ctx.owner_nft_account.amount != 1 {
        Some(VoucherExchangeError::InsufficientAssetAmount)
    } else if listing_address is None || custody_address is None
        || custody_address->Some_0.0 != ctx.escrow_nft_account.key@
        || listing_address->Some_0.0 != ctx.escrow_nft_account.owner@ {
        Some(VoucherExchangeError::InvalidCustodyAddress)
    } else if ctx.escrow_nft_account.mint@ != ctx.nft_mint@
        || ctx.escrow_nft_account.key@ == ctx.owner_nft_account.key@
        || ctx.escrow_nft_account.amount != 0 {
        Some(VoucherExchangeError::InvalidNFTAccount)
    } else {
        None
    }
}

/// The accounts after listing: the asset moved into the open custody
/// account, and the slot holds an active listing at `price`.
pub open spec fn create_listing_effect(ctx: CreateVoucherListing, price: u64, listing_bump: u8) -> CreateVoucherListing {
    CreateVoucherListing {
        listing: VoucherListing {
            owner: ctx.owner,
            nft_mint: ctx.nft_mint,
            nft_account: ctx.escrow_nft_account.key,
            price,
            payment_mint: ctx.payment_mint,
            active: true,
            bump: listing_bump,
        },
        exchange: ctx.exchange.with_listings(saturating_inc(ctx.exchange.total_listings)),
        owner_nft_account: debited(ctx.owner_nft_account, 1),
        escrow_nft_account: TokenAccount { amount: 1, closed: false, ..ctx.escrow_nft_account },
        ..ctx
    }
}

/// A fresh listing is active at a non-zero price, and its custody account is
/// the one it records and holds the asset's single unit.
pub proof fn lemma_new_listing_holds_asset(
    ctx: CreateVoucherListing,
    price: u64,
    listing_bump: u8,
    listing_address: Option<(Seq<u8>, u8)>,
    custody_address: Option<(Seq<u8>, u8)>,
)
    requires
        create_listing_error(ctx, price, listing_address, custody_address) is None,
    ensures
        ({
            let post = create_listing_effect(ctx, price, listing_bump);
            &&& post.listing.active
            &&& post.listing.price > 0
            &&& post.escrow_nft_account.key == post.listing.nft_account
            &&& post.escrow_nft_account.amount == 1
            &&& post.owner_nft_account.amount == 0
        }),
{
}

/// Lists the asset given the derived addresses, with nonces, of the listing
/// and of the asset's custody account (`None` where none derives).
pub fn process(
    ctx: &mut CreateVoucherListing,
    price: u64,
    listing_address: Option<(Address, u8)>,
    custody_address: Option<(Address, u8)>,
) -> (r: Result<(), VoucherExchangeError>)
    ensures
        r == result_of(create_listing_error(*old(ctx), price, found_view(listing_address), found_view(custody_address))),
        r is Err ==> *final(ctx) == *old(ctx),
        r is Ok ==> *final(ctx) == create_listing_effect(*old(ctx), price, listing_address->Some_0.1),
        price == 0 ==> r == Err::<(), VoucherExchangeError>(VoucherExchangeError::InvalidPrice),
{
    if price == 0 {
        return Err(VoucherExchangeError::InvalidPrice);
    }
    if !ctx.owner_nft_account.mint.same_as(&ctx.nft_mint) || !ctx.owner_nft_account.owner.same_as(&ctx.owner) {
        return Err(VoucherExchangeError::NotNFTOwner);
    }
    if ctx.owner_nft_account.amount != 1 {
        return Err(VoucherExchangeError::InsufficientAssetAmount);
    }
    let (listing_key, listing_bump) = match listing_address {
        Some(found) => found,
        None => return Err(VoucherExchangeError::InvalidCustodyAddress),
    };
    let (custody_key, _custody_bump) = match custody_address {
        Some(found) => found,
        None => return Err(VoucherExchangeError::InvalidCustodyAddress),
    };
    if !custody_key.same_as(&ctx.escrow_nft_account.key) || !listing_key.same_as(&ctx.escrow_nft_account.owner) {
        return Err(VoucherExchangeError::InvalidCustodyAddress);
    }
    if !ctx.escrow_nft_account.mint.same_as(&ctx.nft_mint)
        || ctx.escrow_nft_account.key.same_as(&ctx.owner_nft_account.key)
        || ctx.escrow_nft_account.amount != 0 {
        return Err(VoucherExchangeError::InvalidNFTAccount);
    }
    ctx.escrow_nft_account.closed = false;
    transfer(&mut ctx.owner_nft_account, &mut ctx.escrow_nft_account, 1);
    ctx.listing = VoucherListing {
        owner: ctx.owner,
        nft_mint: ctx.nft_mint,
        nft_account: ctx.escrow_nft_account.key,
        price,
        payment_mint: ctx.payment_mint,
        active: true,
        bump: listing_bump,
    };
    ctx.exchange.increment_listings();
    Ok(())
}

/// Lists the asset at `price`. The listing's address is derived from the
/// owner and the asset, and must be the authority of the custody account,
/// which must sit at the address derived from the asset.
pub fn handler(program_id: &Address, ctx: &mut CreateVoucherListing, price: u64) -> (r: Result<(), VoucherExchangeError>)
    ensures
        r == result_of(create_listing_error(
            *old(ctx),
            price,
            canonical_program_address(listing_seeds(old(ctx).owner@, old(ctx).nft_mint@), program_id@),
            canonical_program_address(asset_custody_seeds(old(ctx).nft_mint@), program_id@),
        )),
        r is Err ==> *final(ctx) == *old(ctx),
        r is Ok ==> *final(ctx) == create_listing_effect(
            *old(ctx),
            price,
            canonical_program_address(listing_seeds(old(ctx).owner@, old(ctx).nft_mint@), program_id@)->Some_0.1,
        ),
        price == 0 ==> r == Err::<(), VoucherExchangeError>(VoucherExchangeError::InvalidPrice),
{
    let listing_address = find_address(&listing_seed_list(&ctx.owner, &ctx.nft_mint), program_id);
    let custody_address = find_address(&asset_custody_seed_list(&ctx.nft_mint), program_id);
    process(ctx, price, listing_address, custody_address)
}

} // verus!
