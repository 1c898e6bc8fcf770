//! An owner withdraws an active listing and gets the asset back.
use vstd::prelude::*;
use crate::address::Address;
use crate::custody::{closed, close_custody, credited, debited, withdraw_with_authority};
use crate::derivation::{
    asset_custody_seed_list, asset_custody_seeds, authority_signer, canonical_program_address, derived_at, find_address,
    found_at, found_view, listing_seed_list, listing_seeds, program_address, with_bump, CustodyAuthority,
};
use crate::errors::VoucherExchangeError;
use crate::instructions::result_of;
use crate::state::{saturating_dec, TokenAccount, VoucherExchange, VoucherListing};

verus! {

/// The accounts that cancelling a listing reads and writes.
#[derive(Clone, Copy, Debug)]
pub struct CancelVoucherListing {
    pub listing: VoucherListing,
    pub exchange: VoucherExchange,
    /// The signer who cancels: the listing's owner.
    pub owner: Address,
    /// The owner's account for the asset.
    pub owner_nft_account: TokenAccount,
    /// The custody account that holds the listed asset.
    pub escrow_nft_account: TokenAccount,
}

/// The first check that cancelling fails, given the authority derived for
/// the listing's custody account and that account's derived address.
pub open spec fn cancel_listing_error(
    ctx: CancelVoucherListing,
    signer: Option<Seq<u8>>,
    custody_address: Option<(Seq<u8>, u8)>,
) -> Option<VoucherExchangeError> {
    let mint = ctx.listing.nft_mint@;
    if ctx.listing.owner@ != ctx.owner@ {
        Some(VoucherExchangeError::NotListingOwner)
    } else if !ctx.listing.active {
        Some(VoucherExchangeError::ListingNotActive)
    } else if ctx.owner_nft_account.owner@ != ctx.owner@ {
        Some(VoucherExchangeError::NotNFTOwner)
    } else if ctx.owner_nft_account.mint@ != mint || ctx.escrow_nft_account.key@ != ctx.listing.nft_account@
        || ctx.escrow_nft_account.mint@ != mint || ctx.escrow_nft_account.key@ == ctx.owner_nft_account.key@ {
        Some(VoucherExchangeError::InvalidNFTAccount)
    } else if ctx.escrow_nft_account.amount != 1 {
        Some(VoucherExchangeError::InsufficientAssetAmount)
    } else if !derived_at(custody_address, ctx.escrow_nft_account.key@) || signer != Some(ctx.escrow_nft_account.owner@) {
        Some(VoucherExchangeError::InvalidCustodyAddress)
    } else if ctx.owner_nft_account.amount + 1 > u64::MAX {
        Some(VoucherExchangeError::ArithmeticError)
    } else {
        None
    }
}

/// The accounts after a cancellation: the asset is back with the owner, the
/// custody account is closed and the listing is inactive.
pub open spec fn cancel_listing_effect(ctx: CancelVoucherListing) -> CancelVoucherListing {
    CancelVoucherListing {
        listing: VoucherListing { active: false, ..ctx.listing },
        exchange: ctx.exchange.with_listings(saturating_dec(ctx.exchange.total_listings)),
        owner_nft_account: credited(ctx.owner_nft_account, 1),
        escrow_nft_account: closed(debited(ctx.escrow_nft_account, 1)),
        ..ctx
    }
}

/// Cancels the listing given the authority derived for its custody account
/// and that account's derived address (`None` where none derives).
pub fn process(
    ctx: &mut CancelVoucherListing,
    authority: Option<CustodyAuthority>,
    custody_address: Option<(Address, u8)>,
) -> (r: Result<(), VoucherExchangeError>)
    ensures
        r == result_of(cancel_listing_error(*old(ctx), authority_signer(authority), found_view(custody_address))),
        r is Err ==> *final(ctx) == *old(ctx),
        r is Ok ==> *final(ctx) == cancel_listing_effect(*old(ctx)),
        !old(ctx).listing.active ==> r is Err && *final(ctx) == *old(ctx),
{
    if !ctx.listing.owner.same_as(&ctx.owner) {
        return Err(VoucherExchangeError::NotListingOwner);
    }
    if !ctx.listing.active {
        return Err(VoucherExchangeError::ListingNotActive);
    }
    if !ctx.owner_nft_account.owner.same_as(&ctx.owner) {
        return Err(VoucherExchangeError::NotNFTOwner);
    }
    let mint = ctx.listing.nft_mint;
    if !ctx.owner_nft_account.mint.same_as(&mint) || !ctx.escrow_nft_account.key.same_as(&ctx.listing.nft_account)
        || !ctx.escrow_nft_account.mint.same_as(&mint)
        || ctx.escrow_nft_account.key.same_as(&ctx.owner_nft_account.key) {
        return Err(VoucherExchangeError::InvalidNFTAccount);
    }
    if ctx.escrow_nft_account.amount != 1 {
        return Err(VoucherExchangeError::InsufficientAssetAmount);
    }
    if !found_at(&custody_address, &ctx.escrow_nft_account.key) {
        return Err(VoucherExchangeError::InvalidCustodyAddress);
    }
    let authority = match authority {
        Some(a) => a,
        None => return Err(VoucherExchangeError::InvalidCustodyAddress),
    };
    if !authority.signer().same_as(&ctx.escrow_nft_account.owner) {
        return Err(VoucherExchangeError::InvalidCustodyAddress);
    }
    if ctx.owner_nft_account.amount == u64::MAX {
        return Err(VoucherExchangeError::ArithmeticError);
    }
    withdraw_with_authority(&mut ctx.escrow_nft_account, &mut ctx.owner_nft_account, 1, &authority);
    close_custody(&mut ctx.escrow_nft_account, &authority);
    ctx.listing.active = false;
    ctx.exchange.decrement_listings();
    Ok(())
}

/// Cancels the listing. The custody account must sit at the address derived
/// from the asset, and the listing's seeds and stored nonce must derive its
/// authority.
pub fn handler(program_id: &Address, ctx: &mut CancelVoucherListing) -> (r: Result<(), VoucherExchangeError>)
    ensures
        r == result_of(cancel_listing_error(*old(ctx), program_address(
            with_bump(listing_seeds(old(ctx).listing.owner@, old(ctx).listing.nft_mint@), old(ctx).listing.bump),
            program_id@,
        ), canonical_program_address(asset_custody_seeds(old(ctx).listing.nft_mint@), program_id@))),
        r is Err ==> *final(ctx) == *old(ctx),
        r is Ok ==> *final(ctx) == cancel_listing_effect(*old(ctx)),
        !old(ctx).listing.active ==> r is Err && *final(ctx) == *old(ctx),
{
    let seeds = listing_seed_list(&ctx.listing.owner, &ctx.listing.nft_mint);
    let authority = CustodyAuthority::derive(program_id, seeds, ctx.listing.bump);
    let custody_address = find_address(&asset_custody_seed_list(&ctx.listing.nft_mint), program_id);
    process(ctx, authority, custody_address)
}

} // verus!
