//! The records the exchange keeps, and the token accounts it moves assets
//! and funds between.
use vstd::prelude::*;
use crate::address::Address;

verus! {

/// A balance of one mint held under one authority. Custody accounts are
/// token accounts whose authority is a program-derived address.
#[derive(Clone, Copy, Debug)]
pub struct TokenAccount {
    /// The account's own address.
    pub key: Address,
    /// What the account holds: an asset, or a payment currency.
    pub mint: Address,
    /// The authority that may move the balance out.
    pub owner: Address,
    pub amount: u64,
    /// Set when a custody account has been emptied and closed.
    pub closed: bool,
}

/// The exchange's singleton configuration and counters.
#[derive(Clone, Copy, Debug)]
pub struct VoucherExchange {
    /// The identity that may mark bids for refund.
    pub authority: Address,
    /// Fee rate in basis points, at most 1000.
    pub fee_basis_points: u16,
    /// The token account that receives fees.
    pub fee_account: Address,
    /// Listings created and not yet closed.
    pub total_listings: u64,
    /// Bids created and not yet closed.
    pub total_bids: u64,
    /// The nonce of the exchange's derived address.
    pub bump: u8,
}

/// A standing offer to sell one asset at a fixed price.
#[derive(Clone, Copy, Debug)]
pub struct VoucherListing {
    pub owner: Address,
    pub nft_mint: Address,
    /// The custody account that holds the listed asset.
    pub nft_account: Address,
    pub price: u64,
    pub payment_mint: Address,
    pub active: bool,
    /// The nonce of the listing's derived address, which is the authority of
    /// its custody account.
    pub bump: u8,
}

/// A standing offer to buy one asset, backed by funds in custody.
#[derive(Clone, Copy, Debug)]
pub struct VoucherBid {
    pub bidder: Address,
    pub nft_mint: Address,
    pub price: u64,
    pub payment_mint: Address,
    /// The custody account that holds the bid's funds.
    pub escrow_account: Address,
    pub active: bool,
    /// Set by the authority once the asset has sold elsewhere.
    pub requires_refund: bool,
    /// The nonce of the custody account's derived address.
    pub escrow_bump: u8,
}

/// The sale record of one asset.
#[derive(Clone, Copy, Debug)]
pub struct VoucherState {
    pub nft_mint: Address,
    pub sold: bool,
    pub latest_sale_timestamp: i64,
}

pub open spec fn saturating_inc(n: u64) -> u64 {
    if n == u64::MAX { n } else { (n + 1) as u64 }
}

pub open spec fn saturating_dec(n: u64) -> u64 {
    if n == 0 { 0 } else { (n - 1) as u64 }
}

impl VoucherExchange {
    pub open spec fn with_listings(self, n: u64) -> VoucherExchange {
        VoucherExchange { total_listings: n, ..self }
    }

    pub open spec fn with_bids(self, n: u64) -> VoucherExchange {
        VoucherExchange { total_bids: n, ..self }
    }

    pub fn increment_listings(&mut self)
        ensures
            *final(self) == old(self).with_listings(saturating_inc(old(self).total_listings)),
    {
        self.total_listings = self.total_listings.saturating_add(1);
    }

    pub fn decrement_listings(&mut self)
        ensures
            *final(self) == old(self).with_listings(saturating_dec(old(self).total_listings)),
    {
        self.total_listings = self.total_listings.saturating_sub(1);
    }

    pub fn increment_bids(&mut self)
        ensures
            *final(self) == old(self).with_bids(saturating_inc(old(self).total_bids)),
    {
        self.total_bids = self.total_bids.saturating_add(1);
    }

    pub fn decrement_bids(&mut self)
        ensures
            *final(self) == old(self).with_bids(saturating_dec(old(self).total_bids)),
    {
        self.total_bids = self.total_bids.saturating_sub(1);
    }
}

impl VoucherState {
    /// The record of an asset that has never sold.
    pub fn unsold(nft_mint: Address) -> (r: VoucherState)
        ensures
            r == (VoucherState { nft_mint, sold: false, latest_sale_timestamp: 0 }),
    {
        VoucherState { nft_mint, sold: false, latest_sale_timestamp: 0 }
    }

    pub open spec fn after_sale(self, now: i64) -> VoucherState {
        VoucherState { sold: true, latest_sale_timestamp: now, ..self }
    }

    /// Records a sale at `now`; a sold asset stays sold.
    pub fn record_sale(&mut self, now: i64)
        ensures
            *final(self) == old(self).after_sale(now),
    {
        self.sold = true;
        self.latest_sale_timestamp = now;
    }

    pub fn is_sold(&self) -> (r: bool)
        ensures
            r == self.sold,
    {
        self.sold
    }
}

} // verus!
