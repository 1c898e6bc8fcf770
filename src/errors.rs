use vstd::prelude::*;

verus! {

/// Why an instruction was refused. A refused instruction changes nothing.
#[derive(Clone, Copy, Debug, PartialEq, Eq, Structural)]
pub enum VoucherExchangeError {
    /// The fee rate exceeds the largest allowed rate.
    FeeTooHigh,
    /// The exchange has already been set up.
    ExchangeAlreadyInitialized,
    /// The price is zero, or a payment account holds another currency.
    InvalidPrice,
    /// The caller does not hold the asset.
    NotNFTOwner,
    /// The caller is not the owner of the listing.
    NotListingOwner,
    /// The caller is not the bidder.
    NotBidder,
    /// The caller is not the exchange's authority.
    NotExchangeAuthority,
    /// The paying account holds less than the price.
    InsufficientFunds,
    /// The listing is no longer active.
    ListingNotActive,
    /// The bid is no longer active.
    BidNotActive,
    /// The account that should hold the asset does not hold exactly one unit.
    InsufficientAssetAmount,
    /// The asset has already been sold.
    NFTAlreadySold,
    /// The bid is not (or already) marked for refund.
    BidNotRequiresRefund,
    /// The bid, or its custody account, is not in the state this step needs.
    InvalidBidState,
    /// An account handed in for the asset is not the one the records name.
    InvalidNFTAccount,
    /// A payment account handed in is not the one the records name.
    InvalidTokenAccount,
    /// A custody account is not at, or not controlled by, its derived address.
    InvalidCustodyAddress,
    /// A balance or a fee computation would leave the range of `u64`.
    ArithmeticError,
}

impl VoucherExchangeError {
    /// A short description of the error.
    pub fn message(&self) -> (r: String) {
        match self {
            VoucherExchangeError::FeeTooHigh => "Exchange fee is too high".to_string(),
            VoucherExchangeError::ExchangeAlreadyInitialized => "Exchange is already initialized".to_string(),
            VoucherExchangeError::InvalidPrice => "Invalid price".to_string(),
            VoucherExchangeError::NotNFTOwner => "Not the NFT owner".to_string(),
            VoucherExchangeError::NotListingOwner => "Not the listing owner".to_string(),
            VoucherExchangeError::NotBidder => "Not the bidder".to_string(),
            VoucherExchangeError::NotExchangeAuthority => "Not the exchange authority".to_string(),
            VoucherExchangeError::InsufficientFunds => "Insufficient funds for transaction".to_string(),
            VoucherExchangeError::ListingNotActive => "Listing is not active".to_string(),
            VoucherExchangeError::BidNotActive => "Bid is not active".to_string(),
            VoucherExchangeError::InsufficientAssetAmount => "Insufficient NFT amount (must be 1)".to_string(),
            VoucherExchangeError::NFTAlreadySold => "NFT has already been sold".to_string(),
            VoucherExchangeError::BidNotRequiresRefund => "Bid does not require refund".to_string(),
            VoucherExchangeError::InvalidBidState => "Invalid bid state for this operation".to_string(),
            VoucherExchangeError::InvalidNFTAccount => "Invalid NFT account".to_string(),
            VoucherExchangeError::InvalidTokenAccount => "Invalid payment token account".to_string(),
            VoucherExchangeError::InvalidCustodyAddress => "Custody account does not match its derived address".to_string(),
            VoucherExchangeError::ArithmeticError => "Arithmetic overflow or underflow".to_string(),
        }
    }
}

} // verus!
