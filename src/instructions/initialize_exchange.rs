//! Sets up the exchange's configuration once.
use vstd::prelude::*;
use crate::address::Address;
use crate::constants::MAX_FEE_BASIS_POINTS;
use crate::derivation::{canonical_program_address, exchange_seed_list, exchange_seeds, find_address, found_view};
use crate::errors::VoucherExchangeError;
use crate::instructions::result_of;
use crate::state::VoucherExchange;

verus! {

/// The accounts that initialisation reads and writes.
#[derive(Clone, Copy, Debug)]
pub struct InitializeExchange {
    /// The exchange's configuration, `None` until it has been set up.
    pub exchange: Option<VoucherExchange>,
    /// The signer, who becomes the exchange's authority.
    pub authority: Address,
    /// The token account that will receive fees.
    pub fee_account: Address,
}

/// The first check that initialisation fails, given the exchange's derived
/// address and nonce. An exchange is set up once and never again.
pub open spec fn initialize_error(
    ctx: InitializeExchange,
    fee_basis_points: u16,
    exchange_address: Option<(Seq<u8>, u8)>,
) -> Option<VoucherExchangeError> {
    if ctx.exchange is Some {
        Some(VoucherExchangeError::ExchangeAlreadyInitialized)
    } else if fee_basis_points > MAX_FEE_BASIS_POINTS {
        Some(VoucherExchangeError::FeeTooHigh)
    } else if exchange_address is None {
        Some(VoucherExchangeError::InvalidCustodyAddress)
    } else {
        None
    }
}

/// The configuration after initialisation: zero counters.
pub open spec fn initialize_effect(ctx: InitializeExchange, fee_basis_points: u16, bump: u8) -> InitializeExchange {
    InitializeExchange {
        exchange: Some(
            VoucherExchange {
                authority: ctx.authority,
                fee_basis_points,
                fee_account: ctx.fee_account,
                total_listings: 0,
                total_bids: 0,
                bump,
            },
        ),
        ..ctx
    }
}

/// Initialises the exchange given its derived address and nonce (`None`
/// where none derives).
pub fn process(ctx: &mut InitializeExchange, fee_basis_points: u16, exchange_address: Option<(Address, u8)>) -> (r: Result<(), VoucherExchangeError>)
    ensures
        r == result_of(initialize_error(*old(ctx), fee_basis_points, found_view(exchange_address))),
        r is Err ==> *final(ctx) == *old(ctx),
        old(ctx).exchange is Some ==> r is Err && *final(ctx) == *old(ctx),
        r is Ok ==> *final(ctx) == initialize_effect(*old(ctx), fee_basis_points, exchange_address->Some_0.1),
{
    if ctx.exchange.is_some() {
        return Err(VoucherExchangeError::ExchangeAlreadyInitialized);
    }
    if fee_basis_points > MAX_FEE_BASIS_POINTS {
        return Err(VoucherExchangeError::FeeTooHigh);
    }
    let bump = match exchange_address {
        Some((_, bump)) => bump,
        None => return Err(VoucherExchangeError::InvalidCustodyAddress),
    };
    ctx.exchange = Some(
        VoucherExchange {
            authority: ctx.authority,
            fee_basis_points,
            fee_account: ctx.fee_account,
            total_listings: 0,
            total_bids: 0,
            bump,
        },
    );
    Ok(())
}

/// Initialises the exchange with a fee of `fee_basis_points`, at most 1000,
/// unless it has been set up already.
pub fn handler(program_id: &Address, ctx: &mut InitializeExchange, fee_basis_points: u16) -> (r: Result<(), VoucherExchangeError>)
    ensures
        r == result_of(initialize_error(*old(ctx), fee_basis_points, canonical_program_address(exchange_seeds(), program_id@))),
        r is Err ==> *final(ctx) == *old(ctx),
        old(ctx).exchange is Some ==> r is Err && *final(ctx) == *old(ctx),
        r is Ok ==> *final(ctx) == initialize_effect(
            *old(ctx),
            fee_basis_points,
            canonical_program_address(exchange_seeds(), program_id@)->Some_0.1,
        ),
        old(ctx).exchange is None && fee_basis_points > MAX_FEE_BASIS_POINTS
            ==> r == Err::<(), VoucherExchangeError>(VoucherExchangeError::FeeTooHigh),
{
    let exchange_address = find_address(&exchange_seed_list(), program_id);
    process(ctx, fee_basis_points, exchange_address)
}

} // verus!
