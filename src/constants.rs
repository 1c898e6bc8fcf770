use vstd::prelude::*;

verus! {

/// Largest exchange fee, in basis points (10%).
pub const MAX_FEE_BASIS_POINTS: u16 = 1000;

/// Basis points in a whole.
pub const BASIS_POINTS_DIVISOR: u64 = 10000;

/// Domain tag of the exchange's own address: "voucher_exchange".
pub open spec fn exchange_tag() -> Seq<u8> {
    seq![118u8, 111, 117, 99, 104, 101, 114, 95, 101, 120, 99, 104, 97, 110, 103, 101]
}

/// Domain tag of a listing's address: "voucher_listing".
pub open spec fn listing_tag() -> Seq<u8> {
    seq![118u8, 111, 117, 99, 104, 101, 114, 95, 108, 105, 115, 116, 105, 110, 103]
}

/// Domain tag of a custody account: "escrow".
pub open spec fn escrow_tag() -> Seq<u8> {
    seq![101u8, 115, 99, 114, 111, 119]
}

pub fn exchange_seed() -> (r: Vec<u8>)
    ensures
        r@ == exchange_tag(),
{
    let r: Vec<u8> = vec![118u8, 111, 117, 99, 104, 101, 114, 95, 101, 120, 99, 104, 97, 110, 103, 101];
    assert(r@ =~= exchange_tag());
    r
}

pub fn listing_seed() -> (r: Vec<u8>)
    ensures
        r@ == listing_tag(),
{
    let r: Vec<u8> = vec![118u8, 111, 117, 99, 104, 101, 114, 95, 108, 105, 115, 116, 105, 110, 103];
    assert(r@ =~= listing_tag());
    r
}

pub fn escrow_seed() -> (r: Vec<u8>)
    ensures
        r@ == escrow_tag(),
{
    let r: Vec<u8> = vec![101u8, 115, 99, 114, 111, 119];
    assert(r@ =~= escrow_tag());
    r
}

} // verus!
