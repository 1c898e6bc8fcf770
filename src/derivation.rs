//! Program-derived addresses: how custody accounts and records are addressed,
//! and the capability that authorises moving funds out of a custody account.
use vstd::prelude::*;
use anchor_lang::prelude::Pubkey;
use crate::address::Address;
use crate::constants::{escrow_seed, escrow_tag, exchange_seed, exchange_tag, listing_seed, listing_tag};

verus! {

/// The address that the seeds and the program id hash to, or `None` where
/// the seeds are refused or the hash lies on the ed25519 curve.
pub uninterp spec fn program_address(seeds: Seq<Seq<u8>>, program_id: Seq<u8>) -> Option<Seq<u8>>;

/// The first address, trying nonces from 255 downwards, that the seeds
/// followed by a one-byte nonce hash to, together with that nonce.
pub uninterp spec fn canonical_program_address(seeds: Seq<Seq<u8>>, program_id: Seq<u8>) -> Option<(Seq<u8>, u8)>;

pub open spec fn address_view(a: Option<Address>) -> Option<Seq<u8>> {
    match a {
        Some(a) => Some(a@),
        None => None,
    }
}

pub open spec fn found_view(f: Option<(Address, u8)>) -> Option<(Seq<u8>, u8)> {
    match f {
        Some((a, bump)) => Some((a@, bump)),
        None => None,
    }
}

/// Whether a derivation found the address `key`.
pub open spec fn derived_at(found: Option<(Seq<u8>, u8)>, key: Seq<u8>) -> bool {
    found matches Some((a, _)) && a == key
}

/// Whether a derivation found the address `key`.
pub fn found_at(found: &Option<(Address, u8)>, key: &Address) -> (r: bool)
    ensures
        r == derived_at(found_view(*found), key@),
{
    match found {
        Some((a, _)) => a.same_as(key),
        None => false,
    }
}

/// The seeds followed by the one-byte nonce.
pub open spec fn with_bump(seeds: Seq<Seq<u8>>, bump: u8) -> Seq<Seq<u8>> {
    seeds.push(seq![bump])
}

/// Seeds of the exchange's own address.
pub open spec fn exchange_seeds() -> Seq<Seq<u8>> {
    seq![exchange_tag()]
}

/// Seeds of the listing of `mint` by `owner`; that address is also the
/// authority of the custody account that holds the listed asset.
pub open spec fn listing_seeds(owner: Seq<u8>, mint: Seq<u8>) -> Seq<Seq<u8>> {
    seq![listing_tag(), owner, mint]
}

/// Seeds of the custody account that holds a listed asset.
pub open spec fn asset_custody_seeds(mint: Seq<u8>) -> Seq<Seq<u8>> {
    seq![escrow_tag(), mint]
}

/// Seeds of the custody account that holds the funds of `bidder`'s bid on
/// `mint`; that account is its own authority.
pub open spec fn bid_custody_seeds(bidder: Seq<u8>, mint: Seq<u8>) -> Seq<Seq<u8>> {
    seq![escrow_tag(), bidder, mint]
}

/// Relies on `Pubkey::create_program_address`: the address that the seeds
/// and the program id hash to, or an error.
#[verifier::external_body]
fn create_program_address(seeds: &Vec<Vec<u8>>, program_id: &Address) -> (r: Option<Address>)
    ensures
        address_view(r) == program_address(seeds.deep_view(), program_id@),
{
    let seeds: Vec<&[u8]> = seeds.iter().map(|s| s.as_slice()).collect();
    let program_id = Pubkey::new_from_array(program_id.bytes);
    Pubkey::create_program_address(&seeds, &program_id).ok().map(|k| Address { bytes: k.to_bytes() })
}

/// Relies on `Pubkey::try_find_program_address`: it tries the nonces from
/// 255 downwards and returns the first address that
/// `Pubkey::create_program_address` gives for the seeds followed by that
/// nonce, with the nonce.
#[verifier::external_body]
fn try_find_program_address(seeds: &Vec<Vec<u8>>, program_id: &Address) -> (r: Option<(Address, u8)>)
    ensures
        found_view(r) == canonical_program_address(seeds.deep_view(), program_id@),
        r matches Some((a, bump)) ==> program_address(with_bump(seeds.deep_view(), bump), program_id@) == Some(a@),
{
    let seeds: Vec<&[u8]> = seeds.iter().map(|s| s.as_slice()).collect();
    let program_id = Pubkey::new_from_array(program_id.bytes);
    Pubkey::try_find_program_address(&seeds, &program_id).map(|(k, bump)| (Address { bytes: k.to_bytes() }, bump))
}

proof fn lemma_seed_view(s: Vec<u8>)
    ensures
        s.deep_view() == s@,
{
    assert(s.deep_view() =~= s@);
}

pub fn exchange_seed_list() -> (r: Vec<Vec<u8>>)
    ensures
        r.deep_view() == exchange_seeds(),
{
    let mut r: Vec<Vec<u8>> = Vec::new();
    r.push(exchange_seed());
    proof {
        lemma_seed_view(r@[0]);
    }
    assert(r.deep_view() =~= exchange_seeds());
    r
}

pub fn listing_seed_list(owner: &Address, mint: &Address) -> (r: Vec<Vec<u8>>)
    ensures
        r.deep_view() == listing_seeds(owner@, mint@),
{
    let mut r: Vec<Vec<u8>> = Vec::new();
    r.push(listing_seed());
    r.push(owner.to_seed());
    r.push(mint.to_seed());
    proof {
        lemma_seed_view(r@[0]);
        lemma_seed_view(r@[1]);
        lemma_seed_view(r@[2]);
    }
    assert(r.deep_view() =~= listing_seeds(owner@, mint@));
    r
}

pub fn asset_custody_seed_list(mint: &Address) -> (r: Vec<Vec<u8>>)
    ensures
        r.deep_view() == asset_custody_seeds(mint@),
{
    let mut r: Vec<Vec<u8>> = Vec::new();
    r.push(escrow_seed());
    r.push(mint.to_seed());
    proof {
        lemma_seed_view(r@[0]);
        lemma_seed_view(r@[1]);
    }
    assert(r.deep_view() =~= asset_custody_seeds(mint@));
    r
}

pub fn bid_custody_seed_list(bidder: &Address, mint: &Address) -> (r: Vec<Vec<u8>>)
    ensures
        r.deep_view() == bid_custody_seeds(bidder@, mint@),
{
    let mut r: Vec<Vec<u8>> = Vec::new();
    r.push(escrow_seed());
    r.push(bidder.to_seed());
    r.push(mint.to_seed());
    proof {
        lemma_seed_view(r@[0]);
        lemma_seed_view(r@[1]);
        lemma_seed_view(r@[2]);
    }
    assert(r.deep_view() =~= bid_custody_seeds(bidder@, mint@));
    r
}

/// Finds the canonical address and nonce for the seeds.
pub fn find_address(seeds: &Vec<Vec<u8>>, program_id: &Address) -> (r: Option<(Address, u8)>)
    ensures
        found_view(r) == canonical_program_address(seeds.deep_view(), program_id@),
        r matches Some((a, bump)) ==> program_address(with_bump(seeds.deep_view(), bump), program_id@) == Some(a@),
{
    try_find_program_address(seeds, program_id)
}

/// The right to move funds out of the custody accounts whose authority is
/// `signer`: held only with seeds and a nonce that derive `signer` under the
/// program id.
pub struct CustodyAuthority {
    program_id: Address,
    signer_seeds: Vec<Vec<u8>>,
    signer: Address,
}

/// The signer that a derivation yielded, if any.
pub open spec fn authority_signer(a: Option<CustodyAuthority>) -> Option<Seq<u8>> {
    match a {
        Some(a) => Some(a.signer_view()),
        None => None,
    }
}

impl CustodyAuthority {
    #[verifier::type_invariant]
    spec fn derived(self) -> bool {
        program_address(self.signer_seeds.deep_view(), self.program_id@) == Some(self.signer@)
    }

    /// The address this authority signs for.
    pub closed spec fn signer_view(self) -> Seq<u8> {
        self.signer@
    }

    /// The seeds, nonce included, that derive the signer.
    pub closed spec fn seeds_view(self) -> Seq<Seq<u8>> {
        self.signer_seeds.deep_view()
    }

    pub closed spec fn program_view(self) -> Seq<u8> {
        self.program_id@
    }

    /// Re-derives the signer from the seeds and the nonce; `None` where they
    /// derive no address.
    pub fn derive(program_id: &Address, seeds: Vec<Vec<u8>>, bump: u8) -> (r: Option<CustodyAuthority>)
        ensures
            authority_signer(r) == program_address(with_bump(seeds.deep_view(), bump), program_id@),
            r matches Some(a) ==> a.seeds_view() == with_bump(seeds.deep_view(), bump)
                && a.program_view() == program_id@,
    {
        let ghost base = seeds.deep_view();
        let mut signer_seeds = seeds;
        let nonce: Vec<u8> = vec![bump];
        proof {
            lemma_seed_view(nonce);
            assert(nonce@ =~= seq![bump]);
        }
        signer_seeds.push(nonce);
        assert(signer_seeds.deep_view() =~= with_bump(base, bump));
        match create_program_address(&signer_seeds, program_id) {
            Some(signer) => Some(CustodyAuthority { program_id: *program_id, signer_seeds, signer }),
            None => None,
        }
    }

    /// The address this authority signs for, which its seeds derive.
    pub fn signer(&self) -> (r: Address)
        ensures
            r@ == self.signer_view(),
            program_address(self.seeds_view(), self.program_view()) == Some(r@),
    {
        proof {
            use_type_invariant(self);
        }
        self.signer
    }
}

} // verus!
