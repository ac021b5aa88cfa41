//! The listing record: the one entity the marketplace persists.

use crate::address::Address;
use crate::error::ErrorCode;
use vstd::bytes::{
    lemma_auto_spec_u64_to_from_le_bytes, spec_u64_from_le_bytes, spec_u64_to_le_bytes,
    u64_from_le_bytes, u64_to_le_bytes,
};
use vstd::prelude::*;
use vstd::slice::slice_subrange;

verus! {

/// The type tag that opens every persisted listing record.
pub const LISTING_TAG: [u8; 8] = [218, 32, 50, 73, 43, 134, 26, 58];

/// An offer of `amount` smallest units of `sell_mint`, at `price_per_token`
/// units of `buy_mint` for each whole unit.
///
/// Only `amount` ever changes, and only downwards: it starts at the quantity
/// the custody was funded with and every fill takes from it.
#[derive(Clone, Copy, Debug, PartialEq, Eq)]
pub struct Listing {
    /// Who opened the listing and receives the payments.
    pub seller: Address,
    /// The asset on sale.
    pub sell_mint: Address,
    /// The asset that payment is made in.
    pub buy_mint: Address,
    /// Price of one whole unit of `sell_mint`, in smallest units of `buy_mint`.
    pub price_per_token: u64,
    /// What is left to sell, in smallest units of `sell_mint`.
    pub amount: u64,
    /// Tells the listings of one seller apart.
    pub listing_id: u64,
    /// The salt with which the listing's address was derived.
    pub bump: u8,
}

/// Where a listing stands in its life.
#[derive(Clone, Copy, Debug, PartialEq, Eq, Structural)]
pub enum ListingState {
    /// The record exists and has something left to sell.
    Active,
    /// The record exists and is sold out.
    Depleted,
    /// The record is gone.
    Closed,
}

/// The state of a record slot.
pub open spec fn spec_state_of(record: Option<Listing>) -> ListingState {
    match record {
        None => ListingState::Closed,
        Some(listing) => if listing.amount > 0 {
            ListingState::Active
        } else {
            ListingState::Depleted
        },
    }
}

/// The state of a record slot.
pub fn state_of(record: &Option<Listing>) -> (r: ListingState)
    ensures
        r == spec_state_of(*record),
{
    match record {
        None => ListingState::Closed,
        Some(listing) => if listing.amount > 0 {
            ListingState::Active
        } else {
            ListingState::Depleted
        },
    }
}

impl Listing {
    /// Length of the fields of a persisted record, without the tag.
    pub const BODY_SIZE: usize = 121;

    /// Length of a persisted record: the tag and the fields.
    pub const SIZE: usize = 129;

    /// What every record holds: a price above zero.
    pub open spec fn wf(self) -> bool {
        self.price_per_token > 0
    }

    /// The same listing with `amount` left.
    pub open spec fn with_amount(self, amount: int) -> Listing {
        Listing {
            seller: self.seller,
            sell_mint: self.sell_mint,
            buy_mint: self.buy_mint,
            price_per_token: self.price_per_token,
            amount: amount as u64,
            listing_id: self.listing_id,
            bump: self.bump,
        }
    }

    /// Whether two records are the same listing: they agree in everything
    /// but what is left.
    pub open spec fn same_offer(self, other: Listing) -> bool {
        other == self.with_amount(other.amount as int)
    }

    /// The persisted form: tag, seller, asset on sale, payment asset, then
    /// price, remaining amount and listing id in little-endian order, and the
    /// bump.
    pub open spec fn spec_encode(self) -> Seq<u8> {
        LISTING_TAG@ + self.seller@ + self.sell_mint@ + self.buy_mint@ + spec_u64_to_le_bytes(
            self.price_per_token,
        ) + spec_u64_to_le_bytes(self.amount) + spec_u64_to_le_bytes(self.listing_id)
            + seq![self.bump]
    }

    /// Opens a record for `amount` units at `price_per_token`. A zero amount
    /// and a zero price are refused, the amount first.
    pub fn open(
        seller: Address,
        sell_mint: Address,
        buy_mint: Address,
        price_per_token: u64,
        amount: u64,
        listing_id: u64,
        bump: u8,
    ) -> (r: Result<Listing, ErrorCode>)
        ensures
            match r {
                Ok(listing) => {
                    &&& amount > 0
                    &&& price_per_token > 0
                    &&& listing == (Listing {
                        seller,
                        sell_mint,
                        buy_mint,
                        price_per_token,
                        amount,
                        listing_id,
                        bump,
                    })
                    &&& listing.wf()
                },
                Err(e) => {
                    &&& amount == 0 || price_per_token == 0
                    &&& e == (if amount == 0 {
                        ErrorCode::InvalidAmount
                    } else {
                        ErrorCode::InvalidPrice
                    })
                },
            },
    {
        if amount == 0 {
            return Err(ErrorCode::InvalidAmount);
        }
        if price_per_token == 0 {
            return Err(ErrorCode::InvalidPrice);
        }
        Ok(Listing { seller, sell_mint, buy_mint, price_per_token, amount, listing_id, bump })
    }

    /// Takes `buy_amount` from what is left. Taking more than is left is an
    /// arithmetic error and takes nothing: the amount is never clamped.
    pub fn decrement(&mut self, buy_amount: u64) -> (r: Result<(), ErrorCode>)
        ensures
            match r {
                Ok(()) => {
                    &&& buy_amount <= old(self).amount
                    &&& *final(self) == old(self).with_amount(old(self).amount - buy_amount)
                },
                Err(e) => {
                    &&& buy_amount > old(self).amount
                    &&& e == ErrorCode::Overflow
                    &&& *final(self) == *old(self)
                },
            },
    {
        match self.amount.checked_sub(buy_amount) {
            Some(left) => {
                self.amount = left;
                Ok(())
            },
            None => Err(ErrorCode::Overflow),
        }
    }

    /// Whether anything is left to sell.
    pub fn is_active(&self) -> (r: bool)
        ensures
            r == (self.amount > 0),
            r == (spec_state_of(Some(*self)) == ListingState::Active),
    {
        self.amount > 0
    }

    /// The persisted form of the record.
    pub fn encode(&self) -> (bytes: Vec<u8>)
        ensures
            bytes@ == self.spec_encode(),
            bytes@.len() == Listing::SIZE,
    {
        proof {
            lemma_auto_spec_u64_to_from_le_bytes();
        }
        let mut bytes: Vec<u8> = Vec::new();
        append_bytes(&mut bytes, LISTING_TAG.as_slice());
        append_bytes(&mut bytes, self.seller.bytes.as_slice());
        append_bytes(&mut bytes, self.sell_mint.bytes.as_slice());
        append_bytes(&mut bytes, self.buy_mint.bytes.as_slice());
        let price = u64_to_le_bytes(self.price_per_token);
        append_bytes(&mut bytes, price.as_slice());
        let amount = u64_to_le_bytes(self.amount);
        append_bytes(&mut bytes, amount.as_slice());
        let listing_id = u64_to_le_bytes(self.listing_id);
        append_bytes(&mut bytes, listing_id.as_slice());
        bytes.push(self.bump);
        assert(bytes@ =~= self.spec_encode());
        bytes
    }

    /// Reads a record back from its persisted form. The answer is `Some`
    /// exactly for the persisted form of a record with a price above zero,
    /// and is then that record.
    pub fn decode(bytes: &[u8]) -> (r: Option<Listing>)
        ensures
            r matches Some(listing) ==> listing.wf() && listing.spec_encode() == bytes@,
            forall|listing: Listing|
                listing.wf() && #[trigger] listing.spec_encode() == bytes@ ==> r == Some(listing),
    {
        proof {
            lemma_auto_spec_u64_to_from_le_bytes();
            assert forall|listing: Listing| #[trigger] listing.spec_encode() == bytes@ implies {
                &&& bytes@.len() == Listing::SIZE
                &&& bytes@.subrange(0, 8) == LISTING_TAG@
                &&& bytes@.subrange(8, 40) == listing.seller@
                &&& bytes@.subrange(40, 72) == listing.sell_mint@
                &&& bytes@.subrange(72, 104) == listing.buy_mint@
                &&& bytes@.subrange(104, 112) == spec_u64_to_le_bytes(listing.price_per_token)
                &&& bytes@.subrange(112, 120) == spec_u64_to_le_bytes(listing.amount)
                &&& bytes@.subrange(120, 128) == spec_u64_to_le_bytes(listing.listing_id)
                &&& bytes@[128] == listing.bump
            } by {
                lemma_encoding_parts(listing);
            }
        }
        if bytes.len() != Listing::SIZE {
            return None;
        }
        if !same_bytes(slice_subrange(bytes, 0, 8), LISTING_TAG.as_slice()) {
            return None;
        }
        let listing = Listing {
            seller: read_address(bytes, 8),
            sell_mint: read_address(bytes, 40),
            buy_mint: read_address(bytes, 72),
            price_per_token: u64_from_le_bytes(slice_subrange(bytes, 104, 112)),
            amount: u64_from_le_bytes(slice_subrange(bytes, 112, 120)),
            listing_id: u64_from_le_bytes(slice_subrange(bytes, 120, 128)),
            bump: bytes[128],
        };
        if listing.price_per_token == 0 {
            return None;
        }
        proof {
            assert(listing.spec_encode() =~= bytes@);
            assert forall|other: Listing|
                other.wf() && #[trigger] other.spec_encode() == bytes@ implies other == listing by {
                lemma_encoding_is_injective(other, listing);
            }
        }
        Some(listing)
    }
}

/// Where each field sits in the persisted form.
pub proof fn lemma_encoding_parts(listing: Listing)
    ensures
        listing.spec_encode().len() == Listing::SIZE == LISTING_TAG@.len() + Listing::BODY_SIZE,
        listing.spec_encode().subrange(0, 8) == LISTING_TAG@,
        listing.spec_encode().subrange(8, 40) == listing.seller@,
        listing.spec_encode().subrange(40, 72) == listing.sell_mint@,
        listing.spec_encode().subrange(72, 104) == listing.buy_mint@,
        listing.spec_encode().subrange(104, 112) == spec_u64_to_le_bytes(listing.price_per_token),
        listing.spec_encode().subrange(112, 120) == spec_u64_to_le_bytes(listing.amount),
        listing.spec_encode().subrange(120, 128) == spec_u64_to_le_bytes(listing.listing_id),
        listing.spec_encode()[128] == listing.bump,
{
    lemma_auto_spec_u64_to_from_le_bytes();
    let bytes = listing.spec_encode();
    assert(bytes.subrange(0, 8) =~= LISTING_TAG@);
    assert(bytes.subrange(8, 40) =~= listing.seller@);
    assert(bytes.subrange(40, 72) =~= listing.sell_mint@);
    assert(bytes.subrange(72, 104) =~= listing.buy_mint@);
    assert(bytes.subrange(104, 112) =~= spec_u64_to_le_bytes(listing.price_per_token));
    assert(bytes.subrange(112, 120) =~= spec_u64_to_le_bytes(listing.amount));
    assert(bytes.subrange(120, 128) =~= spec_u64_to_le_bytes(listing.listing_id));
}

/// Two records with the same persisted form are the same record.
pub proof fn lemma_encoding_is_injective(a: Listing, b: Listing)
    requires
        a.spec_encode() == b.spec_encode(),
    ensures
        a == b,
{
    lemma_encoding_parts(a);
    lemma_encoding_parts(b);
    lemma_auto_spec_u64_to_from_le_bytes();
    crate::address::address_is_its_bytes(a.seller, b.seller);
    crate::address::address_is_its_bytes(a.sell_mint, b.sell_mint);
    crate::address::address_is_its_bytes(a.buy_mint, b.buy_mint);
    assert(a.price_per_token == spec_u64_from_le_bytes(spec_u64_to_le_bytes(a.price_per_token)));
    assert(b.price_per_token == spec_u64_from_le_bytes(spec_u64_to_le_bytes(b.price_per_token)));
    assert(a.amount == spec_u64_from_le_bytes(spec_u64_to_le_bytes(a.amount)));
    assert(b.amount == spec_u64_from_le_bytes(spec_u64_to_le_bytes(b.amount)));
    assert(a.listing_id == spec_u64_from_le_bytes(spec_u64_to_le_bytes(a.listing_id)));
    assert(b.listing_id == spec_u64_from_le_bytes(spec_u64_to_le_bytes(b.listing_id)));
}

fn append_bytes(out: &mut Vec<u8>, part: &[u8])
    ensures
        final(out)@ == old(out)@ + part@,
{
    let mut i: usize = 0;
    while i < part.len()
        invariant
            i <= part@.len(),
            out@ == old(out)@ + part@.subrange(0, i as int),
        decreases part@.len() - i,
    {
        out.push(part[i]);
        i += 1;
        assert(out@ =~= old(out)@ + part@.subrange(0, i as int));
    }
    assert(part@.subrange(0, i as int) =~= part@);
}

fn same_bytes(a: &[u8], b: &[u8]) -> (r: bool)
    ensures
        r == (a@ == b@),
{
    if a.len() != b.len() {
        return false;
    }
    let mut i: usize = 0;
    while i < a.len()
        invariant
            i <= a@.len(),
            a@.len() == b@.len(),
            forall|j: int| 0 <= j < i ==> a@[j] == b@[j],
        decreases a@.len() - i,
    {
        if a[i] != b[i] {
            return false;
        }
        i += 1;
    }
    assert(a@ =~= b@);
    true
}

fn read_address(bytes: &[u8], at: usize) -> (r: Address)
    requires
        at + 32 <= bytes@.len(),
    ensures
        r@ == bytes@.subrange(at as int, at + 32),
{
    let len: usize = bytes.len();
    let mut out: [u8; 32] = [0u8; 32];
    let mut i: usize = 0;
    while i < 32
        invariant
            i <= 32,
            at + 32 <= bytes@.len() == len,
            forall|j: int| 0 <= j < i ==> out@[j] == bytes@[at + j],
        decreases 32 - i,
    {
        out[i] = bytes[at + i];
        i += 1;
    }
    assert(out@ =~= bytes@.subrange(at as int, at + 32));
    Address { bytes: out }
}

} // verus!
