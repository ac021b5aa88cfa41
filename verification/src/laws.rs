//! What holds of the marketplace over every input and every history.
//!
//! The operations state what a single invocation does. The proofs here put
//! invocations together: what a listing is worth from its creation to its end,
//! which states it passes through, and which requests can never succeed.

use crate::address::{address_is_its_bytes, Address};
use crate::derivation::{derivation_view, derived, rederived};
use crate::error::ErrorCode;
use crate::exchange::{
    balance_refusal, cancel_result, create_result, purchase_result, recorded_authority,
    CancelListing, CreateListing, Purchase,
};
use crate::listing::{spec_state_of, Listing, ListingState};
use crate::pricing::{quotable, quote, quote_is_bounded, unit_scale};
use crate::token::{transferable, TokenAccount};
use vstd::arithmetic::power::{lemma_pow_increases, pow};
use vstd::prelude::*;

verus! {

/// The scale of an asset fits 128 bits exactly up to 38 decimals.
pub proof fn scale_fits_up_to_38_decimals(decimals: u8)
    ensures
        unit_scale(decimals) <= u128::MAX <==> decimals <= 38,
{
    assert(pow(10, 38) == 100_000_000_000_000_000_000_000_000_000_000_000_000int) by {
        reveal_with_fuel(pow, 39);
    }
    assert(pow(10, 39) == 10 * pow(10, 38)) by {
        reveal(pow);
    }
    if decimals <= 38 {
        lemma_pow_increases(10, decimals as nat, 38);
    } else {
        lemma_pow_increases(10, 39, decimals as nat);
    }
}

/// For an asset without decimals the cost is price times quantity.
pub proof fn cost_without_decimals(price_per_token: u64, buy_amount: u64)
    ensures
        quote(price_per_token, buy_amount, 0) == price_per_token * buy_amount,
{
    reveal(pow);
}

/// The derivation is a function of the seller and the listing id: two
/// answers to the same question are the same address and the same bump.
pub proof fn derivation_is_a_function(
    seller: Address,
    listing_id: u64,
    first: Option<(Address, u8)>,
    second: Option<(Address, u8)>,
)
    requires
        derivation_view(first) == derived(seller, listing_id),
        derivation_view(second) == derived(seller, listing_id),
    ensures
        first == second,
{
    if let Some((a, _)) = first {
        if let Some((b, _)) = second {
            address_is_its_bytes(a, b);
        }
    }
}

/// A create with a zero amount or a zero price is refused, whatever the
/// accounts: nothing is opened and nothing is funded. Where the accounts are in
/// order, the reason is the invalid amount, or else the invalid price.
pub proof fn create_refuses_zero_amount_and_zero_price(
    pre: CreateListing,
    post: CreateListing,
    r: Result<(Listing, TokenAccount), ErrorCode>,
    price_per_token: u64,
    amount: u64,
    listing_id: u64,
    derivation: Option<(Seq<u8>, u8)>,
)
    requires
        create_result(pre, post, r, price_per_token, amount, listing_id, derivation),
        amount == 0 || price_per_token == 0,
    ensures
        r is Err,
        post == pre,
        (derivation matches Some((address, _)) && address == pre.listing_key@ && balance_refusal(
            pre.seller_sell_token,
            pre.sell_mint.key,
            pre.seller,
        ) is None) ==> r == Err::<(Listing, TokenAccount), ErrorCode>(
            if amount == 0 {
                ErrorCode::InvalidAmount
            } else {
                ErrorCode::InvalidPrice
            },
        ),
{
}

/// A create that succeeds leaves the custody holding exactly the amount that
/// the record has left, taken from the seller's balance; the listing is
/// active, belongs to the seller, and its custody to the listing address.
pub proof fn create_funds_the_custody_exactly(
    pre: CreateListing,
    post: CreateListing,
    r: Result<(Listing, TokenAccount), ErrorCode>,
    price_per_token: u64,
    amount: u64,
    listing_id: u64,
    derivation: Option<(Seq<u8>, u8)>,
)
    requires
        create_result(pre, post, r, price_per_token, amount, listing_id, derivation),
        r is Ok,
    ensures
        ({
            let (listing, custody) = r.unwrap();
            &&& listing.wf()
            &&& listing.amount == amount
            &&& listing.price_per_token == price_per_token
            &&& listing.seller == pre.seller
            &&& custody.amount == amount
            &&& custody.owner == pre.listing_key
            &&& custody.mint == listing.sell_mint
            &&& spec_state_of(Some(listing)) == ListingState::Active
            &&& post.seller_sell_token.amount == pre.seller_sell_token.amount - amount
        }),
{
}

/// A purchase that succeeds charges the buyer the cost of the fill, rounded
/// down, and pays it to the seller; it takes the fill from the custody and
/// gives it to the buyer; and the record has that much less left. Nothing else
/// changes.
pub proof fn purchase_moves_cost_and_fill(
    pre: Purchase,
    post: Purchase,
    r: Result<u64, ErrorCode>,
    buy_amount: u64,
    authority: Option<Seq<u8>>,
)
    requires
        purchase_result(pre, post, r, buy_amount, authority),
        r is Ok,
    ensures
        ({
            let cost = r.unwrap();
            let before = pre.listing.unwrap();
            let after = post.listing.unwrap();
            &&& 0 < buy_amount <= before.amount
            &&& cost == (before.price_per_token * buy_amount) / unit_scale(pre.sell_mint.decimals)
            &&& before.same_offer(after)
            &&& after.amount == before.amount - buy_amount
            &&& post.escrow_sell_token.unwrap().amount == pre.escrow_sell_token.unwrap().amount
                - buy_amount
            &&& post.buyer_buy_token.amount == pre.buyer_buy_token.amount - cost
            &&& post.seller_buy_token.amount == pre.seller_buy_token.amount + cost
            &&& post.buyer_sell_token.amount == pre.buyer_sell_token.amount + buy_amount
            &&& post.buyer_buy_token.amount + post.seller_buy_token.amount
                == pre.buyer_buy_token.amount + pre.seller_buy_token.amount
            &&& post.escrow_sell_token.unwrap().amount + post.buyer_sell_token.amount
                == pre.escrow_sell_token.unwrap().amount + pre.buyer_sell_token.amount
        }),
{
}

/// A fill of more than the listing has left is refused for want of stock, and
/// the record, the custody and the balances of both parties stay as they were.
pub proof fn purchase_beyond_stock_is_refused(
    pre: Purchase,
    post: Purchase,
    r: Result<u64, ErrorCode>,
    buy_amount: u64,
    authority: Option<Seq<u8>>,
)
    requires
        purchase_result(pre, post, r, buy_amount, authority),
        pre.account_refusal(authority) is None,
        pre.listing.unwrap().amount > 0,
        buy_amount > pre.listing.unwrap().amount,
    ensures
        r == Err::<u64, ErrorCode>(ErrorCode::InsufficientStock),
        post == pre,
{
}

/// A purchase takes an active listing to an active one, or, when it takes all
/// that is left, to a depleted one. It never succeeds on anything else, and it
/// never removes the record.
pub proof fn purchase_keeps_or_depletes(
    pre: Purchase,
    post: Purchase,
    r: Result<u64, ErrorCode>,
    buy_amount: u64,
    authority: Option<Seq<u8>>,
)
    requires
        purchase_result(pre, post, r, buy_amount, authority),
    ensures
        r is Ok ==> spec_state_of(pre.listing) == ListingState::Active,
        r is Ok ==> spec_state_of(post.listing) == if buy_amount < pre.listing.unwrap().amount {
            ListingState::Active
        } else {
            ListingState::Depleted
        },
        r is Err ==> spec_state_of(post.listing) == spec_state_of(pre.listing),
{
}

/// Two purchases in a row whose fills add up to the amount that a custody was
/// funded with leave the custody empty and the listing depleted: the record is
/// still there.
pub proof fn fills_adding_up_to_the_amount_deplete(
    first: Purchase,
    first_amount: u64,
    first_authority: Option<Seq<u8>>,
    second: Purchase,
    second_amount: u64,
    second_authority: Option<Seq<u8>>,
)
    requires
        first.refusal(first_amount, first_authority) is None,
        first.escrow_sell_token.unwrap().amount == first.listing.unwrap().amount,
        second.listing == first.settled(first_amount).listing,
        second.escrow_sell_token == first.settled(first_amount).escrow_sell_token,
        second.refusal(second_amount, second_authority) is None,
        first_amount + second_amount == first.listing.unwrap().amount,
    ensures
        spec_state_of(second.settled(second_amount).listing) == ListingState::Depleted,
        second.settled(second_amount).escrow_sell_token is Some,
        second.settled(second_amount).escrow_sell_token.unwrap().amount == 0,
{
}

/// A cancel signed by anybody but the seller on record is refused for want of
/// authority, and record, custody and balance stay as they were.
pub proof fn cancel_by_another_identity_is_refused(
    pre: CancelListing,
    post: CancelListing,
    r: Result<u64, ErrorCode>,
    authority: Option<Seq<u8>>,
)
    requires
        cancel_result(pre, post, r, authority),
        pre.listing is Some,
        pre.escrow_sell_token is Some,
        pre.seller != pre.listing.unwrap().seller,
    ensures
        r == Err::<u64, ErrorCode>(ErrorCode::Unauthorized) || r == Err::<u64, ErrorCode>(
            ErrorCode::InvalidSeller,
        ),
        authority == Some(pre.listing_key@) ==> r == Err::<u64, ErrorCode>(
            ErrorCode::InvalidSeller,
        ),
        post == pre,
{
}

/// A cancel that succeeds refunds exactly what the listing had left, removes
/// custody and record, and was signed by the seller on record. This holds of a
/// sold-out listing as of an active one.
pub proof fn cancel_refunds_what_is_left(
    pre: CancelListing,
    post: CancelListing,
    r: Result<u64, ErrorCode>,
    authority: Option<Seq<u8>>,
)
    requires
        cancel_result(pre, post, r, authority),
        r is Ok,
    ensures
        r.unwrap() == pre.listing.unwrap().amount,
        r.unwrap() == pre.escrow_sell_token.unwrap().amount,
        post.seller_sell_token.amount == pre.seller_sell_token.amount + r.unwrap(),
        post.escrow_sell_token is None,
        post.listing is None,
        spec_state_of(post.listing) == ListingState::Closed,
        pre.seller == pre.listing.unwrap().seller,
{
}

/// After a cancel has succeeded, a second cancel on the accounts it left is
/// refused because the record is gone.
pub proof fn cancel_cannot_be_repeated(
    pre: CancelListing,
    authority: Option<Seq<u8>>,
    again: Option<Seq<u8>>,
)
    requires
        pre.refusal(authority) is None,
    ensures
        pre.closed().refusal(again) == Some(ErrorCode::ListingNotActive),
{
}

/// A record that `create_listing_with` opened at the address that the
/// derivation gave signs for that address, wherever the derivation and the
/// signing agree as the ledger makes them.
pub proof fn opened_record_signs_for_its_address(
    pre: CreateListing,
    price_per_token: u64,
    amount: u64,
    listing_id: u64,
    derivation: Option<(Seq<u8>, u8)>,
)
    requires
        pre.refusal(price_per_token, amount, derivation) is None,
        derivation matches Some((address, bump)) && rederived(pre.seller, listing_id, bump)
            == Some(address),
    ensures
        recorded_authority(
            Some(pre.opened(price_per_token, amount, listing_id, derivation.unwrap().1)),
        ) == Some(pre.listing_key@),
{
}

/// A purchase on the record and custody that a create returned goes through
/// whenever the accounts are those of the create, the balances are the
/// parties' holdings of the right assets, the fill is above zero and within
/// the amount, its cost can be computed, the buyer can pay it, and neither
/// receiving balance overflows.
pub proof fn purchase_on_an_opened_listing_goes_through(
    create: CreateListing,
    price_per_token: u64,
    amount: u64,
    listing_id: u64,
    derivation: Option<(Seq<u8>, u8)>,
    ctx: Purchase,
    buy_amount: u64,
)
    requires
        create.refusal(price_per_token, amount, derivation) is None,
        derivation matches Some((address, bump)) && rederived(create.seller, listing_id, bump)
            == Some(address),
        ctx.listing == Some(
            create.opened(price_per_token, amount, listing_id, derivation.unwrap().1),
        ),
        ctx.escrow_sell_token == Some(create.custody(amount)),
        ctx.listing_key == create.listing_key,
        ctx.seller == create.seller,
        ctx.sell_mint == create.sell_mint,
        ctx.buy_mint == create.buy_mint,
        balance_refusal(ctx.buyer_buy_token, ctx.buy_mint.key, ctx.buyer) is None,
        balance_refusal(ctx.seller_buy_token, ctx.buy_mint.key, ctx.seller) is None,
        balance_refusal(ctx.buyer_sell_token, ctx.sell_mint.key, ctx.buyer) is None,
        0 < buy_amount <= amount,
        quotable(price_per_token, buy_amount, ctx.sell_mint.decimals),
        ctx.buyer_buy_token.amount >= ctx.cost(buy_amount),
        ctx.seller_buy_token.amount + ctx.cost(buy_amount) <= u64::MAX,
        ctx.buyer_sell_token.amount + buy_amount <= u64::MAX,
    ensures
        ctx.refusal(buy_amount, recorded_authority(ctx.listing)) is None,
{
    quote_is_bounded(price_per_token, buy_amount, ctx.sell_mint.decimals);
    assert(transferable(ctx.buyer_buy_token, ctx.seller_buy_token, ctx.cost(buy_amount) as u64));
    assert(transferable(ctx.escrow_sell_token.unwrap(), ctx.buyer_sell_token, buy_amount));
}

/// A cancel by the seller on the record and custody that a create returned
/// goes through whenever the accounts are those of the create and the refund
/// does not overflow the seller's balance.
pub proof fn cancel_on_an_opened_listing_goes_through(
    create: CreateListing,
    price_per_token: u64,
    amount: u64,
    listing_id: u64,
    derivation: Option<(Seq<u8>, u8)>,
    ctx: CancelListing,
)
    requires
        create.refusal(price_per_token, amount, derivation) is None,
        derivation matches Some((address, bump)) && rederived(create.seller, listing_id, bump)
            == Some(address),
        ctx.listing == Some(
            create.opened(price_per_token, amount, listing_id, derivation.unwrap().1),
        ),
        ctx.escrow_sell_token == Some(create.custody(amount)),
        ctx.listing_key == create.listing_key,
        ctx.seller == create.seller,
        ctx.sell_mint == create.sell_mint,
        balance_refusal(ctx.seller_sell_token, ctx.sell_mint.key, ctx.seller) is None,
        ctx.seller_sell_token.amount + amount <= u64::MAX,
    ensures
        ctx.refusal(recorded_authority(ctx.listing)) is None,
{
}

/// What persists of a listing between invocations: its record and its
/// custody.
pub struct Escrow {
    pub listing: Option<Listing>,
    pub custody: Option<TokenAccount>,
}

/// One invocation in the life of a listing, with the accounts it was handed
/// and the address that the record was found to sign for.
pub enum Step {
    /// A purchase of `buy_amount`.
    Fill { purchase: Purchase, buy_amount: u64, signs_for: Option<Seq<u8>> },
    /// A cancel.
    Cancel { cancel: CancelListing, signer: Option<Seq<u8>> },
}

impl Escrow {
    /// What the listing has left; nothing once the record is gone.
    pub open spec fn remaining(self) -> int {
        match self.listing {
            Some(listing) => listing.amount as int,
            None => 0,
        }
    }

    /// Record and custody stand or fall together, and the custody holds
    /// exactly what the record has left.
    pub open spec fn balanced(self) -> bool {
        match (self.listing, self.custody) {
            (Some(listing), Some(custody)) => custody.amount == listing.amount,
            (None, None) => true,
            _ => false,
        }
    }
}

impl Step {
    /// Record and custody as the invocation found them.
    pub open spec fn before(self) -> Escrow {
        match self {
            Step::Fill { purchase, .. } => Escrow {
                listing: purchase.listing,
                custody: purchase.escrow_sell_token,
            },
            Step::Cancel { cancel, .. } => Escrow {
                listing: cancel.listing,
                custody: cancel.escrow_sell_token,
            },
        }
    }

    /// Whether the invocation went through. For `purchase` and
    /// `cancel_listing` the address signed for is `recorded_authority` of the
    /// record.
    pub open spec fn succeeds(self) -> bool {
        match self {
            Step::Fill { purchase, buy_amount, signs_for } => purchase.refusal(
                buy_amount,
                signs_for,
            ) is None,
            Step::Cancel { cancel, signer } => cancel.refusal(signer) is None,
        }
    }

    /// Record and custody as the invocation left them: changed if it went
    /// through, as before if it was refused.
    pub open spec fn after(self) -> Escrow {
        if !self.succeeds() {
            self.before()
        } else {
            match self {
                Step::Fill { purchase, buy_amount, .. } => Escrow {
                    listing: purchase.settled(buy_amount).listing,
                    custody: purchase.settled(buy_amount).escrow_sell_token,
                },
                Step::Cancel { cancel, .. } => Escrow {
                    listing: cancel.closed().listing,
                    custody: cancel.closed().escrow_sell_token,
                },
            }
        }
    }

    /// What the invocation sold: the fill of a purchase that went through.
    pub open spec fn sold(self) -> int {
        match self {
            Step::Fill { buy_amount, .. } => if self.succeeds() {
                buy_amount as int
            } else {
                0
            },
            Step::Cancel { .. } => 0,
        }
    }

    /// What the invocation refunded: what was left at a cancel that went
    /// through.
    pub open spec fn refunded(self) -> int {
        match self {
            Step::Fill { .. } => 0,
            Step::Cancel { cancel, .. } => if self.succeeds() {
                cancel.listing.unwrap().amount as int
            } else {
                0
            },
        }
    }
}

/// Whether `steps` is a history of the listing that starts at `start`: every
/// invocation finds record and custody as the one before left them.
pub open spec fn is_history(start: Escrow, steps: Seq<Step>) -> bool
    decreases steps.len(),
{
    steps.len() > 0 ==> steps[0].before() == start && is_history(
        steps[0].after(),
        steps.drop_first(),
    )
}

/// Record and custody at the end of a history.
pub open spec fn end_of(start: Escrow, steps: Seq<Step>) -> Escrow
    decreases steps.len(),
{
    if steps.len() == 0 {
        start
    } else {
        end_of(steps[0].after(), steps.drop_first())
    }
}

/// The sum of all fills that went through.
pub open spec fn total_sold(steps: Seq<Step>) -> int
    decreases steps.len(),
{
    if steps.len() == 0 {
        0
    } else {
        steps[0].sold() + total_sold(steps.drop_first())
    }
}

/// The sum of all refunds: what the one cancel that went through gave back,
/// and nothing if none did.
pub open spec fn total_refunded(steps: Seq<Step>) -> int
    decreases steps.len(),
{
    if steps.len() == 0 {
        0
    } else {
        steps[0].refunded() + total_refunded(steps.drop_first())
    }
}

/// One invocation keeps record and custody in step and loses nothing: what
/// it sold, what it refunded and what it left add up to what it found.
pub proof fn step_conserves(step: Step)
    requires
        step.before().balanced(),
    ensures
        step.after().balanced(),
        step.sold() >= 0,
        step.refunded() >= 0,
        step.sold() + step.refunded() + step.after().remaining() == step.before().remaining(),
{
}

/// Conservation. Over every history of a listing, the fills sold, the amount
/// refunded and the amount left add up to the amount it started with; the
/// custody holds exactly what the record has left for as long as both exist;
/// and what is left never grows.
pub proof fn conservation(start: Escrow, steps: Seq<Step>)
    requires
        start.balanced(),
        is_history(start, steps),
    ensures
        end_of(start, steps).balanced(),
        total_sold(steps) >= 0,
        total_refunded(steps) >= 0,
        total_sold(steps) + total_refunded(steps) + end_of(start, steps).remaining()
            == start.remaining(),
        end_of(start, steps).remaining() <= start.remaining(),
    decreases steps.len(),
{
    if steps.len() > 0 {
        step_conserves(steps[0]);
        conservation(steps[0].after(), steps.drop_first());
    }
}

/// Over every history of a listing that a create funded with `amount` and
/// that ends sold out or cancelled, the fills sold and the amount refunded add
/// up to `amount`. Where no cancel went through, nothing was refunded.
pub proof fn sold_and_refunded_add_up_to_the_funded_amount(
    pre: CreateListing,
    post: CreateListing,
    r: Result<(Listing, TokenAccount), ErrorCode>,
    price_per_token: u64,
    amount: u64,
    listing_id: u64,
    derivation: Option<(Seq<u8>, u8)>,
    steps: Seq<Step>,
)
    requires
        create_result(pre, post, r, price_per_token, amount, listing_id, derivation),
        r is Ok,
        is_history(Escrow { listing: Some(r.unwrap().0), custody: Some(r.unwrap().1) }, steps),
        end_of(
            Escrow { listing: Some(r.unwrap().0), custody: Some(r.unwrap().1) },
            steps,
        ).remaining() == 0,
    ensures
        total_sold(steps) + total_refunded(steps) == amount,
{
    conservation(Escrow { listing: Some(r.unwrap().0), custody: Some(r.unwrap().1) }, steps);
}

/// Nothing leads out of the closed state: once the record is gone, every
/// further invocation is refused and sells and refunds nothing.
pub proof fn closed_is_final(start: Escrow, steps: Seq<Step>)
    requires
        start.listing is None,
        is_history(start, steps),
    ensures
        end_of(start, steps) == start,
        total_sold(steps) == 0,
        total_refunded(steps) == 0,
    decreases steps.len(),
{
    if steps.len() > 0 {
        closed_is_final(steps[0].after(), steps.drop_first());
    }
}

} // verus!
