//! The three operations of the marketplace: create, purchase and cancel.
//!
//! Each operation is handed the accounts it works on, as they stand, and
//! either carries out all of its effects on them or refuses and leaves them as
//! they were. The checks run in a fixed order, so that the reason given for a
//! refusal is always that of the first check that failed.
//!
//! Each operation exists twice. `create_listing`, `purchase` and
//! `cancel_listing` derive the listing address themselves. The functions whose
//! names end in `_with` take the derived address as an argument and do
//! everything else.

use crate::address::{address_is_its_bytes, Address};
use crate::derivation::{
    address_view, derivation_view, derived, find_listing_address, listing_signer_address,
    rederived,
};
use crate::error::ErrorCode;
use crate::listing::Listing;
use crate::pricing::{quotable, quote, total_cost};
use crate::token::{close_account, transfer, transferable, Mint, TokenAccount};
use vstd::prelude::*;

verus! {

/// The accounts of a create: the seller, who signs; the address at which the
/// record is to live; the two assets; and the seller's balance of the asset on
/// sale, from which the custody is funded.
#[derive(Clone, Copy, Debug, PartialEq, Eq)]
pub struct CreateListing {
    pub seller: Address,
    pub listing_key: Address,
    pub sell_mint: Mint,
    pub buy_mint: Mint,
    pub seller_sell_token: TokenAccount,
}

/// The accounts of a purchase: the buyer, who signs; the record and the
/// address it lives at; the seller; the two assets; the payment balances of
/// buyer and seller; the custody; and the balance in which the buyer receives.
///
/// A record or a custody that does not exist is `None`. The four balances are
/// four accounts: none of them is handed in twice.
#[derive(Clone, Copy, Debug, PartialEq, Eq)]
pub struct Purchase {
    pub buyer: Address,
    pub listing_key: Address,
    pub listing: Option<Listing>,
    pub seller: Address,
    pub sell_mint: Mint,
    pub buy_mint: Mint,
    pub buyer_buy_token: TokenAccount,
    pub seller_buy_token: TokenAccount,
    pub escrow_sell_token: Option<TokenAccount>,
    pub buyer_sell_token: TokenAccount,
}

/// The accounts of a cancel: the seller, who signs; the record and the address
/// it lives at; the asset on sale; the balance that the refund goes to; and
/// the custody.
///
/// A record or a custody that does not exist is `None`. The two balances are
/// two accounts.
#[derive(Clone, Copy, Debug, PartialEq, Eq)]
pub struct CancelListing {
    pub seller: Address,
    pub listing_key: Address,
    pub listing: Option<Listing>,
    pub sell_mint: Mint,
    pub seller_sell_token: TokenAccount,
    pub escrow_sell_token: Option<TokenAccount>,
}

/// Why a balance cannot stand for `owner`'s holding of asset `mint`: it is of
/// another asset, or else it belongs to somebody else.
pub open spec fn balance_refusal(balance: TokenAccount, mint: Address, owner: Address) -> Option<
    ErrorCode,
> {
    if balance.mint != mint {
        Some(ErrorCode::InvalidMint)
    } else if balance.owner != owner {
        Some(ErrorCode::InvalidOwner)
    } else {
        None
    }
}

/// Checks that a balance is `owner`'s holding of asset `mint`.
pub fn check_balance(balance: &TokenAccount, mint: &Address, owner: &Address) -> (r: Result<
    (),
    ErrorCode,
>)
    ensures
        match r {
            Ok(()) => balance_refusal(*balance, *mint, *owner) is None,
            Err(e) => balance_refusal(*balance, *mint, *owner) == Some(e),
        },
{
    if balance.mint != *mint {
        return Err(ErrorCode::InvalidMint);
    }
    if balance.owner != *owner {
        return Err(ErrorCode::InvalidOwner);
    }
    Ok(())
}

/// The address that a record signs for: the one computed again from its
/// seller, its listing id and its bump. An absent record signs for none.
pub open spec fn recorded_authority(record: Option<Listing>) -> Option<Seq<u8>> {
    match record {
        Some(listing) => rederived(listing.seller, listing.listing_id, listing.bump),
        None => None,
    }
}

/// Computes again the address that a record signs for.
pub fn listing_authority(record: &Option<Listing>) -> (r: Option<Address>)
    ensures
        address_view(r) == recorded_authority(*record),
{
    match record {
        Some(listing) => listing_signer_address(&listing.seller, listing.listing_id, listing.bump),
        None => None,
    }
}

fn is_address(candidate: &Option<Address>, expected: &Address) -> (r: bool)
    ensures
        r == (address_view(*candidate) == Some(expected@)),
{
    match candidate {
        Some(address) => {
            proof {
                address_is_its_bytes(*address, *expected);
            }
            *address == *expected
        },
        None => false,
    }
}

impl CreateListing {
    /// Why the create is refused, if it is. `derivation` is the address and
    /// bump derived from the seller and the listing id.
    ///
    /// In order: the record's address must be the derived one; the funding
    /// balance must be the seller's holding of the asset on sale; amount and
    /// price must be above zero; and the funding balance must hold the amount.
    pub open spec fn refusal(
        self,
        price_per_token: u64,
        amount: u64,
        derivation: Option<(Seq<u8>, u8)>,
    ) -> Option<ErrorCode> {
        if !(derivation matches Some((address, _)) && address == self.listing_key@) {
            Some(ErrorCode::Unauthorized)
        } else if balance_refusal(self.seller_sell_token, self.sell_mint.key, self.seller)
            is Some {
            balance_refusal(self.seller_sell_token, self.sell_mint.key, self.seller)
        } else if amount == 0 {
            Some(ErrorCode::InvalidAmount)
        } else if price_per_token == 0 {
            Some(ErrorCode::InvalidPrice)
        } else if self.seller_sell_token.amount < amount {
            Some(ErrorCode::TransferFailed)
        } else {
            None
        }
    }

    /// The record that the create opens.
    pub open spec fn opened(
        self,
        price_per_token: u64,
        amount: u64,
        listing_id: u64,
        bump: u8,
    ) -> Listing {
        Listing {
            seller: self.seller,
            sell_mint: self.sell_mint.key,
            buy_mint: self.buy_mint.key,
            price_per_token,
            amount,
            listing_id,
            bump,
        }
    }

    /// The custody that the create funds: a balance of the asset on sale that
    /// belongs to the listing address and holds the amount.
    pub open spec fn custody(self, amount: u64) -> TokenAccount {
        TokenAccount { mint: self.sell_mint.key, owner: self.listing_key, amount }
    }

    /// The accounts after the create: the seller's balance has paid the
    /// amount into the custody.
    pub open spec fn funded(self, amount: u64) -> CreateListing {
        CreateListing {
            seller_sell_token: self.seller_sell_token.with_amount(
                self.seller_sell_token.amount - amount,
            ),
            ..self
        }
    }
}

/// What a create does: it either returns the record and the custody and
/// leaves the accounts funded, or gives the reason of its refusal and leaves
/// the accounts as they were.
pub open spec fn create_result(
    pre: CreateListing,
    post: CreateListing,
    r: Result<(Listing, TokenAccount), ErrorCode>,
    price_per_token: u64,
    amount: u64,
    listing_id: u64,
    derivation: Option<(Seq<u8>, u8)>,
) -> bool {
    match r {
        Ok((listing, custody)) => {
            &&& pre.refusal(price_per_token, amount, derivation) is None
            &&& derivation matches Some((_, bump))
            &&& listing == pre.opened(price_per_token, amount, listing_id, bump)
            &&& custody == pre.custody(amount)
            &&& post == pre.funded(amount)
        },
        Err(e) => {
            &&& pre.refusal(price_per_token, amount, derivation) == Some(e)
            &&& post == pre
        },
    }
}

/// Opens a listing at the address given by `derivation`, which is what
/// `find_listing_address` answered for the seller and the listing id: the
/// record is populated with `amount` left, and a new custody is funded with
/// exactly `amount` from the seller's balance.
pub fn create_listing_with(
    ctx: &mut CreateListing,
    price_per_token: u64,
    amount: u64,
    listing_id: u64,
    derivation: Option<(Address, u8)>,
) -> (r: Result<(Listing, TokenAccount), ErrorCode>)
    ensures
        create_result(
            *old(ctx),
            *final(ctx),
            r,
            price_per_token,
            amount,
            listing_id,
            derivation_view(derivation),
        ),
{
    let bump = match derivation {
        Some((address, bump)) => {
            proof {
                address_is_its_bytes(address, ctx.listing_key);
            }
            if address != ctx.listing_key {
                return Err(ErrorCode::Unauthorized);
            }
            bump
        },
        None => {
            return Err(ErrorCode::Unauthorized);
        },
    };
    match check_balance(&ctx.seller_sell_token, &ctx.sell_mint.key, &ctx.seller) {
        Ok(()) => {},
        Err(e) => {
            return Err(e);
        },
    }
    let listing = match Listing::open(
        ctx.seller,
        ctx.sell_mint.key,
        ctx.buy_mint.key,
        price_per_token,
        amount,
        listing_id,
        bump,
    ) {
        Ok(listing) => listing,
        Err(e) => {
            return Err(e);
        },
    };
    let mut source = ctx.seller_sell_token;
    let mut custody = TokenAccount::empty(ctx.sell_mint.key, ctx.listing_key);
    match transfer(&mut source, &mut custody, amount) {
        Ok(()) => {},
        Err(e) => {
            return Err(e);
        },
    }
    ctx.seller_sell_token = source;
    Ok((listing, custody))
}

/// Opens a listing for `amount` smallest units of the asset on sale at
/// `price_per_token` per whole unit.
///
/// The address is derived from the seller and `listing_id`; the record's
/// address must be that one. A record that is returned signs for the address
/// it was created at.
pub fn create_listing(
    ctx: &mut CreateListing,
    price_per_token: u64,
    amount: u64,
    listing_id: u64,
) -> (r: Result<(Listing, TokenAccount), ErrorCode>)
    ensures
        create_result(
            *old(ctx),
            *final(ctx),
            r,
            price_per_token,
            amount,
            listing_id,
            derived(old(ctx).seller, listing_id),
        ),
        r matches Ok((listing, _)) ==> recorded_authority(Some(listing)) == Some(
            old(ctx).listing_key@,
        ),
{
    let derivation = find_listing_address(&ctx.seller, listing_id);
    create_listing_with(ctx, price_per_token, amount, listing_id, derivation)
}

impl Purchase {
    /// Why the accounts of the purchase are refused, if they are. `authority`
    /// is the address that the record signs for.
    ///
    /// In order: record and custody must exist; the record must live at the
    /// address it signs for; it must name the two assets handed in, and the
    /// seller handed in; the payment balances must be the buyer's and the
    /// seller's holdings of the payment asset; the custody must be the
    /// listing's holding of the asset on sale; and the receiving balance the
    /// buyer's.
    pub open spec fn account_refusal(self, authority: Option<Seq<u8>>) -> Option<ErrorCode> {
        if self.listing is None || self.escrow_sell_token is None {
            Some(ErrorCode::ListingNotActive)
        } else if authority != Some(self.listing_key@) {
            Some(ErrorCode::Unauthorized)
        } else if self.listing.unwrap().sell_mint != self.sell_mint.key {
            Some(ErrorCode::InvalidMint)
        } else if self.listing.unwrap().buy_mint != self.buy_mint.key {
            Some(ErrorCode::InvalidMint)
        } else if self.seller != self.listing.unwrap().seller {
            Some(ErrorCode::InvalidSeller)
        } else if balance_refusal(self.buyer_buy_token, self.buy_mint.key, self.buyer) is Some {
            balance_refusal(self.buyer_buy_token, self.buy_mint.key, self.buyer)
        } else if balance_refusal(self.seller_buy_token, self.buy_mint.key, self.seller)
            is Some {
            balance_refusal(self.seller_buy_token, self.buy_mint.key, self.seller)
        } else if balance_refusal(
            self.escrow_sell_token.unwrap(),
            self.sell_mint.key,
            self.listing_key,
        ) is Some {
            balance_refusal(self.escrow_sell_token.unwrap(), self.sell_mint.key, self.listing_key)
        } else {
            balance_refusal(self.buyer_sell_token, self.sell_mint.key, self.buyer)
        }
    }

    /// What a fill of `buy_amount` costs under the record's price.
    pub open spec fn cost(self, buy_amount: u64) -> int {
        quote(self.listing.unwrap().price_per_token, buy_amount, self.sell_mint.decimals)
    }

    /// Why the purchase is refused, if it is.
    ///
    /// After the accounts, in order: the listing must have something left;
    /// the fill must be above zero and within what is left; its cost must be
    /// computable; and both transfers must go through.
    pub open spec fn refusal(self, buy_amount: u64, authority: Option<Seq<u8>>) -> Option<
        ErrorCode,
    > {
        if self.account_refusal(authority) is Some {
            self.account_refusal(authority)
        } else if self.listing.unwrap().amount == 0 {
            Some(ErrorCode::ListingNotActive)
        } else if buy_amount == 0 {
            Some(ErrorCode::InvalidAmount)
        } else if buy_amount > self.listing.unwrap().amount {
            Some(ErrorCode::InsufficientStock)
        } else if !quotable(
            self.listing.unwrap().price_per_token,
            buy_amount,
            self.sell_mint.decimals,
        ) {
            Some(ErrorCode::Overflow)
        } else if !transferable(
            self.buyer_buy_token,
            self.seller_buy_token,
            self.cost(buy_amount) as u64,
        ) {
            Some(ErrorCode::TransferFailed)
        } else if !transferable(
            self.escrow_sell_token.unwrap(),
            self.buyer_sell_token,
            buy_amount,
        ) {
            Some(ErrorCode::TransferFailed)
        } else {
            None
        }
    }

    /// The accounts after a fill of `buy_amount`: the cost has gone from the
    /// buyer to the seller, the fill from the custody to the buyer, and the
    /// record has that much less left.
    pub open spec fn settled(self, buy_amount: u64) -> Purchase {
        let listing = self.listing.unwrap();
        let escrow = self.escrow_sell_token.unwrap();
        let cost = self.cost(buy_amount);
        Purchase {
            listing: Some(listing.with_amount(listing.amount - buy_amount)),
            buyer_buy_token: self.buyer_buy_token.with_amount(self.buyer_buy_token.amount - cost),
            seller_buy_token: self.seller_buy_token.with_amount(
                self.seller_buy_token.amount + cost,
            ),
            escrow_sell_token: Some(escrow.with_amount(escrow.amount - buy_amount)),
            buyer_sell_token: self.buyer_sell_token.with_amount(
                self.buyer_sell_token.amount + buy_amount,
            ),
            ..self
        }
    }
}

/// What a purchase does: it either returns the cost charged and leaves the
/// accounts settled, or gives the reason of its refusal and leaves the
/// accounts as they were.
pub open spec fn purchase_result(
    pre: Purchase,
    post: Purchase,
    r: Result<u64, ErrorCode>,
    buy_amount: u64,
    authority: Option<Seq<u8>>,
) -> bool {
    match r {
        Ok(cost) => {
            &&& pre.refusal(buy_amount, authority) is None
            &&& cost == pre.cost(buy_amount)
            &&& post == pre.settled(buy_amount)
        },
        Err(e) => {
            &&& pre.refusal(buy_amount, authority) == Some(e)
            &&& post == pre
        },
    }
}

fn check_purchase_accounts(ctx: &Purchase, authority: &Option<Address>) -> (r: Result<
    (Listing, TokenAccount),
    ErrorCode,
>)
    ensures
        match r {
            Ok((listing, escrow)) => {
                &&& ctx.account_refusal(address_view(*authority)) is None
                &&& ctx.listing == Some(listing)
                &&& ctx.escrow_sell_token == Some(escrow)
            },
            Err(e) => ctx.account_refusal(address_view(*authority)) == Some(e),
        },
{
    let listing = match ctx.listing {
        Some(listing) => listing,
        None => {
            return Err(ErrorCode::ListingNotActive);
        },
    };
    let escrow = match ctx.escrow_sell_token {
        Some(escrow) => escrow,
        None => {
            return Err(ErrorCode::ListingNotActive);
        },
    };
    if !is_address(authority, &ctx.listing_key) {
        return Err(ErrorCode::Unauthorized);
    }
    if listing.sell_mint != ctx.sell_mint.key {
        return Err(ErrorCode::InvalidMint);
    }
    if listing.buy_mint != ctx.buy_mint.key {
        return Err(ErrorCode::InvalidMint);
    }
    if ctx.seller != listing.seller {
        return Err(ErrorCode::InvalidSeller);
    }
    match check_balance(&ctx.buyer_buy_token, &ctx.buy_mint.key, &ctx.buyer) {
        Ok(()) => {},
        Err(e) => {
            return Err(e);
        },
    }
    match check_balance(&ctx.seller_buy_token, &ctx.buy_mint.key, &ctx.seller) {
        Ok(()) => {},
        Err(e) => {
            return Err(e);
        },
    }
    match check_balance(&escrow, &ctx.sell_mint.key, &ctx.listing_key) {
        Ok(()) => {},
        Err(e) => {
            return Err(e);
        },
    }
    match check_balance(&ctx.buyer_sell_token, &ctx.sell_mint.key, &ctx.buyer) {
        Ok(()) => {},
        Err(e) => {
            return Err(e);
        },
    }
    Ok((listing, escrow))
}

/// Fills `buy_amount` smallest units of a listing whose record signs for
/// `authority`, which is what `listing_authority` answered for the record.
pub fn purchase_with(ctx: &mut Purchase, buy_amount: u64, authority: Option<Address>) -> (r:
    Result<u64, ErrorCode>)
    ensures
        purchase_result(*old(ctx), *final(ctx), r, buy_amount, address_view(authority)),
{
    let (mut listing, mut escrow) = match check_purchase_accounts(ctx, &authority) {
        Ok(pair) => pair,
        Err(e) => {
            return Err(e);
        },
    };
    if listing.amount == 0 {
        return Err(ErrorCode::ListingNotActive);
    }
    if buy_amount == 0 {
        return Err(ErrorCode::InvalidAmount);
    }
    if buy_amount > listing.amount {
        return Err(ErrorCode::InsufficientStock);
    }
    let cost = match total_cost(listing.price_per_token, buy_amount, ctx.sell_mint.decimals) {
        Ok(cost) => cost,
        Err(e) => {
            return Err(e);
        },
    };
    let mut buyer_buy_token = ctx.buyer_buy_token;
    let mut seller_buy_token = ctx.seller_buy_token;
    let mut buyer_sell_token = ctx.buyer_sell_token;
    match transfer(&mut buyer_buy_token, &mut seller_buy_token, cost) {
        Ok(()) => {},
        Err(e) => {
            return Err(e);
        },
    }
    match transfer(&mut escrow, &mut buyer_sell_token, buy_amount) {
        Ok(()) => {},
        Err(e) => {
            return Err(e);
        },
    }
    match listing.decrement(buy_amount) {
        Ok(()) => {},
        Err(e) => {
            return Err(e);
        },
    }
    ctx.listing = Some(listing);
    ctx.buyer_buy_token = buyer_buy_token;
    ctx.seller_buy_token = seller_buy_token;
    ctx.escrow_sell_token = Some(escrow);
    ctx.buyer_sell_token = buyer_sell_token;
    Ok(cost)
}

/// Fills `buy_amount` smallest units of the listing: the buyer pays the cost
/// to the seller and receives the fill from the custody, and the record has
/// that much less left. Returns the cost charged.
pub fn purchase(ctx: &mut Purchase, buy_amount: u64) -> (r: Result<u64, ErrorCode>)
    ensures
        purchase_result(
            *old(ctx),
            *final(ctx),
            r,
            buy_amount,
            recorded_authority(old(ctx).listing),
        ),
{
    let authority = listing_authority(&ctx.listing);
    purchase_with(ctx, buy_amount, authority)
}

impl CancelListing {
    /// Why the cancel is refused, if it is. `authority` is the address that
    /// the record signs for.
    ///
    /// In order: record and custody must exist; the record must live at the
    /// address it signs for; the signer must be the seller it records; it
    /// must name the asset handed in; the refund balance must be the seller's
    /// holding of that asset, and the custody the listing's; and the refund
    /// must go through and leave the custody empty.
    pub open spec fn refusal(self, authority: Option<Seq<u8>>) -> Option<ErrorCode> {
        if self.listing is None || self.escrow_sell_token is None {
            Some(ErrorCode::ListingNotActive)
        } else if authority != Some(self.listing_key@) {
            Some(ErrorCode::Unauthorized)
        } else if self.listing.unwrap().seller != self.seller {
            Some(ErrorCode::InvalidSeller)
        } else if self.listing.unwrap().sell_mint != self.sell_mint.key {
            Some(ErrorCode::InvalidMint)
        } else if balance_refusal(self.seller_sell_token, self.sell_mint.key, self.seller)
            is Some {
            balance_refusal(self.seller_sell_token, self.sell_mint.key, self.seller)
        } else if balance_refusal(
            self.escrow_sell_token.unwrap(),
            self.sell_mint.key,
            self.listing_key,
        ) is Some {
            balance_refusal(self.escrow_sell_token.unwrap(), self.sell_mint.key, self.listing_key)
        } else if self.escrow_sell_token.unwrap().amount != self.listing.unwrap().amount {
            Some(ErrorCode::TransferFailed)
        } else if self.seller_sell_token.amount + self.listing.unwrap().amount > u64::MAX {
            Some(ErrorCode::TransferFailed)
        } else {
            None
        }
    }

    /// The accounts after the cancel: what was left has gone back to the
    /// seller, and custody and record are gone.
    pub open spec fn closed(self) -> CancelListing {
        CancelListing {
            listing: None,
            escrow_sell_token: None,
            seller_sell_token: self.seller_sell_token.with_amount(
                self.seller_sell_token.amount + self.listing.unwrap().amount,
            ),
            ..self
        }
    }
}

/// What a cancel does: it either returns the amount refunded and leaves the
/// accounts closed, or gives the reason of its refusal and leaves the accounts
/// as they were.
pub open spec fn cancel_result(
    pre: CancelListing,
    post: CancelListing,
    r: Result<u64, ErrorCode>,
    authority: Option<Seq<u8>>,
) -> bool {
    match r {
        Ok(refund) => {
            &&& pre.refusal(authority) is None
            &&& refund == pre.listing.unwrap().amount
            &&& post == pre.closed()
        },
        Err(e) => {
            &&& pre.refusal(authority) == Some(e)
            &&& post == pre
        },
    }
}

/// Cancels a listing whose record signs for `authority`, which is what
/// `listing_authority` answered for the record.
pub fn cancel_listing_with(ctx: &mut CancelListing, authority: Option<Address>) -> (r: Result<
    u64,
    ErrorCode,
>)
    ensures
        cancel_result(*old(ctx), *final(ctx), r, address_view(authority)),
{
    let listing = match ctx.listing {
        Some(listing) => listing,
        None => {
            return Err(ErrorCode::ListingNotActive);
        },
    };
    let mut escrow = match ctx.escrow_sell_token {
        Some(escrow) => escrow,
        None => {
            return Err(ErrorCode::ListingNotActive);
        },
    };
    if !is_address(&authority, &ctx.listing_key) {
        return Err(ErrorCode::Unauthorized);
    }
    if listing.seller != ctx.seller {
        return Err(ErrorCode::InvalidSeller);
    }
    if listing.sell_mint != ctx.sell_mint.key {
        return Err(ErrorCode::InvalidMint);
    }
    match check_balance(&ctx.seller_sell_token, &ctx.sell_mint.key, &ctx.seller) {
        Ok(()) => {},
        Err(e) => {
            return Err(e);
        },
    }
    match check_balance(&escrow, &ctx.sell_mint.key, &ctx.listing_key) {
        Ok(()) => {},
        Err(e) => {
            return Err(e);
        },
    }
    let remaining = listing.amount;
    let mut seller_sell_token = ctx.seller_sell_token;
    if remaining > 0 {
        match transfer(&mut escrow, &mut seller_sell_token, remaining) {
            Ok(()) => {},
            Err(e) => {
                return Err(e);
            },
        }
    }
    let mut custody = Some(escrow);
    match close_account(&mut custody) {
        Ok(()) => {},
        Err(e) => {
            return Err(e);
        },
    }
    ctx.seller_sell_token = seller_sell_token;
    ctx.escrow_sell_token = custody;
    ctx.listing = None;
    Ok(remaining)
}

/// Cancels the listing: whatever is left goes from the custody back to the
/// seller, the custody is closed and the record removed. A sold-out listing
/// can be cancelled like any other. Returns the amount refunded.
pub fn cancel_listing(ctx: &mut CancelListing) -> (r: Result<u64, ErrorCode>)
    ensures
        cancel_result(*old(ctx), *final(ctx), r, recorded_authority(old(ctx).listing)),
{
    let authority = listing_authority(&ctx.listing);
    cancel_listing_with(ctx, authority)
}

} // verus!
