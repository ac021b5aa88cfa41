//! Escrow marketplace core.
//!
//! A seller locks a quantity of one asset into a custody balance that only the
//! listing itself may sign for, and advertises a price per whole unit in a
//! second asset. Buyers swap payment for partial or full fills until the
//! listing is depleted or the seller cancels it.
//!
//! Every operation is a function from the accounts it is handed to the accounts
//! as they stand afterwards. An operation that is refused leaves every account
//! as it was.

pub mod address;
pub mod derivation;
pub mod error;
pub mod exchange;
pub mod laws;
pub mod listing;
pub mod pricing;
pub mod token;

pub use address::Address;
pub use derivation::{
    find_listing_address, listing_signer_address, program_id, LISTING_SEED, PROGRAM_ID,
};
pub use error::ErrorCode;
pub use exchange::{
    cancel_listing, cancel_listing_with, check_balance, create_listing, create_listing_with,
    listing_authority, purchase, purchase_with, CancelListing, CreateListing, Purchase,
};
pub use listing::{state_of, Listing, ListingState, LISTING_TAG};
pub use pricing::total_cost;
pub use token::{close_account, transfer, Mint, TokenAccount};
