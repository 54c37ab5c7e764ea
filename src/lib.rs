//! A single-collection token ledger with a paid primary sale.
//!
//! The ledger keeps four indexes over the minted tokens (owner, approval,
//! metadata and the per-owner token sets) and a collection and sale
//! configuration. Every request is a function of the ledger, the caller, the
//! value attached to the request and the current time; the value transfers
//! that a purchase calls for are handed back to the caller of the library,
//! which makes them.

mod types;
mod text;
mod owner_index;
mod ledger;
mod sale;
mod admin;
mod query;
mod dispatch;
mod laws;
mod outcome;

pub use types::{
    zero_id, ActorId, Collection, Config, DropspaceNftErr, InitNft, NftAction, NftEvent, Payout,
    ProgramInfo, Reply, State, StateQuery, StateReply, TokenId, TokenMetadata,
};
pub use text::{decimal, digit_char};
pub use owner_index::{OwnerIndex, OwnerTokens};
pub use ledger::{fresh_metadata, Nft};
pub use sale::{minted_batch, purchase_payouts, required_payment, sat, saturating_mul, with_batch};
pub use admin::SALE_TIME_MAX;
pub use query::{lists_map, shown_metadata, snapshot_of};
pub use outcome::{
    admin_outcome, approval_check_outcome, approve_outcome, approved, burn_outcome, burnt,
    buy_outcome, collection_set, config_set, event_of, owner_outcome, request_effect,
    request_outcome, reserve_outcome, toggled_sale_time, transfer_outcome, transferred,
};
pub use laws::{
    lemma_batch_index, lemma_fee_conservation, lemma_fresh_identifiers, lemma_index_is_inverse,
    owner_sets, lemma_index_duality, lemma_unique_owner,
    payout_total,
};
