//! Verified gateway logic for minting a fixed-supply token and recording its metadata.
//!
//! The gateway validates requests, works out what the token ledger has to be asked, and
//! keeps one metadata record per created token. The ledger itself is an outside service:
//! the caller carries the gateway's requests to it and the ledger's answers back.

pub mod address;
pub mod error;
pub mod gateway;
pub mod ledger;
pub mod metadata;
pub mod store;
pub mod supply;
pub mod world;

pub use address::Address;
pub use error::GatewayError;
pub use gateway::{
    create_token, finish_create_token, finish_mint_tokens, mint_tokens, Authorization, CreateOrder,
    CreateToken, MintTokens, Occupancy,
};
pub use ledger::{EntryRequest, HoldingRequest, LedgerReply, MintRequest};
pub use metadata::{record_fits, TokenInfo, RESERVED_SPACE, TEXT_SPACE};
pub use store::{MetadataStore, RecordHandle};
pub use supply::{initial_supply, MAX_DECIMALS, WHOLE_TOKENS};
