//! A rate-limited, role-gated issuance authority.
//!
//! An administrator creates one configuration, which fixes the governed
//! asset and a daily cap, and admits issuers to it. Each issuer may then have
//! the asset minted to any recipient, as long as what it has issued within
//! the current calendar day stays within the cap. The token ledger that does
//! the minting is not part of this crate: the crate decides, says what is to
//! be minted, and commits the quota once it is told that the ledger minted.

pub mod address;
pub mod administration;
pub mod authority;
pub mod controller;
pub mod error;
pub mod issuance;
pub mod laws;
pub mod quota;

pub use address::Address;
pub use administration::{add_issuer, initialize_config, AddIssuer, InitializeConfig};
pub use authority::{mint_authority_handle, MINT_AUTHORITY_TAG};
pub use controller::{Config, Controller};
pub use error::{IssueError, LumiError};
pub use issuance::{
    issue_lumi, issue_lumi_legacy, settle, AuthoritySeeds, IssueLumi, IssueLumiLegacy, LumiIssued,
    MintRequest, PendingIssue, TokenLedger,
};
pub use quota::{day_index, Issuer, SECONDS_PER_DAY};
