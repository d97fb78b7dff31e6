//! An authorization registry: a single admin-controlled record that holds an
//! ordered, duplicate-free, bounded list of verifier identities, and gates the
//! issuance of item certificates on membership in that list.
//!
//! The record lives in one account at an address derived from a fixed label
//! and the program's own identity. `initialize` creates it, `add_verifier` and
//! `remove_verifier` change its list, `mint_auth_nft` checks a signer against
//! the list, and `close_state` deletes the account so that it can be created
//! afresh. Every operation either succeeds whole or changes nothing.
pub mod identity;
pub mod laws;
pub mod lifecycle;
pub mod registry;

pub use identity::Identity;
pub use lifecycle::{
    canonical_state_address, close_state, initialize, Account, CloseState, Initialize,
    ADMIN_PUBKEY_STR,
};
pub use registry::{
    add_verifier, mint_auth_nft, remove_verifier, AddVerifier, AuthNftMinted, ErrorCode,
    MintAuthNft, RemoveVerifier, State, VerifierAdded, VerifierRemoved,
};
