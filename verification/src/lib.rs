//! Verified core of a single-instruction NFT minter: it derives a bounded
//! project name from a repository URL, validates the two input URLs, and
//! orchestrates the ordered, atomic sequence of record creations (token
//! identity, one-unit mint, metadata record, supply-lock record) over a
//! model of the per-identity account state.

pub mod mint;
pub mod name;
pub mod text;
pub mod validate;
