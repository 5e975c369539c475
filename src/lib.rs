//! Ledger-integration layer for a privacy-preserving asset-transfer protocol:
//! a sparse spent-output cache, a transition and block model with
//! content-addressed commitments, and a trust-based validator.
pub mod block;
pub mod commit;
pub mod encoding;
pub mod nullifier_set;
pub mod transition;
pub mod validator;
