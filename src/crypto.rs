//! End-to-end encryption of payloads to one or more recipient keys.
pub mod e2e;
pub mod keys;
