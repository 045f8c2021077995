//! A gateway to the platform credential store: store, fetch and delete a
//! secret kept under a (service, account) pair.
//!
//! The native calls themselves are made by the embedding application; this
//! library holds everything that is decided around them: which native status
//! means "no such item", how each native outcome becomes the gateway's
//! answer, which bytes a secret is written as, and a model of the store over
//! which the gateway's laws are proved.
pub mod error;
pub mod gateway;
pub mod model;
pub mod status;
