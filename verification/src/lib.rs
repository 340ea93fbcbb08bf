//! A dynamic-DNS client library.
//!
//! The library keeps a DNS record in sync with the host's current public IP
//! address.  It holds the provider-independent core: the record and
//! configuration model, the record-matching rule, the interpretation of
//! provider responses, and the reconciliation state machine that decides when
//! an update is issued and how its outcome changes the in-memory state.
//! Network transport is left to the surrounding application, which feeds the
//! response bodies and probe results into the functions here.

pub mod backends;
pub mod cloudflare;
pub mod json;
pub mod matching;
pub mod porkbun;
pub mod probe;
pub mod reconcile;
pub mod registry;
pub mod response;
