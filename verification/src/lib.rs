//! Core of a webhook delivery platform: the event ingestion path and the
//! outbound delivery worker, an at-least-once dispatcher with linear backoff
//! coordinated solely through a transactional store.
//!
//! The store, the HTTP stack and the process around them are external; every
//! decision they carry out — validation, authorization, claiming, retry
//! scheduling, outcome recording — is made by the functions here, under
//! contracts that pin it down.

pub mod codec;
pub mod errors;
pub mod iam;
pub mod ingest;
pub mod json;
pub mod worker;
