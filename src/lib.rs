//! A DNS-over-HTTPS resolving proxy core: request normalisation, question
//! parsing, blocklist filtering, cache keying and response building, driven
//! as a step machine whose outside work (cache store, upstream fetch,
//! logging transport) is carried out by the host.
pub mod decimal;
pub mod error;
mod outside;
pub mod blocklist;
pub mod query;
pub mod response;
pub mod pipeline;
pub mod model;
pub mod logging;
