//! Update-decision logic of a dynamic-DNS daemon: splitting the configured
//! name, finding the published record, and deciding, step by step, which
//! request a provider has to be sent next.

pub mod http;
pub mod json;
pub mod providers;
pub mod utils;
