//! The configuration before it is split.

use vstd::prelude::*;

verus! {

/// The configuration as it is given: the full name to keep up to date, the
/// provider's key and the provider's identifier, nothing split yet.
pub struct DDNSConfig {
    pub domain: String,
    pub api_key: String,
    pub backend: String,
}

} // verus!
