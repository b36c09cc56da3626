//! The sidecar's version string.
use vstd::prelude::*;

verus! {

/// Version of this sidecar library, as it appears in socket names and in the
/// legacy producer identity.
pub const SIDECAR_VERSION: &'static str = "0.1.0";

} // verus!
