//! Confirmation of a pending subscription.

use vstd::prelude::*;

verus! {

/// The query parameters of the confirmation link.
#[derive(Debug)]
pub struct Parameters {
    pub subscription_token: String,
}

} // verus!
