//! An availability prober for a university enrollment portal.
//!
//! The library holds the probe protocol as a state machine: it decides which
//! request to send next, builds the login form and the cookie header, and
//! classifies what comes back. The program around it performs the requests.
use vstd::prelude::*;

pub mod probe;
pub mod reply;
pub mod text;

verus! {

} // verus!
