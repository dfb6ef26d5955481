use vstd::prelude::*;

pub mod laws;
pub mod resolver;
pub mod session;
pub mod trigger;

verus! {

/// Default number of seconds after which an active session leaves on its own.
pub const LEAVE_AFTER_SECS: u64 = 3;

} // verus!
