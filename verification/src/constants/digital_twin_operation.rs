//! Supported digital twin operations.

use vstd::prelude::*;

verus! {

pub const GET: &'static str = "Get";
pub const SET: &'static str = "Set";
pub const SUBSCRIBE: &'static str = "Subscribe";
pub const UNSUBSCRIBE: &'static str = "Unsubscribe";
pub const INVOKE: &'static str = "Invoke";
pub const STREAM: &'static str = "Stream";
pub const MANAGEDSUBSCRIBE: &'static str = "ManagedSubscribe";

} // verus!
