//! The desktop permissions that the node reports.
use vstd::prelude::*;
use std::collections::HashMap;

verus! {

/// The permissions that the node reports to the gateway: none yet, as the
/// Linux desktop checks are not wired in.
pub fn current_permissions() -> (r: HashMap<String, bool>)
    ensures
        r@ == Map::<String, bool>::empty(),
{
    HashMap::new()
}

} // verus!
