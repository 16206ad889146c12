use vstd::prelude::*;

verus! {

/// First server version whose error payloads carry a trailing advanced
/// order reject JSON field.
pub const ADVANCED_ORDER_REJECT: i32 = 166;

/// First server version that sends sizes under the decimal size rules.
pub const SIZE_RULES: i32 = 163;

} // verus!
