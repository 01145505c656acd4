//! Protocol-stage markers.
//!
//! A stage names the role a box plays in a protocol (a pool box, a deposit
//! box, ...). Markers carry no runtime payload beyond their identity: two
//! stage-tagged boxes are interchangeable as action inputs only when their
//! marker types match, which is what stops a box of one role from being
//! passed where another role is required.

use vstd::prelude::*;

verus! {

/// A zero-payload type naming one protocol stage. Implementors are plain
/// marker structs; `new` hands out a fresh instance of the marker.
pub trait StageType: Sized {
    fn new() -> Self;
}

} // verus!
