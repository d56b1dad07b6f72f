use vstd::prelude::*;

verus! {

/// The two-valued classification of a moment: visually day or night.
#[derive(Clone, Copy, Debug, PartialEq, Eq, Structural)]
pub enum Theme {
    Night,
    Day,
}

} // verus!
