use vstd::prelude::*;

verus! {

/// A point in time as the store keeps it, in nanoseconds since the Unix
/// epoch.
///
/// Nothing in this crate computes with it: it is carried from the store to
/// the response, where it is written in RFC 3339.
#[derive(Clone, Copy, Debug, PartialEq, Eq, Structural)]
pub struct Timestamptz(pub i128);

impl View for Timestamptz {
    type V = i128;

    open spec fn view(&self) -> i128 {
        self.0
    }
}

impl DeepView for Timestamptz {
    type V = i128;

    open spec fn deep_view(&self) -> i128 {
        self.0
    }
}

} // verus!
