use vstd::prelude::*;

verus! {

/// Error returned when an operation is handed arguments it cannot work on:
/// an empty matrix, or vectors whose lengths do not match.
#[derive(Clone, Copy, Debug, PartialEq, Eq, Structural)]
pub enum HdvError {
    InvalidArgument,
}

} // verus!
