use vstd::prelude::*;

verus! {

/// Why a geometric construction was refused.
#[derive(Debug, Clone, Copy, PartialEq, Eq)]
pub enum GeometryError {
    /// A vector whose length is not above zero was to be normalized.
    DegenerateVector,
    /// The camera's view direction or its up vector gives no orthonormal basis.
    DegenerateCamera,
}

} // verus!
