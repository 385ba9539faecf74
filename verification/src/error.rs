//! Error values shared by the transform and viewport operations.

use vstd::prelude::*;

verus! {

/// Why a transform or mapper operation could not produce a value.
#[derive(Clone, Copy, Debug, PartialEq, Eq, Structural)]
pub enum TransformError {
    /// Inversion was requested for a matrix whose determinant is zero.
    SingularMatrix,
    /// A bounds rectangle has zero width or height.
    DegenerateRect,
    /// The exact result does not fit the fixed-width representation.
    Overflow,
}

} // verus!
