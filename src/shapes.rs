//! Errors of the shapes whose sizes are validated on construction.

use vstd::prelude::*;

verus! {

/// Why a size was refused: it was negative.
#[derive(Clone, Copy, Debug, PartialEq, Eq, Structural)]
pub enum Error {
    InvalidWidth,
    InvalidHeight,
    InvalidRadius,
}

} // verus!
