//! Errors of the image and reporting utilities.

use vstd::prelude::*;

verus! {

/// Errors of the image and reporting utilities.
#[derive(Debug, Clone)]
pub enum UtilError {
    CameraModelDoesNotExist,
    NumericalError(String),
    SingularMatrix,
    ZeroProjectionPoints,
    InvalidParams(String),
}

} // verus!
