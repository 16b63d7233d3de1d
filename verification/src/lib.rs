//! Camera model bookkeeping for fisheye and wide-angle camera conversion.
//!
//! Real-valued quantities (focal lengths, principal points, distortion
//! coefficients, projected coordinates) are carried through this library as
//! the IEEE-754 binary64 bit patterns of the values, so that the library's
//! decisions about them can be stated and proved; the arithmetic on them is
//! done by the callers.

pub mod text;
pub mod float_bits;
pub mod camera;
pub mod yaml_io;
pub mod convert;
pub mod sampling;
pub mod util;
pub mod image_ops;
pub mod estimation;
pub mod reporting;
