//! Conversion of HEIC image bytes to PNG or JPEG through the platform's image codec.
//!
//! The library holds what is decided on the host side of the bridge: which
//! compression format a MIME type selects, the failures with their messages,
//! and the linear sequence of platform calls as a state machine whose steps are
//! performed by the caller.
use vstd::prelude::*;

pub mod bridge;
pub mod error;
pub mod format;

use crate::error::{ConversionError, render_result};

verus! {

/// The bridge on a platform without a native image codec: every request fails
/// with the unsupported-platform message, whatever its bytes, format or quality.
pub fn convert_heic_android(data: &[u8], format: &str, quality: u8) -> (r: Result<Vec<u8>, String>)
    ensures
        r matches Err(m) && m@ == ConversionError::UnsupportedPlatform.message_spec(),
{
    render_result(Err(ConversionError::UnsupportedPlatform))
}

} // verus!
