//! The failures of a conversion and the messages shown to the caller.
use vstd::prelude::*;

verus! {

/// Why a conversion stopped. Each failure ends the conversion; none is retried.
#[derive(Debug, PartialEq, Eq)]
pub enum ConversionError {
    /// The current thread could not be attached to the platform runtime.
    AttachFailure { cause: String },
    /// The input bytes could not be copied into a runtime byte array.
    MarshalFailure { cause: String },
    /// The input is longer than the largest byte array of the platform runtime,
    /// so it cannot be copied into one.
    InputTooLarge,
    /// The decode call itself faulted.
    DecodeInvocationFailure { cause: String },
    /// The decode call completed but produced no image: corrupt or unsupported input.
    DecodeNullResult,
    /// The in-memory output stream could not be created.
    SinkFailure { cause: String },
    /// The compression format constant could not be read from the platform.
    FormatLookupFailure { cause: String },
    /// The compress call itself faulted.
    CompressInvocationFailure { cause: String },
    /// The compress call reported failure without faulting.
    CompressFalseResult,
    /// The encoded bytes could not be read back from the output stream.
    ExtractFailure { cause: String },
    /// The platform has no native image bridge.
    UnsupportedPlatform,
}

pub open spec fn marshal_prefix() -> Seq<char> {
    "Failed to create JArray: "@
}

pub open spec fn too_large_text() -> Seq<char> {
    "Failed to create JArray: input exceeds the largest byte array of the platform runtime"@
}

pub open spec fn decode_prefix() -> Seq<char> {
    "BitmapFactory execution failed: "@
}

pub open spec fn decode_null_text() -> Seq<char> {
    "BitmapFactory returned null. The HEIC data might be corrupt or unsupported by this Android version."@
}

pub open spec fn compress_prefix() -> Seq<char> {
    "Compression call failed: "@
}

pub open spec fn compress_false_text() -> Seq<char> {
    "Android Bitmap.compress returned false"@
}

pub open spec fn unsupported_text() -> Seq<char> {
    "Native conversion only available on Android"@
}

impl ConversionError {
    /// The descriptive message of this failure: the underlying cause, after a
    /// prefix that names the failed call where one applies.
    pub open spec fn message_spec(&self) -> Seq<char> {
        match self {
            ConversionError::AttachFailure { cause } => cause@,
            ConversionError::MarshalFailure { cause } => marshal_prefix() + cause@,
            ConversionError::InputTooLarge => too_large_text(),
            ConversionError::DecodeInvocationFailure { cause } => decode_prefix() + cause@,
            ConversionError::DecodeNullResult => decode_null_text(),
            ConversionError::SinkFailure { cause } => cause@,
            ConversionError::FormatLookupFailure { cause } => cause@,
            ConversionError::CompressInvocationFailure { cause } => compress_prefix() + cause@,
            ConversionError::CompressFalseResult => compress_false_text(),
            ConversionError::ExtractFailure { cause } => cause@,
            ConversionError::UnsupportedPlatform => unsupported_text(),
        }
    }

    /// Renders the failure as the string that callers receive.
    pub fn message(&self) -> (r: String)
        ensures
            r@ == self.message_spec(),
    {
        match self {
            ConversionError::AttachFailure { cause } => cause.clone(),
            ConversionError::MarshalFailure { cause } => {
                String::from_str("Failed to create JArray: ").concat(cause.as_str())
            },
            ConversionError::InputTooLarge => String::from_str(
                "Failed to create JArray: input exceeds the largest byte array of the platform runtime",
            ),
            ConversionError::DecodeInvocationFailure { cause } => {
                String::from_str("BitmapFactory execution failed: ").concat(cause.as_str())
            },
            ConversionError::DecodeNullResult => String::from_str(
                "BitmapFactory returned null. The HEIC data might be corrupt or unsupported by this Android version.",
            ),
            ConversionError::SinkFailure { cause } => cause.clone(),
            ConversionError::FormatLookupFailure { cause } => cause.clone(),
            ConversionError::CompressInvocationFailure { cause } => {
                String::from_str("Compression call failed: ").concat(cause.as_str())
            },
            ConversionError::CompressFalseResult => String::from_str(
                "Android Bitmap.compress returned false",
            ),
            ConversionError::ExtractFailure { cause } => cause.clone(),
            ConversionError::UnsupportedPlatform => String::from_str(
                "Native conversion only available on Android",
            ),
        }
    }
}

} // verus!

verus! {

/// A conversion result as callers receive it: the bytes, or the failure's message.
pub open spec fn rendered(result: Result<Vec<u8>, ConversionError>) -> Result<Vec<u8>, Seq<char>> {
    match result {
        Ok(bytes) => Ok(bytes),
        Err(e) => Err(e.message_spec()),
    }
}

/// Turns a conversion result into the form callers receive, with each failure
/// rendered as its descriptive message.
pub fn render_result(result: Result<Vec<u8>, ConversionError>) -> (r: Result<Vec<u8>, String>)
    ensures
        match r {
            Ok(bytes) => rendered(result) == Ok::<Vec<u8>, Seq<char>>(bytes),
            Err(m) => rendered(result) == Err::<Vec<u8>, Seq<char>>(m@),
        },
{
    match result {
        Ok(bytes) => Ok(bytes),
        Err(e) => Err(e.message()),
    }
}

} // verus!
