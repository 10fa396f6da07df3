//! Selection of the compression format from a MIME type.
use vstd::prelude::*;

verus! {

/// The MIME type that selects PNG output; every other value selects JPEG.
pub open spec fn png_mime() -> Seq<char> {
    "image/png"@
}

/// The output formats of the platform's compressor.
#[derive(Debug, Clone, Copy, PartialEq, Eq, Structural)]
pub enum CompressFormat {
    Png,
    Jpeg,
}

/// The format that a requested MIME type selects: PNG for exactly `"image/png"`,
/// JPEG for anything else, including an empty or malformed string.
pub open spec fn format_for(mime: Seq<char>) -> CompressFormat {
    if mime == png_mime() {
        CompressFormat::Png
    } else {
        CompressFormat::Jpeg
    }
}

impl CompressFormat {
    /// The name of the platform's static field that holds this format's constant.
    pub open spec fn field_name_spec(self) -> Seq<char> {
        match self {
            CompressFormat::Png => "PNG"@,
            CompressFormat::Jpeg => "JPEG"@,
        }
    }

    /// Returns the name of the platform's static field for this format.
    pub fn field_name(self) -> (r: &'static str)
        ensures
            r@ == self.field_name_spec(),
    {
        match self {
            CompressFormat::Png => "PNG",
            CompressFormat::Jpeg => "JPEG",
        }
    }
}

/// Chooses the compression format for a requested MIME type.
pub fn select_compress_format(mime: &str) -> (r: CompressFormat)
    ensures
        r == format_for(mime@),
{
    let requested = String::from_str(mime);
    let png = String::from_str("image/png");
    if requested == png {
        CompressFormat::Png
    } else {
        CompressFormat::Jpeg
    }
}

} // verus!
