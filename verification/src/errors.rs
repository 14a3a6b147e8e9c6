use vstd::prelude::*;

verus! {

/// Everything that can go wrong while styling a QR code.
///
/// A request either returns a complete result or exactly one of these; no
/// partial output is ever handed back.
#[derive(Debug)]
pub enum QrError {
    /// The input text cannot be represented as a QR symbol at the requested
    /// size and error-correction level; carries the encoder's message.
    Encode(String),
    /// An animation color string lacks the leading `#` or is not six hex
    /// digits.
    ColorFormat,
    /// The embedded logo asset failed to decode; an internal defect, not a
    /// per-request user error.
    AssetDecode,
    /// Geometry that would divide by zero, such as a frame count below two.
    DegenerateInput,
    /// The final raster could not be compressed to PNG.
    Codec,
}

impl QrError {
    /// A human-readable description of the error: the encoder's own words
    /// for an encode failure, fixed guidance for the rest.
    pub fn message(&self) -> (r: String)
        ensures
            self matches QrError::Encode(m) ==> r@ == m@,
            self is ColorFormat ==> r@ == "Invalid color format. Use hex colors (e.g., '#FF0000')"@,
            self is AssetDecode ==> r@ == "embedded logo asset failed to decode"@,
            self is DegenerateInput ==> r@ == "animation requires a frame count of at least 2"@,
            self is Codec ==> r@ == "could not encode the image as PNG"@,
    {
        match self {
            QrError::Encode(m) => m.clone(),
            QrError::ColorFormat => String::from_str(
                "Invalid color format. Use hex colors (e.g., '#FF0000')",
            ),
            QrError::AssetDecode => String::from_str("embedded logo asset failed to decode"),
            QrError::DegenerateInput => String::from_str(
                "animation requires a frame count of at least 2",
            ),
            QrError::Codec => String::from_str("could not encode the image as PNG"),
        }
    }
}

} // verus!
