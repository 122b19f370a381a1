//! What can go wrong with a conversion.

use crate::format::unsupported_message;
use vstd::prelude::*;
use vstd::string::StringExecFns;

verus! {

/// Why a conversion did not take place or did not complete.
#[derive(Debug, Clone, PartialEq, Eq)]
pub enum ConversionError {
    /// The extension, held here as it was given, names none of the supported
    /// formats.
    UnsupportedFormat(String),
    /// The file name has no extension to tell the format by.
    MissingExtension,
    /// A file or a directory could not be read, created or written.
    Io(String),
    /// The input is not an image that the codec can decode, or its format
    /// could not be told.
    Decode(String),
    /// The encoder rejected the image.
    Encode(String),
}

/// What is reported for a file name without an extension.
pub open spec fn missing_extension_message() -> Seq<char> {
    "Output file must have a valid extension"@
}

impl ConversionError {
    /// The text that describes this error to a user.
    pub open spec fn message_text(self) -> Seq<char> {
        match self {
            ConversionError::UnsupportedFormat(ext) => unsupported_message(ext@),
            ConversionError::MissingExtension => missing_extension_message(),
            ConversionError::Io(detail) => detail@,
            ConversionError::Decode(detail) => detail@,
            ConversionError::Encode(detail) => detail@,
        }
    }

    /// Describes this error to a user.
    pub fn message(&self) -> (r: String)
        ensures
            r@ == self.message_text(),
    {
        match self {
            ConversionError::UnsupportedFormat(ext) => String::from_str(
                "Unsupported format: ",
            ).concat(ext.as_str()),
            ConversionError::MissingExtension => String::from_str(
                "Output file must have a valid extension",
            ),
            ConversionError::Io(detail) => detail.clone(),
            ConversionError::Decode(detail) => detail.clone(),
            ConversionError::Encode(detail) => detail.clone(),
        }
    }
}

} // verus!
