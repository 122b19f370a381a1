//! The registry of supported encodings: which file extension names which
//! format, and which extension each format is written under.

use crate::text::{ascii_lowercase, lemma_lowercase_idempotent, lowercase_chars, spells};
use vstd::prelude::*;
use vstd::string::StringExecFns;

verus! {

/// An encoding that images can be converted from and to.
#[derive(Debug, Clone, Copy, PartialEq, Eq, Structural)]
pub enum SupportedFormat {
    Jpeg,
    Png,
    WebP,
    Avif,
}

/// The format that an extension names, if any. The case of ASCII letters is
/// ignored; `jpg` and `jpeg` both name JPEG.
pub open spec fn parse_extension(ext: Seq<char>) -> Option<SupportedFormat> {
    let lower = ascii_lowercase(ext);
    if lower == "jpg"@ || lower == "jpeg"@ {
        Some(SupportedFormat::Jpeg)
    } else if lower == "png"@ {
        Some(SupportedFormat::Png)
    } else if lower == "webp"@ {
        Some(SupportedFormat::WebP)
    } else if lower == "avif"@ {
        Some(SupportedFormat::Avif)
    } else {
        None
    }
}

/// The extension that files of a format are written under.
pub open spec fn canonical_extension(format: SupportedFormat) -> Seq<char> {
    match format {
        SupportedFormat::Jpeg => "jpg"@,
        SupportedFormat::Png => "png"@,
        SupportedFormat::WebP => "webp"@,
        SupportedFormat::Avif => "avif"@,
    }
}

/// What is reported for an extension that names no supported format.
pub open spec fn unsupported_message(ext: Seq<char>) -> Seq<char> {
    "Unsupported format: "@ + ext
}

impl SupportedFormat {
    /// Finds the format that a file extension names. An extension that names
    /// none is rejected with a message that quotes it as it was given.
    pub fn from_extension(ext: &str) -> (r: Result<SupportedFormat, String>)
        ensures
            match r {
                Ok(format) => parse_extension(ext@) == Some(format),
                Err(message) => parse_extension(ext@) is None && message@ == unsupported_message(
                    ext@,
                ),
            },
    {
        let lower = lowercase_chars(ext);
        if spells(&lower, "jpg") || spells(&lower, "jpeg") {
            Ok(SupportedFormat::Jpeg)
        } else if spells(&lower, "png") {
            Ok(SupportedFormat::Png)
        } else if spells(&lower, "webp") {
            Ok(SupportedFormat::WebP)
        } else if spells(&lower, "avif") {
            Ok(SupportedFormat::Avif)
        } else {
            Err(String::from_str("Unsupported format: ").concat(ext))
        }
    }

    /// The extension that files of this format are written under.
    pub fn extension(self) -> (r: &'static str)
        ensures
            r@ == canonical_extension(self),
    {
        match self {
            SupportedFormat::Jpeg => "jpg",
            SupportedFormat::Png => "png",
            SupportedFormat::WebP => "webp",
            SupportedFormat::Avif => "avif",
        }
    }
}

/// The characters of the five names that `parse_extension` recognises.
pub proof fn lemma_extension_names()
    ensures
        "jpg"@ == seq!['j', 'p', 'g'],
        "jpeg"@ == seq!['j', 'p', 'e', 'g'],
        "png"@ == seq!['p', 'n', 'g'],
        "webp"@ == seq!['w', 'e', 'b', 'p'],
        "avif"@ == seq!['a', 'v', 'i', 'f'],
{
    reveal_strlit("jpg");
    reveal_strlit("jpeg");
    reveal_strlit("png");
    reveal_strlit("webp");
    reveal_strlit("avif");
    assert("jpg"@ =~= seq!['j', 'p', 'g']);
    assert("jpeg"@ =~= seq!['j', 'p', 'e', 'g']);
    assert("png"@ =~= seq!['p', 'n', 'g']);
    assert("webp"@ =~= seq!['w', 'e', 'b', 'p']);
    assert("avif"@ =~= seq!['a', 'v', 'i', 'f']);
}

/// Parsing ignores case: two extensions that differ only in the case of
/// ASCII letters name the same format, or both name none.
pub proof fn lemma_parse_ignores_case(a: Seq<char>, b: Seq<char>)
    requires
        ascii_lowercase(a) == ascii_lowercase(b),
    ensures
        parse_extension(a) == parse_extension(b),
{
}

/// An extension names the same format as its lowercase form.
pub proof fn lemma_parse_of_lowercase(ext: Seq<char>)
    ensures
        parse_extension(ascii_lowercase(ext)) == parse_extension(ext),
{
    lemma_lowercase_idempotent(ext);
}

/// Every format is found again from its own extension.
pub proof fn lemma_canonical_extension_parses(format: SupportedFormat)
    ensures
        parse_extension(canonical_extension(format)) == Some(format),
{
    lemma_extension_names();
    let ext = canonical_extension(format);
    assert(ascii_lowercase(ext) =~= ext);
}

/// No two formats share an extension.
pub proof fn lemma_canonical_extension_injective(a: SupportedFormat, b: SupportedFormat)
    requires
        canonical_extension(a) == canonical_extension(b),
    ensures
        a == b,
{
    lemma_canonical_extension_parses(a);
    lemma_canonical_extension_parses(b);
}

/// An extension is recognised exactly when its lowercase form is one of the
/// five names, and the format it names is written under that name or, for
/// `jpeg`, under `jpg`.
pub proof fn lemma_parse_some(ext: Seq<char>, format: SupportedFormat)
    ensures
        parse_extension(ext) == Some(format) <==> (ascii_lowercase(ext) == canonical_extension(
            format,
        ) || (format == SupportedFormat::Jpeg && ascii_lowercase(ext) == "jpeg"@)),
{
    lemma_extension_names();
}

/// The empty extension names no format.
pub proof fn lemma_parse_empty()
    ensures
        parse_extension(Seq::<char>::empty()) is None,
{
    lemma_extension_names();
    assert(ascii_lowercase(Seq::<char>::empty()).len() == 0);
}

} // verus!
