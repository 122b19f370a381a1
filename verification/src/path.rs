//! File names: how a name splits into stem and extension, and how the name
//! of a converted file is derived.
//!
//! A name here is the final component of a path, with no directory in it.

use crate::error::ConversionError;
use crate::format::{canonical_extension, lemma_extension_names, parse_extension, SupportedFormat};
use crate::text::chars_of;
use vstd::prelude::*;
use vstd::string::{StrSliceExecFns, StringExecFns};

verus! {

/// Whether `i` is where `name` splits into stem and extension: at its last
/// dot, provided that the dot does not open the name. The name `..` does not
/// split.
pub open spec fn splits_at(name: Seq<char>, i: int) -> bool {
    &&& 0 < i < name.len()
    &&& name[i] == '.'
    &&& forall|j: int| i < j < name.len() ==> name[j] != '.'
    &&& name != seq!['.', '.']
}

/// The extension of a file name: what follows its last dot. A name without a
/// dot has none, nor has one whose only dot opens it.
pub open spec fn extension_of(name: Seq<char>) -> Option<Seq<char>> {
    if exists|i: int| splits_at(name, i) {
        let i = choose|i: int| splits_at(name, i);
        Some(name.skip(i + 1))
    } else {
        None
    }
}

/// The stem of a file name: what precedes the dot of its extension, or the
/// whole name where it has no extension.
pub open spec fn stem_of(name: Seq<char>) -> Seq<char> {
    if exists|i: int| splits_at(name, i) {
        let i = choose|i: int| splits_at(name, i);
        name.take(i)
    } else {
        name
    }
}

/// The name under which a file is written once converted: its stem, a dot,
/// and the extension of the target format.
pub open spec fn output_name(name: Seq<char>, target: SupportedFormat) -> Seq<char> {
    stem_of(name) + seq!['.'] + canonical_extension(target)
}

/// A name splits in at most one place.
pub proof fn lemma_split_unique(name: Seq<char>, i: int, j: int)
    requires
        splits_at(name, i),
        splits_at(name, j),
    ensures
        i == j,
{
}

/// A name that splits at `i` has what follows `i` as its extension and what
/// precedes it as its stem.
pub proof fn lemma_split(name: Seq<char>, i: int)
    requires
        splits_at(name, i),
    ensures
        extension_of(name) == Some(name.skip(i + 1)),
        stem_of(name) == name.take(i),
{
    let k = choose|k: int| splits_at(name, k);
    lemma_split_unique(name, i, k);
}

/// Where a name splits, or `None` where it has no extension.
fn split_point(chars: &Vec<char>) -> (r: Option<usize>)
    ensures
        match r {
            Some(i) => splits_at(chars@, i as int),
            None => forall|i: int| !splits_at(chars@, i),
        },
{
    let n = chars.len();
    if n == 2 && chars[0] == '.' && chars[1] == '.' {
        assert(chars@ =~= seq!['.', '.']);
        return None;
    }
    let mut i: usize = n;
    while i > 0
        invariant
            i <= n,
            n == chars.len(),
            chars@ != seq!['.', '.'],
            forall|j: int| i <= j < n ==> chars@[j] != '.',
        decreases i,
    {
        i -= 1;
        if chars[i] == '.' {
            if i == 0 {
                return None;
            }
            return Some(i);
        }
    }
    None
}

/// The extension of a file name, if it has one.
pub fn file_extension(name: &str) -> (r: Option<&str>)
    ensures
        match r {
            Some(ext) => extension_of(name@) == Some(ext@),
            None => extension_of(name@) is None,
        },
{
    let chars = chars_of(name);
    match split_point(&chars) {
        Some(i) => {
            assert(i < chars.len());
            proof {
                lemma_split(name@, i as int);
            }
            Some(name.substring_char(i + 1, chars.len()))
        },
        None => None,
    }
}

/// The stem of a file name.
pub fn file_stem(name: &str) -> (r: &str)
    ensures
        r@ == stem_of(name@),
{
    let chars = chars_of(name);
    match split_point(&chars) {
        Some(i) => {
            proof {
                lemma_split(name@, i as int);
            }
            name.substring_char(0, i)
        },
        None => name,
    }
}

/// The name under which a file is written once converted to `target`.
pub fn output_file_name(name: &str, target: SupportedFormat) -> (r: String)
    ensures
        r@ == output_name(name@, target),
{
    proof {
        reveal_strlit(".");
        assert("."@ =~= seq!['.']);
    }
    String::from_str(file_stem(name)).concat(".").concat(target.extension())
}

/// The format that a file name tells by its extension, if it tells one.
pub open spec fn format_of_name(name: Seq<char>) -> Option<SupportedFormat> {
    match extension_of(name) {
        Some(ext) => parse_extension(ext),
        None => None,
    }
}

/// The format to convert to, told by the name of the file to write. A name
/// without an extension is rejected, and so is one whose extension names no
/// supported format; the error then holds that extension. Only the name is
/// looked at: no file is touched.
pub fn target_format_of(output_name: &str) -> (r: Result<SupportedFormat, ConversionError>)
    ensures
        match r {
            Ok(format) => format_of_name(output_name@) == Some(format),
            Err(error) => match extension_of(output_name@) {
                Some(ext) => {
                    &&& parse_extension(ext) is None
                    &&& error matches ConversionError::UnsupportedFormat(given)
                    &&& given@ == ext
                },
                None => error is MissingExtension,
            },
        },
{
    match file_extension(output_name) {
        Some(ext) => match SupportedFormat::from_extension(ext) {
            Ok(format) => Ok(format),
            Err(_) => Err(ConversionError::UnsupportedFormat(String::from_str(ext))),
        },
        None => Err(ConversionError::MissingExtension),
    }
}

/// A name's stem, a dot and its extension make up the name again.
pub proof fn lemma_stem_and_extension(name: Seq<char>)
    requires
        extension_of(name) is Some,
    ensures
        stem_of(name) + seq!['.'] + extension_of(name).unwrap() == name,
        stem_of(name).len() > 0,
        !extension_of(name).unwrap().contains('.'),
{
    let i = choose|i: int| splits_at(name, i);
    assert(name.take(i) + seq!['.'] + name.skip(i + 1) =~= name);
}

/// A stem with an extension appended splits where the two were joined,
/// whenever the stem is not empty and the extension holds no dot.
pub proof fn lemma_joined_name(stem: Seq<char>, ext: Seq<char>)
    requires
        stem.len() > 0,
        !ext.contains('.'),
        !(stem == seq!['.'] && ext.len() == 0),
    ensures
        extension_of(stem + seq!['.'] + ext) == Some(ext),
        stem_of(stem + seq!['.'] + ext) == stem,
{
    let name = stem + seq!['.'] + ext;
    let i = stem.len() as int;
    assert forall|j: int| i < j < name.len() implies name[j] != '.' by {
        assert(name[j] == ext[j - i - 1]);
        assert(ext.contains(ext[j - i - 1]));
    }
    if name == seq!['.', '.'] {
        assert(name.len() == 2);
        assert(stem =~= seq!['.']);
    }
    assert(splits_at(name, i));
    lemma_split(name, i);
    assert(name.skip(i + 1) =~= ext);
    assert(name.take(i) =~= stem);
}

/// The extension of a format holds no dot and is not empty.
pub proof fn lemma_canonical_extension_plain(format: SupportedFormat)
    ensures
        !canonical_extension(format).contains('.'),
        canonical_extension(format).len() > 0,
{
    lemma_extension_names();
    let ext = canonical_extension(format);
    if ext.contains('.') {
        let i = choose|i: int| 0 <= i < ext.len() && ext[i] == '.';
        assert(ext[i] == '.');
    }
}

/// A converted file keeps the stem of its source and is named for its
/// format: the extension of its name is the one of the target format.
pub proof fn lemma_output_name_extension(name: Seq<char>, target: SupportedFormat)
    requires
        stem_of(name).len() > 0,
    ensures
        extension_of(output_name(name, target)) == Some(canonical_extension(target)),
        stem_of(output_name(name, target)) == stem_of(name),
{
    lemma_canonical_extension_plain(target);
    lemma_joined_name(stem_of(name), canonical_extension(target));
}

} // verus!
