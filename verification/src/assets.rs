//! Typed records for asset files, as handed to the build-time code generator.
//!
//! The generator walks a directory of asset files and derives a type name
//! from each file name; building that record is the only part of its work
//! that is the decoder library's concern. Directory traversal and code
//! emission stay with the generator.

use vstd::prelude::*;

verus! {

/// The upper-camel-cased form of a string: word boundaries become capital
/// letters, including the first word. The result depends on the input
/// characters alone.
pub uninterp spec fn upper_camel_of(s: Seq<char>) -> Seq<char>;

/// Relies on heck's `ToUpperCamelCase::to_upper_camel_case` for `str`, which
/// computes the upper-camel-cased form of the string, a function of its
/// characters alone.
#[verifier::external_body]
fn to_upper_camel(s: &str) -> (r: String)
    ensures
        r@ == upper_camel_of(s@),
{
    heck::ToUpperCamelCase::to_upper_camel_case(s)
}

/// A file-system path, kept opaque: the library stores and returns it but
/// never reads into it.
#[verifier::external_type_specification]
#[verifier::external_body]
pub struct ExPathBuf(std::path::PathBuf);

/// Relies on `Clone` for `std::path::PathBuf`: cloning yields a copy equal to
/// the original path.
#[verifier::external_body]
fn clone_path(path: &std::path::PathBuf) -> (r: std::path::PathBuf)
    ensures
        r == *path,
{
    path.clone()
}

/// One asset file known to the code generator: the type name derived from the
/// file name, the file's path, and the tag and layer names found in it.
#[derive(PartialEq, Eq, PartialOrd, Ord)]
pub struct AsepriteFile {
    pub name: String,
    pub path: std::path::PathBuf,
    pub tags: Vec<String>,
    pub layers: Vec<String>,
}

impl AsepriteFile {
    /// Builds the record for a newly found asset file: the type name is the
    /// upper-camel-cased file name, the path is kept as given, and no tags or
    /// layers are known yet.
    pub fn load(name: &str, path: &std::path::PathBuf) -> (f: Self)
        ensures
            f.name@ == upper_camel_of(name@),
            f.path == *path,
            f.tags@ == Seq::<String>::empty(),
            f.layers@ == Seq::<String>::empty(),
    {
        let f = AsepriteFile {
            name: to_upper_camel(name),
            path: clone_path(path),
            tags: Vec::new(),
            layers: Vec::new(),
        };
        proof {
            assert(f.tags@ =~= Seq::<String>::empty());
            assert(f.layers@ =~= Seq::<String>::empty());
        }
        f
    }
}

} // verus!
