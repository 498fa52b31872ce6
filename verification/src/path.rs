//! Writing the specifier of an import as a path relative to the importing
//! file, as a browser resolves it.

use crate::text::replace;
use crate::text::replaced;
use crate::text::starts_with;
use vstd::prelude::*;
use vstd::string::StringExecFns;

verus! {

/// The path `path`, read with Windows' separators, as written with Unix'
/// ones.
pub uninterp spec fn unix_path(path: Seq<char>) -> Seq<char>;

/// The specifier that stands for the relative path `relative`: source files
/// are named by what they compile to, and a path that does not start with a
/// dot gets `./` in front.
pub open spec fn specifier_of(relative: Seq<char>) -> Seq<char> {
    let compiled = replaced(relative, ".ts"@, ".js"@);
    if "."@.is_prefix_of(compiled) {
        compiled
    } else {
        "./"@ + compiled
    }
}

/// The specifier of an import that was written `origin`, given the relative
/// path to what it resolves to, where there is one.
pub open spec fn import_specifier(relative: Option<Seq<char>>, origin: Seq<char>) -> Seq<char> {
    match relative {
        Some(path) => specifier_of(path),
        None => origin,
    }
}

/// `typed_path::Utf8Path::with_encoding`, from the Windows encoding of
/// `path` to the Unix encoding, and the result as text. It depends on the
/// characters of `path` alone.
#[verifier::external_body]
pub(crate) fn converting_to_unix_path(path: &str) -> (out: String)
    ensures
        out@ == unix_path(path@),
{
    typed_path::Utf8Path::<typed_path::Utf8WindowsEncoding>::new(path).with_encoding::<
        typed_path::Utf8UnixEncoding,
    >().to_string()
}

/// `pathdiff::diff_paths`: the path that leads from `base` to `path`, where
/// there is one that can be written as text. How paths are read depends on
/// the platform, so nothing is stated of the result.
#[verifier::external_body]
fn diff_paths(path: &str, base: &str) -> (out: Option<String>) {
    pathdiff::diff_paths(path, base).and_then(|p| p.to_str().map(|s| s.to_string()))
}

/// Writes a relative path as a specifier.
pub fn finish_specifier(relative: &str) -> (out: String)
    ensures
        out@ == specifier_of(relative@),
{
    proof {
        reveal_strlit(".ts");
    }
    let compiled = replace(relative, ".ts", ".js");
    if starts_with(compiled.as_str(), ".") {
        compiled
    } else {
        let mut out = String::from_str("./");
        out.append(compiled.as_str());
        out
    }
}

/// Picks the specifier of an import that was written `origin`: the one that
/// stands for `relative` where a relative path was found, else `origin`.
pub fn choose_specifier(relative: Option<String>, origin: &str) -> (out: String)
    ensures
        out@ == import_specifier(crate::pattern::optional_text(relative), origin@),
{
    match relative {
        Some(path) => finish_specifier(path.as_str()),
        None => String::from_str(origin),
    }
}

/// The pass that rewrites import specifiers.
#[derive(Debug, PartialEq, Eq)]
pub struct PathVisitor {
    /// The path of the file that is rewritten, where it is known.
    pub filename: Option<String>,
}

impl PathVisitor {
    /// The specifier of an import that was written `origin` and resolves to
    /// the file `full_path`, seen from the directory `dir`: the relative
    /// path between the two as a specifier, or `origin` where no such path
    /// can be had.
    pub fn resolve_path(&self, full_path: &str, dir: &str, origin: &str) -> (out: String)
        ensures
            exists|relative: Option<Seq<char>>| out@ == import_specifier(relative, origin@),
    {
        let target = converting_to_unix_path(full_path);
        let base = converting_to_unix_path(dir);
        let relative = diff_paths(target.as_str(), base.as_str());
        let out = choose_specifier(relative, origin);
        assert(out@ == import_specifier(crate::pattern::optional_text(relative), origin@));
        out
    }
}

/// Starts the pass that rewrites import specifiers in the file `filename`.
pub fn path_transform(filename: Option<String>) -> (visitor: PathVisitor)
    ensures
        visitor.filename == filename,
{
    PathVisitor { filename }
}

} // verus!
