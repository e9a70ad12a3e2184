//! Facts about file-system paths that only the operating system or std can give.
use vstd::prelude::*;

verus! {

/// The text that std's `Debug` renders for a path or string: quoted, with escapes.
pub uninterp spec fn debug_text(s: Seq<char>) -> Seq<char>;

/// The extension std's `Path::extension` finds in a path: the part of the file name after its
/// last `.`, when there is one that is not the name's first character.
pub uninterp spec fn extension_of(p: Seq<char>) -> Option<Seq<char>>;

/// `std::path::Path::extension`, as text: a function of the path's text alone, named
/// `extension_of`; nothing more is claimed of it.
#[verifier::external_body]
pub(crate) fn path_extension(p: &str) -> (r: Option<String>)
    ensures
        match r {
            Some(e) => extension_of(p@) == Some(e@),
            None => extension_of(p@) is None,
        },
{
    std::path::Path::new(p).extension().and_then(|e| e.to_str()).map(|e| e.to_string())
}

/// `std::path::Path::exists`. The answer depends on the file system at the time of the call,
/// so nothing is claimed of it.
#[verifier::external_body]
pub(crate) fn path_exists(p: &str) -> (r: bool) {
    std::path::Path::new(p).exists()
}

/// `std::path::Path::is_file`. The answer depends on the file system at the time of the call,
/// so nothing is claimed of it.
#[verifier::external_body]
pub(crate) fn path_is_file(p: &str) -> (r: bool) {
    std::path::Path::new(p).is_file()
}

/// std's `Debug` rendering of a path's text (as `{:?}` prints a `PathBuf`): a function of the
/// text alone, named `debug_text`; nothing more is claimed of it.
#[verifier::external_body]
pub(crate) fn debug_quoted(s: &str) -> (r: String)
    ensures
        r@ == debug_text(s@),
{
    format!("{:?}", std::path::Path::new(s))
}

} // verus!
