use crate::text::chars_of;
use vstd::prelude::*;
use vstd::string::*;

verus! {

/// The path that `Path::join` of std gives for a base path and a path to
/// put behind it, both as texts, on the platform the library is built for.
pub uninterp spec fn joined(base: Seq<char>, name: Seq<char>) -> Seq<char>;

/// The path that `Path::with_extension` of std gives for a path and an
/// extension, both as texts.
pub uninterp spec fn with_extension(path: Seq<char>, extension: Seq<char>) -> Seq<char>;

/// The extension that `Path::extension` of std finds in a path given as a
/// text, if it finds one.
pub uninterp spec fn extension_of(path: Seq<char>) -> Option<Seq<char>>;

/// Whether the character parts the components of a path, on some platform.
pub open spec fn is_separator(c: char) -> bool {
    c == '/' || c == '\\'
}

/// Whether a text can be the extension of a file: it holds no character
/// that parts the components of a path.
pub open spec fn plain(extension: Seq<char>) -> bool {
    forall|i: int| 0 <= i < extension.len() ==> !is_separator(#[trigger] extension[i])
}

/// Whether a text can be the extension of a file.
pub fn is_plain(extension: &str) -> (yes: bool)
    ensures
        yes == plain(extension@),
{
    let chars = chars_of(extension);
    let mut i: usize = 0;
    while i < chars.len()
        invariant
            i <= chars@.len(),
            chars@ == extension@,
            forall|j: int| 0 <= j < i ==> !is_separator(#[trigger] chars@[j]),
        decreases chars@.len() - i,
    {
        if chars[i] == '/' || chars[i] == '\\' {
            return false;
        }
        i += 1;
    }
    true
}

/// `Path::join` of std, on texts: the path `name` put behind the path
/// `base`. The result is a function of the two texts alone.
#[verifier::external_body]
pub(crate) fn join_path(base: &str, name: &str) -> (path: String)
    ensures
        path@ == joined(base@, name@),
{
    std::path::Path::new(base).join(name).to_string_lossy().into_owned()
}

/// `Path::with_extension` of std, on texts: the path with its extension set
/// to the one given. The result is a function of the two texts alone. The
/// call panics on an extension that holds a path separator, so such an
/// extension is not taken.
#[verifier::external_body]
pub(crate) fn set_extension(path: &str, extension: &str) -> (changed: String)
    requires
        plain(extension@),
    ensures
        changed@ == with_extension(path@, extension@),
{
    std::path::Path::new(path).with_extension(extension).to_string_lossy().into_owned()
}

/// `Path::extension` of std, on a text: the extension of the path's last
/// component, where it has one that is valid text.
#[verifier::external_body]
pub(crate) fn path_extension(path: &str) -> (extension: Option<String>)
    ensures
        match extension {
            Some(text) => extension_of(path@) == Some(text@),
            None => extension_of(path@) is None,
        },
{
    std::path::Path::new(path).extension().and_then(|e| e.to_str()).map(|e| e.to_owned())
}

} // verus!
