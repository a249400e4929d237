//! A path that always has a string representation, with any leading slash
//! stripped so it can be joined below a cache directory.

use vstd::prelude::*;
use vstd::string::StrSliceExecFns;
use vstd::string::StringExecFns;

verus! {

/// Declared so that verified code can hold an owned `std::path::PathBuf`
/// alongside its string form; the path value itself stays opaque.
#[verifier::external_type_specification]
#[verifier::external_body]
pub struct ExPathBuf(std::path::PathBuf);

/// The text of a path: a function of the path alone, present exactly when
/// the path holds valid Unicode.
pub uninterp spec fn path_text(path_buf: std::path::PathBuf) -> Option<Seq<char>>;

/// Relies on `Path::new` and `Path::to_path_buf`: an owned path directly
/// wrapping the given string, so its text is that string.
#[verifier::external_body]
fn path_buf_of(s: &str) -> (r: std::path::PathBuf)
    ensures
        path_text(r) == Some(s@),
{
    std::path::Path::new(s).to_path_buf()
}

/// Relies on `PathBuf::to_str`: the path's text when, and only when, the
/// path holds valid Unicode.
#[verifier::external_body]
fn path_buf_text(path_buf: &std::path::PathBuf) -> (r: Option<String>)
    ensures
        r is Some <==> path_text(*path_buf) is Some,
        r matches Some(s) ==> path_text(*path_buf) == Some(s@),
{
    path_buf.to_str().map(|s| s.to_owned())
}

/// The given text with one leading `/` stripped, when there is one.
pub open spec fn strip_leading_slash(s: Seq<char>) -> Seq<char> {
    if s.len() > 0 && s[0] == '/' {
        s.subrange(1, s.len() as int)
    } else {
        s
    }
}

/// A path together with its textual form. The text never starts with a
/// separator, so that it can be appended below a base directory.
#[derive(Debug)]
pub struct StrPath {
    path_buf: std::path::PathBuf,
    inner: String,
}

impl StrPath {
    /// The textual form of the path.
    pub closed spec fn view(self) -> Seq<char> {
        self.inner@
    }

    /// Build from a string, stripping one leading `/` when there is one.
    pub fn new(s: String) -> (r: Self)
        ensures
            r@ == strip_leading_slash(s@),
    {
        let n = s.as_str().unicode_len();
        let s = if n > 0 && s.as_str().get_char(0) == '/' {
            String::from_str(s.as_str().substring_char(1, n))
        } else {
            s
        };
        StrPath { path_buf: path_buf_of(s.as_str()), inner: s }
    }

    /// Build from an owned path, going through the path's text as
    /// [`StrPath::new`] does. A path that does not hold valid Unicode is
    /// rejected.
    pub fn from_path_buf(path_buf: std::path::PathBuf) -> (r: Option<Self>)
        ensures
            r is Some <==> path_text(path_buf) is Some,
            r matches Some(p) ==> path_text(path_buf) matches Some(text) && p@
                == strip_leading_slash(text),
    {
        match path_buf_text(&path_buf) {
            Some(inner) => Some(StrPath::new(inner)),
            None => None,
        }
    }

    /// The path's text.
    pub fn to_str(&self) -> (r: &str)
        ensures
            r@ == self@,
    {
        self.inner.as_str()
    }
}

} // verus!
