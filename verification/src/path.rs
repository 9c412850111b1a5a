//! Resolution of a user-supplied path into an anchored module path.
//!
//! A load path must always be anchored: a relative path is joined to the
//! working directory so that the dynamic loader never falls back to the
//! system search rules with a bare filename. The resolved path is later
//! handed to the entry point as a null-terminated string, so it must be
//! valid Unicode and must not contain an embedded null byte.

use vstd::prelude::*;
use vstd::string::StrSliceExecFns;
use vstd::string::StringExecFns;

use crate::error::{LibraryError, PathIssue};

verus! {

/// A path as the operating system handed it over: either valid Unicode
/// text, or a byte sequence that has no Unicode representation.
#[derive(Clone, Debug, PartialEq, Eq)]
pub enum NativePath {
    /// The path exists but is not valid Unicode.
    NotUnicode,
    /// The path as text.
    Text(String),
}

/// Whether a path is anchored on its own, without a working directory.
pub open spec fn is_absolute_path(s: Seq<char>) -> bool {
    s.len() > 0 && s[0] == '/'
}

/// Whether the pair of working directory and user path can be turned into
/// native text at all: the user path must be Unicode, and a relative user
/// path additionally needs a Unicode working directory to anchor to.
pub open spec fn path_representable(cwd: NativePath, user: NativePath) -> bool {
    match user {
        NativePath::NotUnicode => false,
        NativePath::Text(p) => is_absolute_path(p@) || cwd is Text,
    }
}

/// The anchored path: the user path itself when absolute, else the working
/// directory, a separator, and the user path.
pub open spec fn spec_resolved_path(cwd: NativePath, user: NativePath) -> Seq<char>
    recommends
        path_representable(cwd, user),
{
    match user {
        NativePath::NotUnicode => Seq::empty(),
        NativePath::Text(p) => if is_absolute_path(p@) {
            p@
        } else {
            match cwd {
                NativePath::NotUnicode => Seq::empty(),
                NativePath::Text(c) => c@ + "/"@ + p@,
            }
        },
    }
}

/// The error that path resolution reports for a given pair of inputs, when
/// it reports one.
pub open spec fn spec_path_error(cwd: NativePath, user: NativePath) -> LibraryError {
    if !path_representable(cwd, user) {
        LibraryError::PathError { issue: PathIssue::NotUnicode }
    } else {
        LibraryError::PathError { issue: PathIssue::ContainsNul }
    }
}

/// Whether the text contains an embedded null character.
pub fn contains_nul(s: &str) -> (r: bool)
    ensures
        r == s@.contains('\0'),
{
    let n = s.unicode_len();
    let mut i: usize = 0;
    while i < n
        invariant
            n == s@.len(),
            0 <= i <= n,
            forall|j: int| 0 <= j < i ==> s@[j] != '\0',
        decreases n - i,
    {
        if s.get_char(i) == '\0' {
            assert(s@.contains('\0')) by {
                assert(s@[i as int] == '\0');
            }
            return true;
        }
        i += 1;
    }
    assert(!s@.contains('\0'));
    false
}

/// Whether the path text is anchored on its own.
pub fn is_absolute(s: &str) -> (r: bool)
    ensures
        r == is_absolute_path(s@),
{
    let n = s.unicode_len();
    if n == 0 {
        false
    } else {
        s.get_char(0) == '/'
    }
}

/// Turn a user-supplied path into the anchored module path: the path itself
/// when absolute, else the path joined to the working directory. Fails when
/// the pair has no Unicode representation, or when the resolved path holds
/// an embedded null byte; on success the result is exactly the anchored
/// path, free of null bytes.
pub fn resolve_path(cwd: &NativePath, user_path: &NativePath) -> (r: Result<
    String,
    LibraryError,
>)
    ensures
        match r {
            Ok(resolved) => {
                &&& path_representable(*cwd, *user_path)
                &&& resolved@ == spec_resolved_path(*cwd, *user_path)
                &&& !resolved@.contains('\0')
            },
            Err(e) => {
                &&& !path_representable(*cwd, *user_path) || spec_resolved_path(
                    *cwd,
                    *user_path,
                ).contains('\0')
                &&& e == spec_path_error(*cwd, *user_path)
            },
        },
{
    match user_path {
        NativePath::NotUnicode => Err(LibraryError::PathError { issue: PathIssue::NotUnicode }),
        NativePath::Text(p) => {
            let joined: String;
            if is_absolute(p.as_str()) {
                joined = p.clone();
            } else {
                match cwd {
                    NativePath::NotUnicode => {
                        return Err(LibraryError::PathError { issue: PathIssue::NotUnicode });
                    },
                    NativePath::Text(c) => {
                        let mut anchored = c.clone();
                        anchored.append("/");
                        anchored.append(p.as_str());
                        joined = anchored;
                    },
                }
            }
            if contains_nul(joined.as_str()) {
                Err(LibraryError::PathError { issue: PathIssue::ContainsNul })
            } else {
                Ok(joined)
            }
        },
    }
}

} // verus!
