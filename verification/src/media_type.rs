//! Media-type (MIME) lookup for a file path, from the extension of its
//! final path component: the part after the last `.`, provided that dot is
//! not the first character of the component.
use vstd::prelude::*;

use vstd::string::StrSliceExecFns;
use crate::strutil::str_eq;

verus! {

/// The part of `s` after the last occurrence of `c`, or all of `s` if `c`
/// does not occur.
pub open spec fn after_last(s: Seq<char>, c: char) -> Seq<char>
    decreases s.len(),
{
    if s.len() == 0 {
        s
    } else if s[s.len() - 1] == c {
        Seq::empty()
    } else {
        after_last(s.take(s.len() - 1), c).push(s[s.len() - 1])
    }
}

/// A scan from the end that finds no `c` at or after `i`, and one just
/// before `i` unless `i` is zero, has found `after_last`.
proof fn lemma_after_last_from_scan(s: Seq<char>, c: char, i: int)
    requires
        0 <= i <= s.len(),
        forall|j: int| i <= j < s.len() ==> s[j] != c,
        i > 0 ==> s[i - 1] == c,
    ensures
        after_last(s, c) == s.skip(i),
    decreases s.len(),
{
    if i == s.len() {
        if s.len() > 0 {
            assert(after_last(s, c) =~= s.skip(i));
        } else {
            assert(after_last(s, c) =~= s.skip(0));
        }
    } else {
        assert(s[s.len() - 1] != c);
        lemma_after_last_from_scan(s.take(s.len() - 1), c, i);
        assert(s.take(s.len() - 1).skip(i).push(s[s.len() - 1]) =~= s.skip(i));
    }
}

/// The extension of a file path: the final path component's part after its
/// last `.`, provided that dot does not stand first in the component.
pub open spec fn media_ext(path: Seq<char>) -> Option<Seq<char>> {
    let name = after_last(path, '/');
    if exists|j: int| 1 <= j < name.len() && name[j] == '.' {
        Some(after_last(name, '.'))
    } else {
        None
    }
}

/// The media type for a lowercase file extension, for the extensions this
/// library knows; unknown extensions map to nothing.
pub open spec fn mime_for_ext(ext: Seq<char>) -> Option<Seq<char>> {
    if ext == "html"@ {
        Some("text/html; charset=utf-8"@)
    } else if ext == "css"@ {
        Some("text/css"@)
    } else if ext == "js"@ || ext == "ts"@ {
        Some("text/javascript"@)
    } else if ext == "jpg"@ || ext == "jpeg"@ {
        Some("image/jpeg"@)
    } else if ext == "png"@ {
        Some("image/png"@)
    } else if ext == "gif"@ {
        Some("image/gif"@)
    } else if ext == "toml"@ {
        Some("application/toml"@)
    } else if ext == "yaml"@ || ext == "yml"@ {
        Some("text/x-yaml"@)
    } else if ext == "json"@ {
        Some("application/json"@)
    } else if ext == "txt"@ || ext == "py"@ || ext == "rs"@ || ext == "hbs"@ {
        Some("text/plain"@)
    } else if ext == "md"@ {
        Some("text/markdown"@)
    } else if ext == "wasm"@ {
        Some("application/wasm"@)
    } else if ext == "ico"@ {
        Some("image/vnd.microsoft.icon"@)
    } else if ext == "csv"@ {
        Some("text/csv; charset=utf-8"@)
    } else if ext == "pdf"@ {
        Some("application/pdf"@)
    } else if ext == "bin"@ || ext == "enc"@ || ext == "dat"@ || ext == "gz"@ || ext == "tar"@
        || ext == "z"@ {
        Some("application/octet-stream"@)
    } else {
        None
    }
}

/// Maps a file extension to its media type, for the extensions this
/// library knows.
pub fn ext_to_mime(ext: &str) -> (r: Option<&'static str>)
    ensures
        match mime_for_ext(ext@) {
            Some(m) => r matches Some(s) && s@ == m,
            None => r is None,
        },
{
    if str_eq(ext, "html") {
        Some("text/html; charset=utf-8")
    } else if str_eq(ext, "css") {
        Some("text/css")
    } else if str_eq(ext, "js") || str_eq(ext, "ts") {
        Some("text/javascript")
    } else if str_eq(ext, "jpg") || str_eq(ext, "jpeg") {
        Some("image/jpeg")
    } else if str_eq(ext, "png") {
        Some("image/png")
    } else if str_eq(ext, "gif") {
        Some("image/gif")
    } else if str_eq(ext, "toml") {
        Some("application/toml")
    } else if str_eq(ext, "yaml") || str_eq(ext, "yml") {
        Some("text/x-yaml")
    } else if str_eq(ext, "json") {
        Some("application/json")
    } else if str_eq(ext, "txt") || str_eq(ext, "py") || str_eq(ext, "rs") || str_eq(ext, "hbs") {
        Some("text/plain")
    } else if str_eq(ext, "md") {
        Some("text/markdown")
    } else if str_eq(ext, "wasm") {
        Some("application/wasm")
    } else if str_eq(ext, "ico") {
        Some("image/vnd.microsoft.icon")
    } else if str_eq(ext, "csv") {
        Some("text/csv; charset=utf-8")
    } else if str_eq(ext, "pdf") {
        Some("application/pdf")
    } else if str_eq(ext, "bin") || str_eq(ext, "enc") || str_eq(ext, "dat") || str_eq(ext, "gz")
        || str_eq(ext, "tar") || str_eq(ext, "z") {
        Some("application/octet-stream")
    } else {
        None
    }
}

/// Strips one leading `/` from a path, if one is there.
pub fn remove_leading_slash(path: &str) -> (r: &str)
    ensures
        r@ == if path@.len() > 0 && path@[0] == '/' {
            path@.skip(1)
        } else {
            path@
        },
{
    let n = path.unicode_len();
    if n > 0 && path.get_char(0) == '/' {
        path.substring_char(1, n)
    } else {
        path
    }
}

/// Determines the media type for a file based on its extension, or `None`
/// if the extension is not known.
pub fn media_type(file_path: &str) -> (r: Option<&'static str>)
    ensures
        match media_ext(file_path@) {
            Some(e) => match mime_for_ext(e) {
                Some(m) => r matches Some(s) && s@ == m,
                None => r is None,
            },
            None => r is None,
        },
{
    let n = file_path.unicode_len();
    // the index just after the last '/', or 0 if there is none
    let mut ls: usize = n;
    while ls > 0 && file_path.get_char(ls - 1) != '/'
        invariant
            n == file_path@.len(),
            ls <= n,
            forall|j: int| ls <= j < n ==> file_path@[j] != '/',
        decreases ls,
    {
        ls = ls - 1;
    }
    proof {
        lemma_after_last_from_scan(file_path@, '/', ls as int);
    }
    let ghost name = after_last(file_path@, '/');
    // the index just after the last '.' of the component, or ls if none
    let mut ld: usize = n;
    while ld > ls && file_path.get_char(ld - 1) != '.'
        invariant
            n == file_path@.len(),
            ls <= ld <= n,
            forall|j: int| ld <= j < n ==> file_path@[j] != '.',
        decreases ld,
    {
        ld = ld - 1;
    }
    proof {
        assert forall|j: int| ld - ls <= j < name.len() implies name[j] != '.' by {
            assert(name[j] == file_path@[ls + j]);
        }
        if ld > ls {
            assert(name[ld - ls - 1] == file_path@[ld - 1]);
        }
        lemma_after_last_from_scan(name, '.', ld - ls);
    }
    if ld - ls >= 2 {
        let ext = file_path.substring_char(ld, n);
        proof {
            assert(name[ld - 1 - ls as int] == file_path@[ld - 1]);
            assert(ext@ =~= name.skip(ld - ls));
        }
        ext_to_mime(ext)
    } else {
        proof {
            if exists|j: int| 1 <= j < name.len() && name[j] == '.' {
                let j = choose|j: int| 1 <= j < name.len() && name[j] == '.';
                assert(file_path@[ls + j] == '.');
                assert(ls + j >= ld);
                assert(false);
            }
        }
        None
    }
}

} // verus!
