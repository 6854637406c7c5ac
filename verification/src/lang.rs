use vstd::prelude::*;

verus! {

/// A language the library can match against, inferred from a file's
/// extension. A pattern bound to one language is never run against a file
/// of another.
#[derive(Clone, Copy, Debug, PartialEq, Eq, Structural)]
pub enum Lang {
    C,
    Go,
    JavaScript,
    Python,
    Rust,
    TypeScript,
}

/// Whether byte `d` of `path` is the dot that starts the path's extension:
/// a `.` that is not the first byte of the file name, with no further `.`
/// or `/` after it.
pub open spec fn is_ext_dot(path: Seq<u8>, d: int) -> bool {
    &&& 1 <= d < path.len()
    &&& path[d] == 46u8
    &&& path[d - 1] != 47u8
    &&& forall|j: int| d < j < path.len() ==> path[j] != 46u8 && path[j] != 47u8
}

/// Whether the path has an extension at all.
pub open spec fn has_extension(path: Seq<u8>) -> bool {
    exists|d: int| is_ext_dot(path, d)
}

/// The byte offset of the dot that starts the extension.
pub open spec fn spec_ext_dot(path: Seq<u8>) -> int {
    choose|d: int| is_ext_dot(path, d)
}

/// The path's extension: the bytes after the last `.` of the file name,
/// where that `.` is not the file name's first byte. A path without such
/// a dot has no extension.
pub open spec fn spec_extension(path: Seq<u8>) -> Option<Seq<u8>> {
    if has_extension(path) {
        Some(path.subrange(spec_ext_dot(path) + 1, path.len() as int))
    } else {
        None
    }
}

/// The language a file extension maps to:
/// `c`, `h` to C; `go` to Go; `js`, `jsx`, `mjs`, `cjs` to JavaScript;
/// `py` to Python; `rs` to Rust; `ts`, `mts`, `cts` to TypeScript.
pub open spec fn spec_lang_of_ext(ext: Seq<u8>) -> Option<Lang> {
    if ext.len() == 1 {
        if ext[0] == 99u8 || ext[0] == 104u8 {
            Some(Lang::C)
        } else {
            None
        }
    } else if ext.len() == 2 {
        if ext[0] == 103u8 && ext[1] == 111u8 {
            Some(Lang::Go)
        } else if ext[0] == 106u8 && ext[1] == 115u8 {
            Some(Lang::JavaScript)
        } else if ext[0] == 112u8 && ext[1] == 121u8 {
            Some(Lang::Python)
        } else if ext[0] == 114u8 && ext[1] == 115u8 {
            Some(Lang::Rust)
        } else if ext[0] == 116u8 && ext[1] == 115u8 {
            Some(Lang::TypeScript)
        } else {
            None
        }
    } else if ext.len() == 3 {
        if ext[1] == 106u8 && ext[2] == 115u8 && (ext[0] == 109u8 || ext[0] == 99u8) {
            Some(Lang::JavaScript)
        } else if ext[0] == 106u8 && ext[1] == 115u8 && ext[2] == 120u8 {
            Some(Lang::JavaScript)
        } else if ext[1] == 116u8 && ext[2] == 115u8 && (ext[0] == 109u8 || ext[0] == 99u8) {
            Some(Lang::TypeScript)
        } else {
            None
        }
    } else {
        None
    }
}

/// The language inferred for a path: the extension's language, if the path
/// has an extension that the library knows.
pub open spec fn spec_lang_of_path(path: Seq<u8>) -> Option<Lang> {
    match spec_extension(path) {
        Some(ext) => spec_lang_of_ext(ext),
        None => None,
    }
}

/// Finds the dot that starts the path's extension, scanning from the end:
/// the last `.` of the file name, unless it is the file name's first byte.
fn extension_dot(path: &Vec<u8>) -> (r: Option<usize>)
    ensures
        match r {
            Some(d) => is_ext_dot(path@, d as int),
            None => !has_extension(path@),
        },
{
    let n = path.len();
    let mut i: usize = n;
    while i > 0
        invariant
            0 <= i <= n,
            n == path@.len(),
            forall|j: int| i <= j < n ==> path@[j] != 46u8 && path@[j] != 47u8,
        decreases i,
    {
        i = i - 1;
        let b = path[i];
        if b == 47u8 {
            proof {
                assert forall|d: int| !is_ext_dot(path@, d) by {
                    if 1 <= d < path@.len() && path@[d] == 46u8 {
                        assert(d < i || d > i as int);
                        assert(d < i ==> path@[i as int] == 47u8 && i < path@.len());
                    }
                }
            }
            return None;
        }
        if b == 46u8 {
            if i >= 1 && path[i - 1] != 47u8 {
                return Some(i);
            }
            proof {
                assert forall|d: int| !is_ext_dot(path@, d) by {
                    if d > i as int {
                        assert(d < path@.len() ==> path@[d] != 46u8);
                    }
                    if 1 <= d < i as int {
                        assert(path@[i as int] == 46u8 && i < path@.len());
                    }
                }
            }
            return None;
        }
    }
    proof {
        assert forall|d: int| !is_ext_dot(path@, d) by {
            assert(1 <= d < path@.len() ==> path@[d] != 46u8);
        }
    }
    None
}

/// The path's extension as bytes, if it has one.
pub fn extension_of(path: &Vec<u8>) -> (r: Option<Vec<u8>>)
    ensures
        match r {
            Some(ext) => spec_extension(path@) == Some(ext@),
            None => spec_extension(path@) is None,
        },
{
    match extension_dot(path) {
        None => None,
        Some(d) => {
            let n = path.len();
            proof {
                assert(d < n);
            }
            let mut ext: Vec<u8> = Vec::new();
            let mut j: usize = d + 1;
            while j < path.len()
                invariant
                    d + 1 <= j <= path@.len(),
                    ext@ == path@.subrange(d + 1, j as int),
                decreases path@.len() - j,
            {
                ext.push(path[j]);
                proof {
                    assert(path@.subrange(d + 1, j + 1 as int)
                        =~= path@.subrange(d + 1, j as int) + seq![path@[j as int]]);
                }
                j = j + 1;
            }
            proof {
                let d0 = spec_ext_dot(path@);
                assert(is_ext_dot(path@, d as int));
                assert(is_ext_dot(path@, d0));
                assert(d0 == d as int) by {
                    if d0 < d as int {
                        assert(path@[d as int] == 46u8);
                    } else if d0 > d as int {
                        assert(path@[d0] == 46u8);
                    }
                }
            }
            Some(ext)
        },
    }
}

/// The language an extension maps to, if any.
pub fn lang_from_extension(ext: &Vec<u8>) -> (r: Option<Lang>)
    ensures
        r == spec_lang_of_ext(ext@),
{
    if ext.len() == 1 {
        if ext[0] == 99u8 || ext[0] == 104u8 {
            Some(Lang::C)
        } else {
            None
        }
    } else if ext.len() == 2 {
        if ext[0] == 103u8 && ext[1] == 111u8 {
            Some(Lang::Go)
        } else if ext[0] == 106u8 && ext[1] == 115u8 {
            Some(Lang::JavaScript)
        } else if ext[0] == 112u8 && ext[1] == 121u8 {
            Some(Lang::Python)
        } else if ext[0] == 114u8 && ext[1] == 115u8 {
            Some(Lang::Rust)
        } else if ext[0] == 116u8 && ext[1] == 115u8 {
            Some(Lang::TypeScript)
        } else {
            None
        }
    } else if ext.len() == 3 {
        if ext[1] == 106u8 && ext[2] == 115u8 && (ext[0] == 109u8 || ext[0] == 99u8) {
            Some(Lang::JavaScript)
        } else if ext[0] == 106u8 && ext[1] == 115u8 && ext[2] == 120u8 {
            Some(Lang::JavaScript)
        } else if ext[1] == 116u8 && ext[2] == 115u8 && (ext[0] == 109u8 || ext[0] == 99u8) {
            Some(Lang::TypeScript)
        } else {
            None
        }
    } else {
        None
    }
}

/// The language inferred for a file path, from its extension alone.
/// A path with no extension, or with one the library does not know,
/// yields no language and the file is skipped.
pub fn lang_of_path(path: &Vec<u8>) -> (r: Option<Lang>)
    ensures
        r == spec_lang_of_path(path@),
{
    match extension_of(path) {
        Some(ext) => lang_from_extension(&ext),
        None => None,
    }
}

/// The ad-hoc mode gate: whether the file's inferred language equals the
/// explicitly chosen one. A pattern is never tested against a file of
/// another language, even when the two grammars overlap.
pub fn path_has_lang(path: &Vec<u8>, lang: Lang) -> (r: bool)
    ensures
        r == (spec_lang_of_path(path@) == Some(lang)),
{
    match lang_of_path(path) {
        Some(l) => l == lang,
        None => false,
    }
}

} // verus!
