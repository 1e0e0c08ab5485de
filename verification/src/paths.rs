//! Artifact and executable paths, and the host build command lines, derived
//! deterministically from the input file's path and the backend.
//!
//! A path is modelled as its text. The emitted artifact sits beside the input
//! file: its extension is replaced by the target's source extension, so
//! different targets on one input produce sibling files distinguished only by
//! extension, and a repeated run with the same target overwrites its own
//! artifact. The compiled executable's path extends the artifact's extension
//! with an executable marker.

use vstd::prelude::*;

use crate::backend::Backend;

verus! {

/// The index of the dot that starts `p`'s extension, or `-1` when `p` has
/// none. The dot must lie inside the last path component (no `/` after it)
/// and must not be that component's first character, so a leading-dot file
/// name has no extension.
pub open spec fn ext_dot(p: Seq<char>) -> int
    decreases p.len(),
{
    if p.len() == 0 {
        -1
    } else {
        let last = p.len() - 1;
        if p[last] == '/' {
            -1
        } else if p[last] == '.' {
            if last == 0 || p[last - 1] == '/' {
                -1
            } else {
                last
            }
        } else {
            ext_dot(p.take(last))
        }
    }
}

/// `p` without its extension and without the dot that started it.
pub open spec fn spec_stem(p: Seq<char>) -> Seq<char> {
    if ext_dot(p) == -1 {
        p
    } else {
        p.take(ext_dot(p))
    }
}

/// `p` with its extension replaced by `e` (or `.e` appended when `p` has
/// no extension).
pub open spec fn with_ext(p: Seq<char>, e: Seq<char>) -> Seq<char> {
    spec_stem(p) + "."@ + e
}

/// The dot that starts the extension lies strictly inside `p`.
proof fn lemma_ext_dot_range(p: Seq<char>)
    ensures
        ext_dot(p) == -1 || (1 <= ext_dot(p) < p.len()),
    decreases p.len(),
{
    if p.len() > 0 {
        lemma_ext_dot_range(p.take(p.len() - 1));
    }
}

/// Find the dot that starts `path`'s extension.
fn ext_dot_index(path: &str) -> (r: Option<usize>)
    ensures
        match r {
            Some(d) => ext_dot(path@) == d as int && d < path@.len(),
            None => ext_dot(path@) == -1,
        },
{
    let n = path.unicode_len();
    let mut i: usize = n;
    proof {
        assert(path@.take(n as int) =~= path@);
    }
    while i > 0
        invariant
            i <= n,
            n == path@.len(),
            ext_dot(path@) == ext_dot(path@.take(i as int)),
        decreases i,
    {
        let c = path.get_char(i - 1);
        proof {
            assert(path@.take(i as int)[i - 1] == c);
        }
        if c == '/' {
            return None;
        }
        if c == '.' {
            if i == 1 {
                return None;
            }
            let prev = path.get_char(i - 2);
            proof {
                assert(path@.take(i as int)[i - 2] == prev);
            }
            if prev == '/' {
                return None;
            }
            proof {
                lemma_ext_dot_range(path@);
            }
            return Some(i - 1);
        }
        proof {
            assert(path@.take(i as int).take(i - 1) =~= path@.take(i - 1));
        }
        i = i - 1;
    }
    None
}

/// Replace `path`'s extension by `ext`, as [`with_ext`] describes.
pub fn set_extension(path: &str, ext: &str) -> (r: String)
    ensures
        r@ == with_ext(path@, ext@),
{
    let n = path.unicode_len();
    let stem_end = match ext_dot_index(path) {
        Some(d) => d,
        None => n,
    };
    let stem_str = path.substring_char(0, stem_end);
    proof {
        assert(stem_str@ =~= spec_stem(path@));
    }
    let mut r = String::from_str(stem_str);
    r.append(".");
    r.append(ext);
    r
}

/// The path of the artifact one translation pass writes: the input path with
/// the backend's source extension.
pub fn artifact_path(input: &str, b: Backend) -> (r: String)
    ensures
        r@ == with_ext(input@, b.spec_extension()),
{
    set_extension(input, b.extension())
}

/// The path of the executable the host toolchain is asked to produce: the
/// artifact path with the backend's executable-marker extension.
pub fn executable_path(artifact: &str, b: Backend) -> (r: String)
    ensures
        r@ == with_ext(artifact@, b.spec_exe_extension()),
{
    set_extension(artifact, b.exe_extension())
}

/// The argument list (program first) that builds the artifact at `p` with
/// the target's own toolchain, optimization enabled where the target
/// supports it, the executable placed at the derived executable path.
pub open spec fn spec_compile_command(b: Backend, p: Seq<char>) -> Seq<Seq<char>> {
    match b {
        Backend::C => seq!["cc"@, p, "-O3"@, "-o"@, with_ext(p, b.spec_exe_extension())],
        Backend::Go => seq!["go"@, "build"@, "-o"@, with_ext(p, b.spec_exe_extension()), p],
    }
}

/// Build the host compile command for the artifact at `artifact`.
pub fn compile_command(b: Backend, artifact: &str) -> (r: Vec<String>)
    ensures
        r.deep_view() == spec_compile_command(b, artifact@),
{
    let out = executable_path(artifact, b);
    let mut r: Vec<String> = Vec::new();
    match b {
        Backend::C => {
            r.push(String::from_str("cc"));
            r.push(String::from_str(artifact));
            r.push(String::from_str("-O3"));
            r.push(String::from_str("-o"));
            r.push(out);
        },
        Backend::Go => {
            r.push(String::from_str("go"));
            r.push(String::from_str("build"));
            r.push(String::from_str("-o"));
            r.push(out);
            r.push(String::from_str(artifact));
        },
    }
    proof {
        assert(r.deep_view() =~= spec_compile_command(b, artifact@));
    }
    r
}

/// Fan-out safety: one input translated for two distinct targets yields two
/// distinct artifact paths, and two distinct executable paths, so the runs
/// never interfere on disk.
pub proof fn lemma_artifact_paths_distinct(p: Seq<char>, a: Backend, b: Backend)
    requires
        a != b,
    ensures
        with_ext(p, a.spec_extension()) != with_ext(p, b.spec_extension()),
        with_ext(p, a.spec_exe_extension()) != with_ext(p, b.spec_exe_extension()),
{
    reveal_strlit("c");
    reveal_strlit("go");
    reveal_strlit("c.exe");
    reveal_strlit("go.exe");
    assert("c"@.len() == 1);
    assert("go"@.len() == 2);
    assert("c.exe"@.len() == 5);
    assert("go.exe"@.len() == 6);
    assert(with_ext(p, a.spec_extension()).len() != with_ext(p, b.spec_extension()).len());
    assert(with_ext(p, a.spec_exe_extension()).len() != with_ext(p, b.spec_exe_extension()).len());
}

} // verus!
