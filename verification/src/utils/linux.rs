//! Discovery of the engine's files on Linux.

use crate::utils::bytes::{
    c_string_end, contains_bytes, find_bytes, is_c_string_end, lemma_c_string_end_unique, matches_at,
    occurs_at,
};
use crate::utils::path::{
    ancestor_is_named, has_ancestor_named, is_split_of, join_path, path_join, split_text,
    string_views,
};
use vstd::prelude::*;
use vstd::slice::*;
use vstd::string::*;
use vstd::utf8::*;

verus! {

/// The bytes that every name of the engine's OpenGL library starts with.
pub open spec fn opengl_lib_stem() -> Seq<u8> {
    "libobs-opengl".spec_bytes()
}

/// The bytes that mark a shared object's file name.
pub open spec fn shared_object_mark() -> Seq<u8> {
    ".so".spec_bytes()
}

/// The NUL-terminated string `data[at..end]` names the OpenGL library: it
/// starts with the stem, is valid UTF-8 and mentions a shared object.
pub open spec fn names_opengl_lib(data: Seq<u8>, at: int, end: int) -> bool {
    &&& occurs_at(data, opengl_lib_stem(), at)
    &&& is_c_string_end(data, at, end)
    &&& valid_utf8(data.subrange(at, end))
    &&& contains_bytes(data.subrange(at, end), shared_object_mark())
}

/// `data[at..end]` is the first string in `data` that names the OpenGL library.
pub open spec fn is_first_opengl_lib_name(data: Seq<u8>, at: int, end: int) -> bool {
    &&& names_opengl_lib(data, at, end)
    &&& forall|j: int, e: int| 0 <= j < at ==> !#[trigger] names_opengl_lib(data, j, e)
}

/// `core::str::from_utf8`, with the string copied out: `Some` exactly for
/// bytes that are valid UTF-8, and then the text that they encode.
#[verifier::external_body]
fn utf8_to_string(bytes: &[u8]) -> (r: Option<String>)
    ensures
        r is Some <==> valid_utf8(bytes@),
        r matches Some(s) ==> s@ == decode_utf8(bytes@),
{
    match core::str::from_utf8(bytes) {
        Ok(s) => Some(s.to_string()),
        Err(_) => None,
    }
}

/// The file name of the engine's OpenGL library, read out of the contents of
/// the engine's binary: the first NUL-terminated string in it that starts
/// with `libobs-opengl`, is valid UTF-8 and contains `.so`. Where the binary
/// holds no such string (or is empty because it could not be read), the name
/// is `libobs-opengl.so`.
pub fn get_linux_opengl_lib_name(binary: &[u8]) -> (name: String)
    ensures
        forall|at: int, end: int| #[trigger]
            is_first_opengl_lib_name(binary@, at, end) ==> name@ == decode_utf8(
                binary@.subrange(at, end),
            ),
        (forall|at: int, end: int| !#[trigger] names_opengl_lib(binary@, at, end)) ==> name@
            == "libobs-opengl.so"@,
{
    let stem = "libobs-opengl".as_bytes();
    let mark = ".so".as_bytes();
    let mut at: usize = 0;
    while at < binary.len()
        invariant
            at <= binary.len(),
            stem@ == opengl_lib_stem(),
            mark@ == shared_object_mark(),
            forall|j: int, e: int| 0 <= j < at ==> !#[trigger] names_opengl_lib(binary@, j, e),
        decreases binary.len() - at,
    {
        if matches_at(binary, stem, at) {
            let end = c_string_end(binary, at);
            let candidate = slice_subrange(binary, at, end);
            let found = find_bytes(candidate, mark);
            if found.is_some() {
                match utf8_to_string(candidate) {
                    Some(name) => {
                        proof {
                            assert(contains_bytes(candidate@, mark@));
                            assert(names_opengl_lib(binary@, at as int, end as int));
                            assert forall|a: int, e: int| #[trigger]
                                is_first_opengl_lib_name(binary@, a, e) implies name@
                                == decode_utf8(binary@.subrange(a, e)) by {
                                if a < at {
                                    assert(!names_opengl_lib(binary@, a, e));
                                } else if a > at {
                                    assert(!names_opengl_lib(binary@, at as int, end as int));
                                } else {
                                    lemma_c_string_end_unique(binary@, a, e, end as int);
                                }
                            }
                        }
                        return name;
                    },
                    None => {},
                }
            }
            proof {
                assert forall|e: int| !#[trigger] names_opengl_lib(binary@, at as int, e) by {
                    if is_c_string_end(binary@, at as int, e) {
                        lemma_c_string_end_unique(binary@, at as int, e, end as int);
                    }
                }
            }
        }
        at += 1;
    }
    proof {
        assert forall|a: int, e: int| !#[trigger] names_opengl_lib(binary@, a, e) by {
            if a >= binary@.len() && occurs_at(binary@, opengl_lib_stem(), a) {
                reveal_strlit("libobs-opengl");
                assert(opengl_lib_stem().len() > 0) by {
                    lemma_stem_nonempty();
                }
            }
        }
    }
    "libobs-opengl.so".to_string()
}

/// A directory of the search path, with what was found in it.
#[derive(Clone, Debug)]
pub struct ProbedDir {
    /// The directory as the search path names it.
    pub dir: String,
    /// Whether the directory holds a file `.obs-wrapped`.
    pub has_wrapped: bool,
    /// Whether the directory holds a file `obs`.
    pub has_obs: bool,
}

/// The wrapped binary in the directory `dir`.
pub open spec fn wrapped_binary(dir: Seq<char>) -> Seq<char> {
    path_join(dir, ".obs-wrapped"@)
}

/// The plain binary in the directory `dir`.
pub open spec fn plain_binary(dir: Seq<char>) -> Seq<char> {
    path_join(dir, "obs"@)
}

/// The directory holds a wrapped binary that lies below a directory named
/// `nix`: such a binary is taken before any other.
pub open spec fn is_preferred(d: ProbedDir) -> bool {
    d.has_wrapped && has_ancestor_named(wrapped_binary(d.dir@), "nix"@)
}

/// The directories of the search path `search_path`, in its order.
pub fn search_path_dirs(search_path: &str) -> (dirs: Vec<String>)
    ensures
        is_split_of(string_views(dirs@), search_path@, ':'),
{
    split_text(search_path, ':')
}

/// Where the wrapped binary of the directory `dir` would lie.
pub fn wrapped_binary_in(dir: &str) -> (path: String)
    ensures
        path@ == wrapped_binary(dir@),
{
    join_path(dir, ".obs-wrapped")
}

/// Where the plain binary of the directory `dir` would lie.
pub fn plain_binary_in(dir: &str) -> (path: String)
    ensures
        path@ == plain_binary(dir@),
{
    join_path(dir, "obs")
}

/// The engine's binary, chosen among the directories of the search path: the
/// wrapped binary of the first directory that has one below a directory named
/// `nix`; where there is none, the plain binary of the first directory that
/// has one; and `/usr/bin/obs` where there is none either.
pub fn find_obs_binary(dirs: &Vec<ProbedDir>) -> (binary: String)
    ensures
        forall|i: int|
            0 <= i < dirs.len() && #[trigger] is_preferred(dirs[i]) && (forall|j: int|
                0 <= j < i ==> !is_preferred(dirs[j])) ==> binary@ == wrapped_binary(dirs[i].dir@),
        (forall|i: int| 0 <= i < dirs.len() ==> !is_preferred(dirs[i])) ==> {
            &&& forall|i: int|
                0 <= i < dirs.len() && (#[trigger] dirs[i]).has_obs && (forall|j: int|
                    0 <= j < i ==> !dirs[j].has_obs) ==> binary@ == plain_binary(dirs[i].dir@)
            &&& (forall|i: int| 0 <= i < dirs.len() ==> !dirs[i].has_obs) ==> binary@
                == "/usr/bin/obs"@
        },
{
    let mut fallback: Option<String> = None;
    let ghost mut chosen: int = -1;
    let mut i: usize = 0;
    while i < dirs.len()
        invariant
            i <= dirs.len(),
            forall|j: int| 0 <= j < i ==> !is_preferred(dirs[j]),
            fallback.is_none() ==> forall|j: int| 0 <= j < i ==> !dirs[j].has_obs,
            fallback matches Some(f) ==> {
                &&& 0 <= chosen < i
                &&& dirs[chosen].has_obs
                &&& forall|j: int| 0 <= j < chosen ==> !dirs[j].has_obs
                &&& f@ == plain_binary(dirs[chosen].dir@)
            },
        decreases dirs.len() - i,
    {
        if dirs[i].has_wrapped {
            let wrapped = wrapped_binary_in(dirs[i].dir.as_str());
            if ancestor_is_named(wrapped.as_str(), "nix") {
                assert(is_preferred(dirs[i as int]));
                return wrapped;
            }
        }
        if fallback.is_none() && dirs[i].has_obs {
            fallback = Some(plain_binary_in(dirs[i].dir.as_str()));
            proof {
                chosen = i as int;
            }
        }
        i += 1;
    }
    match fallback {
        Some(f) => f,
        None => "/usr/bin/obs".to_string(),
    }
}

/// The main loop that the platform's toolkit needs on Linux, with the
/// thread that runs it. The loop and the thread belong to the caller; this
/// records whether the thread is still to be joined.
#[derive(Debug)]
pub struct LinuxGlibLoop {
    joined: bool,
}

/// What is to be done to take a main loop down.
#[derive(Clone, Copy, Debug, PartialEq, Eq, Structural)]
pub struct LoopTeardown {
    /// Whether the loop is to be told to quit.
    pub quit: bool,
    /// Whether its thread is to be joined.
    pub join: bool,
}

/// What is made of the end of the loop's thread.
#[derive(Clone, Copy, Debug, PartialEq, Eq, Structural)]
pub enum JoinVerdict {
    /// The thread ended in good order.
    Clean,
    /// The thread had panicked. This is written to the log and goes no
    /// further: a teardown always completes.
    Logged,
}

impl LinuxGlibLoop {
    /// Whether the thread was joined.
    pub closed spec fn is_joined(&self) -> bool {
        self.joined
    }

    /// The record of a loop that was just started on a thread of its own.
    pub fn new() -> (glib_loop: LinuxGlibLoop)
        ensures
            !glib_loop.is_joined(),
    {
        LinuxGlibLoop { joined: false }
    }

    /// What is to be done now that the loop goes away: a loop that still
    /// runs is told to quit, and its thread is joined, once.
    pub fn teardown(&mut self, is_running: bool) -> (plan: LoopTeardown)
        ensures
            plan == (LoopTeardown { quit: is_running, join: !old(self).is_joined() }),
            final(self).is_joined(),
    {
        let join = !self.joined;
        self.joined = true;
        LoopTeardown { quit: is_running, join }
    }

    /// What is made of the end of the loop's thread.
    pub fn after_join(join_failed: bool) -> (verdict: JoinVerdict)
        ensures
            verdict == if join_failed {
                JoinVerdict::Logged
            } else {
                JoinVerdict::Clean
            },
    {
        if join_failed {
            JoinVerdict::Logged
        } else {
            JoinVerdict::Clean
        }
    }
}

proof fn lemma_stem_nonempty()
    ensures
        opengl_lib_stem().len() > 0,
{
    reveal_strlit("libobs-opengl");
    let chars = "libobs-opengl"@;
    assert(chars.len() == 13);
    encode_utf8_first_scalar(chars);
}

} // verus!
