//! File-system paths as text. What a path's parent, file name or ancestors are
//! is decided by `std::path`; this module gives those answers names that
//! contracts can speak of, and adds the splitting of a search path.

use vstd::prelude::*;
use vstd::string::*;

verus! {

/// What `std::path::Path::parent` returns for the path written `path`.
pub uninterp spec fn path_parent(path: Seq<char>) -> Option<Seq<char>>;

/// What `std::path::Path::file_name` returns for the path written `path`.
pub uninterp spec fn path_file_name(path: Seq<char>) -> Option<Seq<char>>;

/// What `std::path::Path::join` returns for the path written `base` and the
/// path written `part`.
pub uninterp spec fn path_join(base: Seq<char>, part: Seq<char>) -> Seq<char>;

/// What `std::path::Path::ancestors` yields for the path written `path`, in
/// the order in which it yields it.
pub uninterp spec fn path_ancestors(path: Seq<char>) -> Seq<Seq<char>>;

/// The text of each string of `strings`.
pub open spec fn string_views(strings: Seq<String>) -> Seq<Seq<char>> {
    Seq::new(strings.len(), |i: int| strings[i]@)
}

/// `std::path::Path::parent` on text: the path without its final component,
/// or `None` where the path ends in a root or is empty.
#[verifier::external_body]
pub(crate) fn parent_of(path: &str) -> (r: Option<String>)
    ensures
        match r {
            Some(p) => path_parent(path@) == Some(p@),
            None => path_parent(path@).is_none(),
        },
{
    match std::path::Path::new(path).parent() {
        Some(p) => Some(p.to_string_lossy().into_owned()),
        None => None,
    }
}

/// `std::path::Path::file_name` on text: the final component of the path, or
/// `None` where the path ends in `..` or has no component.
#[verifier::external_body]
pub(crate) fn file_name_of(path: &str) -> (r: Option<String>)
    ensures
        match r {
            Some(n) => path_file_name(path@) == Some(n@),
            None => path_file_name(path@).is_none(),
        },
{
    match std::path::Path::new(path).file_name() {
        Some(n) => Some(n.to_string_lossy().into_owned()),
        None => None,
    }
}

/// `std::path::Path::join` on text: `part` adjoined to `base`.
#[verifier::external_body]
pub(crate) fn join_path(base: &str, part: &str) -> (r: String)
    ensures
        r@ == path_join(base@, part@),
{
    std::path::Path::new(base).join(part).to_string_lossy().into_owned()
}

/// `std::path::Path::ancestors` on text: the path itself, then its parent,
/// that parent's parent and so on, each written out.
#[verifier::external_body]
pub(crate) fn ancestors_of(path: &str) -> (r: Vec<String>)
    ensures
        string_views(r@) == path_ancestors(path@),
{
    std::path::Path::new(path).ancestors().map(|a| a.to_string_lossy().into_owned()).collect()
}

/// Some ancestor of `path` (the path itself counts) has the file name `name`.
pub open spec fn has_ancestor_named(path: Seq<char>, name: Seq<char>) -> bool {
    exists|i: int|
        0 <= i < path_ancestors(path).len() && #[trigger] path_file_name(path_ancestors(path)[i])
            == Some(name)
}

/// Tests whether some ancestor of `path` has the file name `name`.
pub fn ancestor_is_named(path: &str, name: &str) -> (r: bool)
    ensures
        r == has_ancestor_named(path@, name@),
{
    let ancestors = ancestors_of(path);
    let wanted = name.to_string();
    let mut i: usize = 0;
    while i < ancestors.len()
        invariant
            i <= ancestors.len(),
            wanted@ == name@,
            string_views(ancestors@) == path_ancestors(path@),
            forall|k: int|
                0 <= k < i ==> #[trigger] path_file_name(path_ancestors(path@)[k]) != Some(name@),
        decreases ancestors.len() - i,
    {
        assert(path_ancestors(path@)[i as int] == ancestors@[i as int]@) by {
            assert(string_views(ancestors@)[i as int] == ancestors@[i as int]@);
        }
        match file_name_of(ancestors[i].as_str()) {
            Some(n) => {
                if n == wanted {
                    assert(path_file_name(path_ancestors(path@)[i as int]) == Some(name@));
                    return true;
                }
            },
            None => {},
        }
        i += 1;
    }
    false
}

/// The pieces of `pieces` written one after the other, each followed by `sep`.
pub open spec fn concat_terminated(pieces: Seq<Seq<char>>, sep: char) -> Seq<char>
    decreases pieces.len(),
{
    if pieces.len() == 0 {
        Seq::empty()
    } else {
        concat_terminated(pieces.drop_last(), sep) + pieces.last() + seq![sep]
    }
}

/// `pieces` is what `text` falls into when it is cut at every `sep`: written
/// one after the other with a `sep` between neighbours the pieces give back
/// `text`, and no piece holds a `sep`.
pub open spec fn is_split_of(pieces: Seq<Seq<char>>, text: Seq<char>, sep: char) -> bool {
    &&& pieces.len() >= 1
    &&& concat_terminated(pieces.drop_last(), sep) + pieces.last() == text
    &&& forall|i: int, j: int|
        0 <= i < pieces.len() && 0 <= j < pieces[i].len() ==> #[trigger] pieces[i][j] != sep
}

/// Cuts `text` at every `sep`. An empty text gives one empty piece, and a
/// `sep` at either end gives an empty piece there.
pub fn split_text(text: &str, sep: char) -> (pieces: Vec<String>)
    ensures
        is_split_of(string_views(pieces@), text@, sep),
{
    let n = text.unicode_len();
    let mut pieces: Vec<String> = Vec::new();
    let mut start: usize = 0;
    let mut i: usize = 0;
    while i < n
        invariant
            n == text@.len(),
            start <= i <= n,
            concat_terminated(string_views(pieces@), sep) == text@.subrange(0, start as int),
            forall|k: int| start <= k < i ==> text@[k] != sep,
            forall|a: int, b: int|
                0 <= a < pieces@.len() && 0 <= b < pieces@[a]@.len() ==> #[trigger] string_views(
                    pieces@,
                )[a][b] != sep,
        decreases n - i,
    {
        if text.get_char(i) == sep {
            let piece = text.substring_char(start, i).to_string();
            let ghost before = string_views(pieces@);
            pieces.push(piece);
            proof {
                let after = string_views(pieces@);
                assert(after.drop_last() =~= before);
                assert(after.last() == text@.subrange(start as int, i as int));
                assert(concat_terminated(after, sep) =~= text@.subrange(0, i + 1));
                assert forall|a: int, b: int|
                    0 <= a < pieces@.len() && 0 <= b < pieces@[a]@.len() implies #[trigger] after[a][b]
                    != sep by {
                    if a < before.len() {
                        assert(after[a] == before[a]);
                    }
                }
            }
            start = i + 1;
        }
        i += 1;
    }
    let last = text.substring_char(start, n).to_string();
    let ghost before = string_views(pieces@);
    pieces.push(last);
    proof {
        let after = string_views(pieces@);
        assert(after.drop_last() =~= before);
        assert(after.last() == text@.subrange(start as int, n as int));
        assert(concat_terminated(after.drop_last(), sep) + after.last() =~= text@);
        assert forall|a: int, b: int|
            0 <= a < after.len() && 0 <= b < after[a].len() implies #[trigger] after[a][b]
            != sep by {
            if a < before.len() {
                assert(after[a] == before[a]);
            }
        }
    }
    pieces
}

} // verus!
