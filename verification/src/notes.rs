//! The note repository: the fixed root under the home directory, the
//! journal filter, relativization of scanned paths against the root, and
//! the first-line extraction applied to the picker's output.

use vstd::prelude::*;

use crate::text::contains_seq;
use crate::text::contains_sub;

verus! {

/// The notes root: the fixed directory under the home directory.
pub open spec fn spec_notes_dir(home: Seq<char>) -> Seq<char> {
    home + "/Notes/slipbox"@
}

/// Renders the notes root for the given home directory.
pub fn get_notes_dir(home: &str) -> (r: String)
    ensures
        r@ == spec_notes_dir(home@),
{
    home.to_owned().concat("/Notes/slipbox")
}

/// A note path survives the journal filter when it holds neither
/// "/journal" nor ".journal" as a substring.
pub open spec fn keeps_note(p: Seq<char>) -> bool {
    !contains_seq(p, "/journal"@) && !contains_seq(p, ".journal"@)
}

/// The journal filter applied to the first `n` entries, in order.
pub open spec fn spec_filter_upto(files: Seq<String>, n: int) -> Seq<String>
    decreases n,
{
    if n <= 0 {
        Seq::empty()
    } else {
        let prefix = spec_filter_upto(files, n - 1);
        if keeps_note(files[n - 1]@) {
            prefix.push(files[n - 1])
        } else {
            prefix
        }
    }
}

/// The journal filter applied to a whole list.
pub open spec fn spec_filter_notes(files: Seq<String>) -> Seq<String> {
    spec_filter_upto(files, files.len() as int)
}

/// Applies the journal filter when asked to; otherwise hands the list back
/// unchanged. With the filter on, no returned path holds "/journal" or
/// ".journal" as a substring.
pub fn filter_notes(files: Vec<String>, exclude_journal: bool) -> (r: Vec<String>)
    ensures
        exclude_journal ==> r@ == spec_filter_notes(files@),
        !exclude_journal ==> r@ == files@,
        exclude_journal ==> forall|k: int| 0 <= k < r@.len() ==> keeps_note(r@[k]@),
{
    if !exclude_journal {
        return files;
    }
    let mut out: Vec<String> = Vec::new();
    let n = files.len();
    let mut i: usize = 0;
    while i < n
        invariant
            0 <= i <= n,
            n == files@.len(),
            out@ == spec_filter_upto(files@, i as int),
            forall|k: int| 0 <= k < out@.len() ==> keeps_note(out@[k]@),
        decreases n - i,
    {
        let journal_dir = contains_sub(files[i].as_str(), "/journal");
        let journal_file = contains_sub(files[i].as_str(), ".journal");
        if !journal_dir && !journal_file {
            out.push(files[i].clone());
        }
        i += 1;
    }
    out
}

/// The path lies under the root: it begins with the root followed by a
/// slash, and something follows.
pub open spec fn spec_is_under(path: Seq<char>, root: Seq<char>) -> bool {
    &&& path.len() > root.len()
    &&& path.subrange(0, root.len() as int) == root
    &&& path[root.len() as int] == '/'
}

/// The path relative to the root: what follows the root and its slash.
pub open spec fn spec_relative(path: Seq<char>, root: Seq<char>) -> Seq<char> {
    path.skip(root.len() as int + 1)
}

/// A relative path joined back onto the root.
pub open spec fn spec_join_root(root: Seq<char>, rel: Seq<char>) -> Seq<char> {
    root + seq!['/'] + rel
}

/// Relativization round-trips: joining the relative form of a path back
/// onto the root reproduces the path, for every path under the root.
pub proof fn lemma_relative_roundtrip(path: Seq<char>, root: Seq<char>)
    requires
        spec_is_under(path, root),
    ensures
        spec_join_root(root, spec_relative(path, root)) == path,
{
    assert(spec_join_root(root, spec_relative(path, root)) =~= path);
}

/// Strips the root and its trailing slash off a path. Returns the
/// relative remainder exactly when the path lies under the root.
pub fn strip_root(path: &str, root: &str) -> (r: Option<String>)
    ensures
        r is Some <==> spec_is_under(path@, root@),
        r matches Some(s) ==> s@ == spec_relative(path@, root@),
{
    let plen = path.unicode_len();
    let rlen = root.unicode_len();
    if plen <= rlen {
        return None;
    }
    let mut i: usize = 0;
    while i < rlen
        invariant
            0 <= i <= rlen,
            rlen == root@.len(),
            plen == path@.len(),
            rlen < plen,
            forall|k: int| 0 <= k < i ==> path@[k] == root@[k],
        decreases rlen - i,
    {
        if path.get_char(i) != root.get_char(i) {
            proof {
                assert(path@.subrange(0, rlen as int)[i as int] != root@[i as int]);
            }
            return None;
        }
        i += 1;
    }
    if path.get_char(rlen) != '/' {
        return None;
    }
    let s = path.substring_char(rlen + 1, plen).to_owned();
    proof {
        assert(path@.subrange(0, rlen as int) =~= root@);
        assert(s@ =~= spec_relative(path@, root@));
    }
    Some(s)
}

/// Joins a path relative to the notes root back onto the root.
pub fn join_root(root: &str, rel: &str) -> (r: String)
    ensures
        r@ == spec_join_root(root@, rel@),
{
    let r = root.to_owned().concat("/").concat(rel);
    proof {
        reveal_strlit("/");
        assert(root@ + "/"@ =~= root@ + seq!['/']);
    }
    r
}

/// Relativizes a whole scan result against the root, keeping the order.
/// Every path handed in must lie under the root.
pub fn relativize_notes(paths: Vec<String>, root: &str) -> (r: Vec<String>)
    requires
        forall|k: int| 0 <= k < paths@.len() ==> spec_is_under(paths@[k]@, root@),
    ensures
        r@.len() == paths@.len(),
        forall|k: int| 0 <= k < r@.len() ==> r@[k]@ == spec_relative(paths@[k]@, root@),
        forall|k: int| 0 <= k < r@.len() ==> spec_join_root(root@, r@[k]@) == paths@[k]@,
{
    proof {
        assert forall|k: int| 0 <= k < paths@.len() implies spec_join_root(
            root@,
            spec_relative(paths@[k]@, root@),
        ) == paths@[k]@ by {
            lemma_relative_roundtrip(paths@[k]@, root@);
        }
    }
    let mut out: Vec<String> = Vec::new();
    let n = paths.len();
    let mut i: usize = 0;
    while i < n
        invariant
            0 <= i <= n,
            n == paths@.len(),
            forall|k: int| 0 <= k < paths@.len() ==> spec_is_under(paths@[k]@, root@),
            out@.len() == i,
            forall|k: int| 0 <= k < i ==> out@[k]@ == spec_relative(paths@[k]@, root@),
        decreases n - i,
    {
        match strip_root(paths[i].as_str(), root) {
            Some(rel) => out.push(rel),
            None => {
                proof {
                    assert(spec_is_under(paths@[i as int]@, root@));
                    assert(false);
                }
                out.push(String::new());
            },
        }
        i += 1;
    }
    out
}

/// The index of the first newline in `s`, or the length of `s` when it
/// has none.
pub open spec fn first_newline(s: Seq<char>, i: int) -> int
    decreases s.len() - i,
{
    if i < 0 || i >= s.len() {
        s.len() as int
    } else if s[i] == '\n' {
        i
    } else {
        first_newline(s, i + 1)
    }
}

/// The prefix of `s` up to, and without, its first newline; all of `s`
/// when it has none.
pub open spec fn spec_first_line(s: Seq<char>) -> Seq<char> {
    s.subrange(0, first_newline(s, 0))
}

/// The first line of the picker's output: what stands before the first
/// newline.
pub fn first_line(s: &str) -> (r: String)
    ensures
        r@ == spec_first_line(s@),
{
    let len = s.unicode_len();
    let mut i: usize = 0;
    while i < len && s.get_char(i) != '\n'
        invariant
            0 <= i <= len,
            len == s@.len(),
            first_newline(s@, 0) == first_newline(s@, i as int),
        decreases len - i,
    {
        i += 1;
    }
    let r = s.substring_char(0, i).to_owned();
    r
}

} // verus!
