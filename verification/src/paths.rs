//! A string-level model of the few path operations the tool needs:
//! splitting a path into directory and basename, splitting an extension
//! off a basename, joining a directory with a filename, and the sub-page
//! link derived from a source note and a clipboard title.
//!
//! The model reads a path as a plain character string, split at its last
//! slash, and on degenerate inputs this differs from an operating-system
//! path type that looks at components: a path that ends in a slash has an
//! empty basename here, and a final `.` or `..` counts as an ordinary
//! basename (`..` as a name whose extension is empty). Repeated slashes
//! are kept as written, so the directory part of `a//b` is `a/`, and
//! joining it back adds no second slash.

use vstd::prelude::*;

use crate::slug::spec_title_to_filename;
use crate::slug::title_to_filename;

verus! {

/// The largest index at which `c` occurs in `s`, or -1 when it does not
/// occur at all.
pub open spec fn last_index_of(s: Seq<char>, c: char) -> int
    decreases s.len(),
{
    if s.len() == 0 {
        -1
    } else if s[s.len() - 1] == c {
        s.len() - 1
    } else {
        last_index_of(s.drop_last(), c)
    }
}

/// `last_index_of` names the last occurrence: it stays inside the
/// sequence, points at `c` when it is nonnegative, and nothing after it
/// equals `c`.
pub proof fn lemma_last_index_of(s: Seq<char>, c: char)
    ensures
        -1 <= last_index_of(s, c) < s.len(),
        last_index_of(s, c) >= 0 ==> s[last_index_of(s, c)] == c,
        forall|j: int| last_index_of(s, c) < j < s.len() ==> s[j] != c,
    decreases s.len(),
{
    if s.len() > 0 && s[s.len() - 1] != c {
        lemma_last_index_of(s.drop_last(), c);
        assert(forall|j: int| 0 <= j < s.len() - 1 ==> s.drop_last()[j] == s[j]);
    }
}

/// The part of the path after its last slash; the whole path when it has
/// no slash.
pub open spec fn spec_basename(path: Seq<char>) -> Seq<char> {
    path.skip(last_index_of(path, '/') + 1)
}

/// The part of the path before its last slash: empty when there is no
/// slash, the root directory when the last slash is the first character.
pub open spec fn spec_dirname(path: Seq<char>) -> Seq<char> {
    let i = last_index_of(path, '/');
    if i == -1 {
        Seq::empty()
    } else if i == 0 {
        seq!['/']
    } else {
        path.subrange(0, i)
    }
}

/// A basename has an extension when it holds a period that is neither its
/// first character nor absent; the extension is everything after the last
/// period.
pub open spec fn has_extension(name: Seq<char>) -> bool {
    last_index_of(name, '.') > 0
}

/// The basename without its extension and without the period before it.
pub open spec fn spec_stem(name: Seq<char>) -> Seq<char> {
    name.subrange(0, last_index_of(name, '.'))
}

/// The extension of the basename, without the period before it.
pub open spec fn spec_extension(name: Seq<char>) -> Seq<char> {
    name.skip(last_index_of(name, '.') + 1)
}

/// A directory joined with a filename: the filename alone under an empty
/// directory, and otherwise the two with a single slash between them.
pub open spec fn spec_join(dir: Seq<char>, name: Seq<char>) -> Seq<char> {
    if dir.len() == 0 {
        name
    } else if dir[dir.len() - 1] == '/' {
        dir + name
    } else {
        dir + seq!['/'] + name
    }
}

fn rfind_char(s: &str, c: char) -> (r: Option<usize>)
    ensures
        match r {
            Some(i) => i as int == last_index_of(s@, c),
            None => last_index_of(s@, c) == -1,
        },
{
    let len = s.unicode_len();
    let mut j: usize = len;
    while j > 0
        invariant
            0 <= j <= len,
            len == s@.len(),
            forall|k: int| j <= k < len ==> s@[k] != c,
        decreases j,
    {
        j -= 1;
        if s.get_char(j) == c {
            proof {
                lemma_last_index_of(s@, c);
            }
            return Some(j);
        }
    }
    proof {
        lemma_last_index_of(s@, c);
    }
    None
}

/// Splits a path into its directory part and its basename. The path must
/// have a nonempty basename: the root directory, an empty path and a path
/// that ends in a slash have none in this model, while a final `.` or
/// `..` counts as a basename like any other.
pub fn split_basename(path: &str) -> (r: (String, String))
    requires
        spec_basename(path@).len() > 0,
    ensures
        r.0@ == spec_dirname(path@),
        r.1@ == spec_basename(path@),
{
    let len = path.unicode_len();
    proof {
        lemma_last_index_of(path@, '/');
    }
    match rfind_char(path, '/') {
        Some(i) => {
            let name = path.substring_char(i + 1, len).to_owned();
            let dir = if i == 0 {
                let d = String::from_str("/");
                proof {
                    reveal_strlit("/");
                    assert(d@ =~= seq!['/']);
                }
                d
            } else {
                path.substring_char(0, i).to_owned()
            };
            proof {
                assert(name@ =~= spec_basename(path@));
            }
            (dir, name)
        },
        None => {
            let name = path.to_owned();
            proof {
                assert(name@ =~= spec_basename(path@));
            }
            (String::new(), name)
        },
    }
}

/// Joins a directory with a filename as `spec_join` describes.
pub fn join_path(dir: &str, name: &str) -> (r: String)
    ensures
        r@ == spec_join(dir@, name@),
{
    let len = dir.unicode_len();
    if len == 0 {
        name.to_owned()
    } else if dir.get_char(len - 1) == '/' {
        dir.to_owned().concat(name)
    } else {
        let r = dir.to_owned().concat("/").concat(name);
        proof {
            reveal_strlit("/");
            assert(dir@ + "/"@ =~= dir@ + seq!['/']);
        }
        r
    }
}

/// The reasons the sub-page transform rejects a source path.
#[derive(Clone, Copy, PartialEq, Eq, Structural, Debug)]
pub enum SubpageError {
    /// The source path has no basename.
    NoFileName,
    /// The basename of the source path has no extension.
    NoExtension,
}

/// The path of the sub-page note: the source's directory joined with
/// `<stem of the source>.<slug of the title>.<extension of the source>`.
pub open spec fn spec_subpage_path(source: Seq<char>, title: Seq<char>) -> Seq<char> {
    let name = spec_basename(source);
    spec_join(
        spec_dirname(source),
        spec_stem(name) + seq!['.'] + spec_title_to_filename(title, spec_extension(name)),
    )
}

/// The markdown link to the sub-page: `[title](path)`.
pub open spec fn spec_subpage_link(source: Seq<char>, title: Seq<char>) -> Seq<char> {
    seq!['['] + title + seq![']', '('] + spec_subpage_path(source, title) + seq![')']
}

/// Builds the markdown link for a sub-page of `source` named after
/// `title`. Succeeds exactly when the source path has a basename and that
/// basename has an extension; each failure names what was missing. The
/// source is read as the module's string model describes, so a path
/// ending in a slash is `NoFileName`, a final `.` is `NoExtension`, and a
/// final `..` passes with an empty extension.
pub fn subpage_link(source: &str, title: &str) -> (r: Result<String, SubpageError>)
    ensures
        r is Ok <==> spec_basename(source@).len() > 0 && has_extension(spec_basename(source@)),
        r matches Ok(link) ==> link@ == spec_subpage_link(source@, title@),
        spec_basename(source@).len() == 0 ==> (r matches Err(e) && e == SubpageError::NoFileName),
        spec_basename(source@).len() > 0 && !has_extension(spec_basename(source@)) ==> (
        r matches Err(e) && e == SubpageError::NoExtension),
{
    let len = source.unicode_len();
    proof {
        lemma_last_index_of(source@, '/');
    }
    let name_start: usize = match rfind_char(source, '/') {
        Some(i) => i + 1,
        None => 0,
    };
    if name_start == len {
        return Err(SubpageError::NoFileName);
    }
    let name = source.substring_char(name_start, len);
    proof {
        assert(name@ =~= spec_basename(source@));
    }
    let name_len = len - name_start;
    let dot = match rfind_char(name, '.') {
        Some(j) if j > 0 => j,
        _ => {
            return Err(SubpageError::NoExtension);
        },
    };
    proof {
        lemma_last_index_of(name@, '.');
    }
    let stem = name.substring_char(0, dot);
    let ext = name.substring_char(dot + 1, name_len);
    proof {
        assert(stem@ =~= spec_stem(spec_basename(source@)));
        assert(ext@ =~= spec_extension(spec_basename(source@)));
    }
    let filename = title_to_filename(title, ext);
    let combined = stem.to_owned().concat(".").concat(filename.as_str());
    proof {
        reveal_strlit(".");
        assert(stem@ + "."@ =~= stem@ + seq!['.']);
    }
    let dir = if name_start == 0 {
        String::new()
    } else if name_start == 1 {
        let d = String::from_str("/");
        proof {
            reveal_strlit("/");
            assert(d@ =~= seq!['/']);
        }
        d
    } else {
        source.substring_char(0, name_start - 1).to_owned()
    };
    proof {
        assert(dir@ =~= spec_dirname(source@));
    }
    let full = join_path(dir.as_str(), combined.as_str());
    let link = String::from_str("[").concat(title).concat("](").concat(full.as_str()).concat(")");
    proof {
        reveal_strlit("[");
        reveal_strlit("](");
        reveal_strlit(")");
        assert(link@ =~= spec_subpage_link(source@, title@));
    }
    Ok(link)
}

} // verus!
