//! The title-to-filename slug transform: a clipboard title becomes a
//! filesystem-safe filename with the given extension.
//!
//! Scanning the title left to right: the three-character group " / "
//! becomes a single period; each run of the separator characters space,
//! colon, comma and period becomes a single dash; a bare slash becomes a
//! period; every other character is kept, ASCII-lowercased. The extension
//! is appended after a final period.

use vstd::prelude::*;

use crate::text::lower_char;
use crate::text::lower_char_exec;
use crate::text::push_char;

verus! {

/// The characters that a slug replaces with a dash.
pub open spec fn is_separator(c: char) -> bool {
    c == ' ' || c == ':' || c == ',' || c == '.'
}

/// The three-character group " / " stands at position `i`.
pub open spec fn slash_gap_at(s: Seq<char>, i: int) -> bool {
    &&& i + 3 <= s.len()
    &&& s[i] == ' '
    &&& s[i + 1] == '/'
    &&& s[i + 2] == ' '
}

/// The slug of the suffix of `s` that starts at `i`. `in_run` records
/// whether the character just before `i` was consumed as part of a
/// separator run, whose dash has then already been emitted.
pub open spec fn slug_from(s: Seq<char>, i: int, in_run: bool) -> Seq<char>
    decreases s.len() - i,
{
    if i < 0 || i >= s.len() {
        Seq::empty()
    } else if slash_gap_at(s, i) {
        seq!['.'] + slug_from(s, i + 3, false)
    } else if is_separator(s[i]) {
        if in_run {
            slug_from(s, i + 1, true)
        } else {
            seq!['-'] + slug_from(s, i + 1, true)
        }
    } else if s[i] == '/' {
        seq!['.'] + slug_from(s, i + 1, false)
    } else {
        seq![lower_char(s[i])] + slug_from(s, i + 1, false)
    }
}

/// The slug of a whole title.
pub open spec fn spec_slug(title: Seq<char>) -> Seq<char> {
    slug_from(title, 0, false)
}

/// The filename derived from a title and an extension: the slug of the
/// title, a period, and the extension.
pub open spec fn spec_title_to_filename(title: Seq<char>, ext: Seq<char>) -> Seq<char> {
    spec_slug(title) + seq!['.'] + ext
}

/// Derives a filesystem-safe filename from a title and an extension.
pub fn title_to_filename(title: &str, ext: &str) -> (r: String)
    ensures
        r@ == spec_title_to_filename(title@, ext@),
{
    let len = title.unicode_len();
    let mut out = String::new();
    let mut i: usize = 0;
    let mut in_run: bool = false;
    while i < len
        invariant
            0 <= i <= len,
            len == title@.len(),
            out@ + slug_from(title@, i as int, in_run) == spec_slug(title@),
        decreases len - i,
    {
        let ghost prev_out = out@;
        let ghost prev_i = i as int;
        let ghost prev_run = in_run;
        let c = title.get_char(i);
        if len - i >= 3 && c == ' ' && title.get_char(i + 1) == '/' && title.get_char(i + 2) == ' '
        {
            push_char(&mut out, '.');
            i += 3;
            in_run = false;
            proof {
                assert(slash_gap_at(title@, prev_i));
                assert(prev_out.push('.') =~= prev_out + seq!['.']);
                assert((prev_out + seq!['.']) + slug_from(title@, i as int, in_run) =~= prev_out
                    + (seq!['.'] + slug_from(title@, i as int, in_run)));
            }
        } else if c == ' ' || c == ':' || c == ',' || c == '.' {
            if !in_run {
                push_char(&mut out, '-');
            }
            i += 1;
            in_run = true;
            proof {
                assert(!slash_gap_at(title@, prev_i));
                if !prev_run {
                    assert(prev_out.push('-') =~= prev_out + seq!['-']);
                    assert((prev_out + seq!['-']) + slug_from(title@, i as int, in_run) =~= prev_out
                        + (seq!['-'] + slug_from(title@, i as int, in_run)));
                }
            }
        } else if c == '/' {
            push_char(&mut out, '.');
            i += 1;
            in_run = false;
            proof {
                assert(prev_out.push('.') =~= prev_out + seq!['.']);
                assert((prev_out + seq!['.']) + slug_from(title@, i as int, in_run) =~= prev_out
                    + (seq!['.'] + slug_from(title@, i as int, in_run)));
            }
        } else {
            let lc = lower_char_exec(c);
            push_char(&mut out, lc);
            i += 1;
            in_run = false;
            proof {
                assert(prev_out.push(lower_char(title@[prev_i])) =~= prev_out + seq![
                    lower_char(title@[prev_i]),
                ]);
                assert((prev_out + seq![lower_char(title@[prev_i])]) + slug_from(
                    title@,
                    i as int,
                    in_run,
                ) =~= prev_out + (seq![lower_char(title@[prev_i])] + slug_from(
                    title@,
                    i as int,
                    in_run,
                )));
            }
        }
    }
    proof {
        assert(out@ + slug_from(title@, len as int, in_run) =~= out@);
    }
    push_char(&mut out, '.');
    let r = out.concat(ext);
    proof {
        assert(spec_slug(title@).push('.') =~= spec_slug(title@) + seq!['.']);
    }
    r
}

} // verus!
