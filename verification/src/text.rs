//! Path text as a sequence of characters: the separator, the split at the
//! last separator, and the segments that lie between separators.

use crate::chars::{append_chars, chars_of};
use vstd::prelude::*;

verus! {

/// The character that separates the components of a path text.
pub const MAIN_SEPARATOR: char = '/';

/// A path text begins at the root when its first character is the separator.
pub open spec fn has_root(s: Seq<char>) -> bool {
    s.len() > 0 && s[0] == MAIN_SEPARATOR
}

/// No separator occurs in `s`.
pub open spec fn separator_free(s: Seq<char>) -> bool {
    forall|i: int| 0 <= i < s.len() ==> s[i] != MAIN_SEPARATOR
}

/// The length of the directory part of `s`: everything up to and including
/// the last separator, nothing where `s` holds no separator.
pub open spec fn dir_len(s: Seq<char>) -> nat
    decreases s.len(),
{
    if s.len() == 0 || s.last() == MAIN_SEPARATOR {
        s.len()
    } else {
        dir_len(s.drop_last())
    }
}

/// The directory part of `s`: empty, or ending in the last separator of `s`.
pub open spec fn dir_part(s: Seq<char>) -> Seq<char> {
    s.take(dir_len(s) as int)
}

/// What follows the last separator of `s`; all of `s` where there is none.
pub open spec fn file_part(s: Seq<char>) -> Seq<char> {
    s.skip(dir_len(s) as int)
}

/// The segments of `s`: its maximal separator-free runs that are not empty,
/// from left to right. Runs of separators collapse and a trailing separator
/// adds nothing.
pub open spec fn segments(s: Seq<char>) -> Seq<Seq<char>>
    decreases s.len(),
    via segments_decreases
{
    if s.len() == 0 {
        Seq::empty()
    } else if s.last() == MAIN_SEPARATOR {
        segments(s.drop_last())
    } else {
        segments(dir_part(s)).push(file_part(s))
    }
}

#[via_fn]
proof fn segments_decreases(s: Seq<char>) {
    if s.len() > 0 && s.last() != MAIN_SEPARATOR {
        lemma_dir_len(s.drop_last());
    }
}

/// `dir_len(s)` marks the last separator of `s`: the character before it is
/// a separator (or it is 0), and none follows.
pub proof fn lemma_dir_len(s: Seq<char>)
    ensures
        dir_len(s) <= s.len(),
        dir_len(s) > 0 ==> s[dir_len(s) - 1] == MAIN_SEPARATOR,
        forall|i: int| dir_len(s) <= i < s.len() ==> s[i] != MAIN_SEPARATOR,
    decreases s.len(),
{
    if s.len() > 0 && s.last() != MAIN_SEPARATOR {
        let r = s.drop_last();
        lemma_dir_len(r);
        assert forall|i: int| dir_len(s) <= i < s.len() implies s[i] != MAIN_SEPARATOR by {
            if i < r.len() {
                assert(r[i] == s[i]);
            }
        }
    }
}

/// The position described by `lemma_dir_len` is the only one of its kind.
pub proof fn lemma_dir_len_unique(s: Seq<char>, k: int)
    requires
        0 <= k <= s.len(),
        k > 0 ==> s[k - 1] == MAIN_SEPARATOR,
        forall|i: int| k <= i < s.len() ==> s[i] != MAIN_SEPARATOR,
    ensures
        dir_len(s) == k,
    decreases s.len(),
{
    if s.len() > 0 && s.last() != MAIN_SEPARATOR {
        lemma_dir_len_unique(s.drop_last(), k);
    }
}

/// The two parts put together give the text back; the file part holds no
/// separator.
pub proof fn lemma_dir_file_parts(s: Seq<char>)
    ensures
        dir_part(s) + file_part(s) == s,
        separator_free(file_part(s)),
        dir_part(s).len() == 0 || dir_part(s).last() == MAIN_SEPARATOR,
{
    lemma_dir_len(s);
}

/// A separator at the end adds no segment.
pub proof fn lemma_segments_push_separator(s: Seq<char>)
    ensures
        segments(s.push(MAIN_SEPARATOR)) == segments(s),
{
    assert(s.push(MAIN_SEPARATOR).drop_last() =~= s);
}

/// A separator-free run after a separator (or at the start) is one more
/// segment.
pub proof fn lemma_segments_push_run(s: Seq<char>, t: Seq<char>)
    requires
        s.len() == 0 || s.last() == MAIN_SEPARATOR,
        t.len() > 0,
        separator_free(t),
    ensures
        segments(s + t) == segments(s).push(t),
        dir_part(s + t) == s,
        file_part(s + t) == t,
{
    let st = s + t;
    lemma_dir_len_unique(st, s.len() as int);
    assert(dir_part(st) =~= s);
    assert(file_part(st) =~= t);
}

/// Every segment is a non-empty separator-free run.
pub proof fn lemma_segments_are_runs(s: Seq<char>)
    ensures
        forall|i: int|
            0 <= i < segments(s).len() ==> (#[trigger] segments(s)[i]).len() > 0 && separator_free(
                segments(s)[i],
            ),
    decreases s.len(),
{
    if s.len() > 0 && s.last() == MAIN_SEPARATOR {
        lemma_segments_are_runs(s.drop_last());
        assert(segments(s) == segments(s.drop_last()));
    } else if s.len() > 0 {
        lemma_dir_file_parts(s);
        lemma_dir_len(s.drop_last());
        lemma_segments_are_runs(dir_part(s));
        assert(segments(s) == segments(dir_part(s)).push(file_part(s)));
    }
}

/// Only a text made of separators alone has no segment.
pub proof fn lemma_segments_none(s: Seq<char>)
    ensures
        segments(s).len() == 0 <==> forall|i: int| 0 <= i < s.len() ==> s[i] == MAIN_SEPARATOR,
    decreases s.len(),
{
    if s.len() > 0 && s.last() == MAIN_SEPARATOR {
        let r = s.drop_last();
        lemma_segments_none(r);
        if segments(r).len() == 0 {
            assert forall|i: int| 0 <= i < s.len() implies s[i] == MAIN_SEPARATOR by {
                if i < r.len() {
                    assert(r[i] == s[i]);
                }
            }
        } else {
            let i = choose|i: int| 0 <= i < r.len() && r[i] != MAIN_SEPARATOR;
            assert(s[i] == r[i]);
        }
    }
}

/// `t` pushed onto `base` as one path is pushed onto another. A text that
/// begins at the root takes the place of `base`. Any other text follows
/// `base`, behind one separator unless `base` is empty or ends in a
/// separator already.
pub open spec fn push_text(base: Seq<char>, t: Seq<char>) -> Seq<char> {
    if has_root(t) {
        t
    } else if base.len() == 0 || base.last() == MAIN_SEPARATOR {
        base + t
    } else {
        base.push(MAIN_SEPARATOR) + t
    }
}

/// Pushing a separator-free run that is not empty adds it as the last
/// segment and leaves the root as it was.
pub proof fn lemma_push_run(base: Seq<char>, t: Seq<char>)
    requires
        t.len() > 0,
        separator_free(t),
    ensures
        segments(push_text(base, t)) == segments(base).push(t),
        has_root(push_text(base, t)) == has_root(base),
        push_text(base, t).len() > 0,
        push_text(base, t).last() != MAIN_SEPARATOR,
{
    if base.len() == 0 || base.last() == MAIN_SEPARATOR {
        lemma_segments_push_run(base, t);
    } else {
        let b = base.push(MAIN_SEPARATOR);
        lemma_segments_push_separator(base);
        lemma_segments_push_run(b, t);
    }
}

/// Pushes `t` onto the path text in `buf`.
pub fn push_chars(buf: &mut Vec<char>, t: &Vec<char>)
    ensures
        final(buf)@ == push_text(old(buf)@, t@),
{
    if t.len() > 0 && t[0] == MAIN_SEPARATOR {
        buf.clear();
    } else if buf.len() > 0 && buf[buf.len() - 1] != MAIN_SEPARATOR {
        buf.push(MAIN_SEPARATOR);
    }
    append_chars(buf, t);
}

/// Where the directory part of `v` ends.
pub fn dir_len_of(v: &Vec<char>) -> (k: usize)
    ensures
        k == dir_len(v@),
        k <= v.len(),
{
    let mut k: usize = v.len();
    while k > 0 && v[k - 1] != MAIN_SEPARATOR
        invariant
            k <= v.len(),
            forall|i: int| k <= i < v.len() ==> v@[i] != MAIN_SEPARATOR,
        decreases k,
    {
        k -= 1;
    }
    proof {
        lemma_dir_len_unique(v@, k as int);
    }
    k
}

/// Splits a path text after its last separator: the directory part, which
/// keeps that separator, and the file part. Without a separator the
/// directory part is empty.
pub fn split_path_text(text: &str) -> (parts: (&str, &str))
    ensures
        parts.0@ == dir_part(text@),
        parts.1@ == file_part(text@),
        parts.0@ + parts.1@ == text@,
        parts.0@.len() == 0 || parts.0@.last() == MAIN_SEPARATOR,
        separator_free(parts.1@),
{
    let v = chars_of(text);
    let k = dir_len_of(&v);
    proof {
        lemma_dir_file_parts(text@);
    }
    (text.substring_char(0, k), text.substring_char(k, v.len()))
}

/// The directory part of a path text, with its final separator.
pub fn dir_path_text(text: &str) -> (dir: &str)
    ensures
        dir@ == dir_part(text@),
{
    split_path_text(text).0
}

/// The file part of a path text: what follows the last separator.
pub fn file_name_text(text: &str) -> (name: &str)
    ensures
        name@ == file_part(text@),
{
    split_path_text(text).1
}

} // verus!
