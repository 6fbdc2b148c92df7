//! The decomposition of a path text into its components.
//!
//! The text is cut at its separators. A separator at the front is the
//! root; every run between separators that is not empty is one component:
//! `.` the current directory, `..` the parent directory, anything else a
//! named segment. Last, a first component that is the named segment `~`
//! becomes the home directory.

use crate::chars::string_of_range;
use crate::component::{
    cur_dir_text, home_text, parent_dir_text, text_of, views, ComponentView, StrPathComponent,
};
use crate::text::{
    dir_len, dir_part, file_part, has_root, lemma_segments_are_runs, segments, separator_free,
    MAIN_SEPARATOR,
};
use vstd::prelude::*;

verus! {

/// The kind of a segment: `.` names the current directory, `..` the parent
/// directory, and any other text is a named segment.
pub open spec fn segment_kind(t: Seq<char>) -> ComponentView {
    if t == cur_dir_text() {
        ComponentView::CurDir
    } else if t == parent_dir_text() {
        ComponentView::ParentDir
    } else {
        ComponentView::Normal(t)
    }
}

/// The components that segments stand for, behind the root where the text
/// has one.
pub open spec fn with_root(rooted: bool, segs: Seq<Seq<char>>) -> Seq<ComponentView> {
    let body = segs.map_values(|t: Seq<char>| segment_kind(t));
    if rooted {
        seq![ComponentView::RootDir] + body
    } else {
        body
    }
}

/// The components of a path text before the home directory is looked for:
/// the root, if the text begins with a separator, then one component for
/// each segment.
pub open spec fn raw_components(s: Seq<char>) -> Seq<ComponentView> {
    with_root(has_root(s), segments(s))
}

/// A first component that is the named segment `~` becomes the home
/// directory. No other position is touched.
pub open spec fn home_rule(cs: Seq<ComponentView>) -> Seq<ComponentView> {
    if cs.len() > 0 && cs[0] == ComponentView::Normal(home_text()) {
        cs.update(0, ComponentView::HomeDir)
    } else {
        cs
    }
}

/// The components of a path text.
pub open spec fn components(s: Seq<char>) -> Seq<ComponentView> {
    home_rule(raw_components(s))
}

/// The component that a segment becomes, given whether it is the first
/// component of its path.
pub open spec fn placed_kind(first: bool, t: Seq<char>) -> ComponentView {
    if first && t == home_text() {
        ComponentView::HomeDir
    } else {
        segment_kind(t)
    }
}

/// One more segment adds one component, which is the home directory only
/// where it is `~` and nothing stands before it.
pub proof fn lemma_components_push(rooted: bool, segs: Seq<Seq<char>>, t: Seq<char>)
    ensures
        home_rule(with_root(rooted, segs.push(t))) == home_rule(with_root(rooted, segs)).push(
            placed_kind(!rooted && segs.len() == 0, t),
        ),
        with_root(rooted, segs).len() == segs.len() + if rooted { 1nat } else { 0nat },
{
    assert(with_root(rooted, segs.push(t)) =~= with_root(rooted, segs).push(segment_kind(t)));
    assert(home_text()[0] == '~' && cur_dir_text()[0] == '.' && parent_dir_text()[0] == '.');
}

/// The component for the segment `v[from..to]`.
fn segment_component(v: &Vec<char>, from: usize, to: usize, first: bool) -> (c: StrPathComponent)
    requires
        from < to <= v.len(),
    ensures
        c@ == placed_kind(first, v@.subrange(from as int, to as int)),
{
    let ghost t = v@.subrange(from as int, to as int);
    let len: usize = to - from;
    assert(cur_dir_text().len() == 1 && cur_dir_text()[0] == '.');
    assert(parent_dir_text().len() == 2 && parent_dir_text()[0] == '.' && parent_dir_text()[1]
        == '.');
    assert(home_text().len() == 1 && home_text()[0] == '~');
    if len == 1 && v[from] == '.' {
        assert(t =~= cur_dir_text());
        StrPathComponent::CurDir
    } else if len == 2 && v[from] == '.' && v[from + 1] == '.' {
        assert(t =~= parent_dir_text());
        StrPathComponent::ParentDir
    } else if first && len == 1 && v[from] == '~' {
        assert(t =~= home_text());
        StrPathComponent::HomeDir
    } else {
        StrPathComponent::Normal(string_of_range(v, from, to))
    }
}

/// Decomposes a path text, given by its characters, into its components.
pub fn classify(v: &Vec<char>) -> (cs: Vec<StrPathComponent>)
    ensures
        views(cs@) == components(v@),
{
    let n = v.len();
    let mut cs: Vec<StrPathComponent> = Vec::new();
    let rooted = n > 0 && v[0] == MAIN_SEPARATOR;
    if rooted {
        cs.push(StrPathComponent::RootDir);
    }
    let mut start: usize = 0;
    let mut i: usize = 0;
    while i < n
        invariant
            n == v.len(),
            rooted == has_root(v@),
            start <= i <= n,
            start == dir_len(v@.take(i as int)),
            views(cs@) == home_rule(with_root(rooted, segments(v@.take(start as int)))),
        decreases n - i,
    {
        let ghost before = v@.take(i as int);
        let ghost closed = segments(v@.take(start as int));
        assert(v@.take(i + 1).drop_last() =~= before);
        if v[i] == MAIN_SEPARATOR {
            if start < i {
                let c = segment_component(v, start, i, cs.len() == 0);
                proof {
                    assert(dir_part(before) =~= v@.take(start as int));
                    assert(file_part(before) =~= v@.subrange(start as int, i as int));
                    assert(segments(before) == closed.push(file_part(before)));
                    lemma_components_push(rooted, closed, file_part(before));
                }
                cs.push(c);
            }
            start = i + 1;
        }
        i += 1;
    }
    assert(v@.take(n as int) =~= v@);
    if start < n {
        let c = segment_component(v, start, n, cs.len() == 0);
        proof {
            lemma_components_push(rooted, segments(v@.take(start as int)), file_part(v@));
        }
        cs.push(c);
    }
    cs
}

/// Whether `c` can stand in the components of a path text, at the front
/// (`first`) or behind it. The root and the home directory stand only at
/// the front; a named segment is a separator-free run that is not empty and
/// not one of the texts that classify otherwise; no prefix occurs.
pub open spec fn classified_at(c: ComponentView, first: bool) -> bool {
    match c {
        ComponentView::Prefix(_) => false,
        ComponentView::RootDir => first,
        ComponentView::HomeDir => first,
        ComponentView::CurDir => true,
        ComponentView::ParentDir => true,
        ComponentView::Normal(t) => {
            &&& t.len() > 0
            &&& separator_free(t)
            &&& t != cur_dir_text()
            &&& t != parent_dir_text()
            &&& !(first && t == home_text())
        },
    }
}

/// Whether `cs` is a sequence that the decomposition of a path text can
/// give.
pub open spec fn is_classified(cs: Seq<ComponentView>) -> bool {
    forall|i: int| 0 <= i < cs.len() ==> classified_at(#[trigger] cs[i], i == 0)
}

/// The component that a segment becomes is one that may stand where it
/// stands, and its text is the segment.
pub proof fn lemma_placed_kind(first: bool, t: Seq<char>)
    requires
        t.len() > 0,
        separator_free(t),
    ensures
        classified_at(placed_kind(first, t), first),
        text_of(placed_kind(first, t)) == t,
        placed_kind(first, t) != ComponentView::RootDir,
{
}

/// A component that may stand at a place, and is not the root, has a text
/// that is one segment, and that segment becomes this component again.
pub proof fn lemma_text_of_classified(c: ComponentView, first: bool)
    requires
        classified_at(c, first),
        c != ComponentView::RootDir,
    ensures
        text_of(c).len() > 0,
        separator_free(text_of(c)),
        placed_kind(first, text_of(c)) == c,
{
    assert(home_text()[0] == '~' && cur_dir_text()[0] == '.' && parent_dir_text()[0] == '.');
}

/// The decomposition of a path text gives a sequence of the kind that
/// `is_classified` describes.
pub proof fn lemma_components_classified(s: Seq<char>)
    ensures
        is_classified(components(s)),
{
    let segs = segments(s);
    let cs = components(s);
    lemma_segments_are_runs(s);
    assert forall|i: int| 0 <= i < cs.len() implies classified_at(#[trigger] cs[i], i == 0) by {
        if has_root(s) {
            if i > 0 {
                lemma_placed_kind(false, segs[i - 1]);
            }
        } else {
            lemma_placed_kind(i == 0, segs[i]);
        }
    }
}

} // verus!
