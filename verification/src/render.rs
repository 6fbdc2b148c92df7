//! The path text of a sequence of components, and what decomposing that
//! text gives.

use crate::chars::string_of;
use crate::classify::{
    classified_at, components, is_classified, lemma_components_push, lemma_text_of_classified,
};
use crate::component::{root_text, text_of, views, ComponentView, StrPathComponent};
use crate::text::{has_root, lemma_push_run, push_chars, push_text, segments};
use vstd::prelude::*;

verus! {

/// The text that comes of pushing the components `cs`, one after the other,
/// onto the path text `base`.
pub open spec fn append_all(base: Seq<char>, cs: Seq<ComponentView>) -> Seq<char>
    decreases cs.len(),
{
    if cs.len() == 0 {
        base
    } else {
        push_text(append_all(base, cs.drop_last()), text_of(cs.last()))
    }
}

/// The path text of a sequence of components: each pushed onto what the
/// components before it gave.
pub open spec fn render(cs: Seq<ComponentView>) -> Seq<char> {
    append_all(Seq::empty(), cs)
}

/// Pushing the text of a component onto a path text adds that component to
/// its components, where the component may stand there and is not the root.
pub proof fn lemma_components_push_text(base: Seq<char>, c: ComponentView)
    requires
        classified_at(c, components(base).len() == 0),
        c != ComponentView::RootDir,
    ensures
        components(push_text(base, text_of(c))) == components(base).push(c),
        has_root(push_text(base, text_of(c))) == has_root(base),
        push_text(base, text_of(c)).len() > 0,
{
    let t = text_of(c);
    let first = components(base).len() == 0;
    lemma_text_of_classified(c, first);
    lemma_push_run(base, t);
    lemma_components_push(has_root(base), segments(base), t);
}

/// Pushing components onto a path text adds them to its components, where
/// each may stand at the place it comes to and none is the root.
pub proof fn lemma_components_append(base: Seq<char>, cs: Seq<ComponentView>)
    requires
        forall|i: int|
            0 <= i < cs.len() ==> classified_at(#[trigger] cs[i], components(base).len() + i == 0)
                && cs[i] != ComponentView::RootDir,
    ensures
        components(append_all(base, cs)) == components(base) + cs,
        has_root(append_all(base, cs)) == has_root(base),
        cs.len() > 0 ==> append_all(base, cs).len() > 0,
    decreases cs.len(),
{
    if cs.len() > 0 {
        let front = cs.drop_last();
        assert forall|i: int| 0 <= i < front.len() implies classified_at(
            #[trigger] front[i],
            components(base).len() + i == 0,
        ) && front[i] != ComponentView::RootDir by {
            assert(front[i] == cs[i]);
        }
        lemma_components_append(base, front);
        lemma_components_push_text(append_all(base, front), cs.last());
        assert((components(base) + front).push(cs.last()) =~= components(base) + cs);
    } else {
        assert(components(base) + cs =~= components(base));
    }
}

/// Rendering a classified sequence and decomposing the text gives the
/// sequence back.
pub proof fn lemma_render_then_classify(cs: Seq<ComponentView>)
    requires
        is_classified(cs),
    ensures
        components(render(cs)) == cs,
        has_root(render(cs)) == (cs.len() > 0 && cs[0] == ComponentView::RootDir),
{
    let nothing = Seq::<char>::empty();
    assert(components(nothing) =~= Seq::<ComponentView>::empty());
    if cs.len() > 0 && cs[0] == ComponentView::RootDir {
        let rest = cs.skip(1);
        let root = root_text();
        lemma_append_all_front(nothing, cs);
        assert(root.drop_last() =~= nothing);
        assert(components(root) =~= seq![ComponentView::RootDir]);
        assert forall|i: int| 0 <= i < rest.len() implies classified_at(
            #[trigger] rest[i],
            components(root).len() + i == 0,
        ) && rest[i] != ComponentView::RootDir by {
            assert(rest[i] == cs[i + 1]);
        }
        lemma_components_append(root, rest);
        assert(seq![ComponentView::RootDir] + rest =~= cs);
    } else if cs.len() > 0 {
        assert forall|i: int| 0 <= i < cs.len() implies classified_at(
            #[trigger] cs[i],
            components(nothing).len() + i == 0,
        ) && cs[i] != ComponentView::RootDir by {
            assert(classified_at(cs[i], i == 0));
        }
        lemma_components_append(nothing, cs);
        assert(components(nothing) + cs =~= cs);
    }
}

/// Pushing a sequence of components is pushing its first, then the rest.
pub proof fn lemma_append_all_front(base: Seq<char>, cs: Seq<ComponentView>)
    requires
        cs.len() > 0,
    ensures
        append_all(base, cs) == append_all(push_text(base, text_of(cs[0])), cs.skip(1)),
    decreases cs.len(),
{
    if cs.len() == 1 {
        assert(append_all(base, cs.drop_last()) == base);
    } else {
        let front = cs.drop_last();
        lemma_append_all_front(base, front);
        assert(front.skip(1) =~= cs.skip(1).drop_last());
    }
}

/// Pushes the components `cs[from..to]` onto the path text in `buf`.
pub fn append_components(buf: &mut Vec<char>, cs: &[StrPathComponent], from: usize, to: usize)
    requires
        from <= to <= cs.len(),
    ensures
        final(buf)@ == append_all(old(buf)@, views(cs@).subrange(from as int, to as int)),
{
    let ghost part = views(cs@).subrange(from as int, to as int);
    let mut i: usize = from;
    while i < to
        invariant
            from <= i <= to <= cs.len(),
            part == views(cs@).subrange(from as int, to as int),
            buf@ == append_all(old(buf)@, part.take(i - from)),
        decreases to - i,
    {
        let t = cs[i].text_chars();
        push_chars(buf, &t);
        i += 1;
        assert(part.take(i - from).drop_last() =~= part.take(i - 1 - from));
    }
    assert(part.take(to - from) =~= part);
}

/// The path text of `cs`.
pub fn render_components(cs: &[StrPathComponent]) -> (s: String)
    ensures
        s@ == render(views(cs@)),
{
    let mut buf: Vec<char> = Vec::new();
    append_components(&mut buf, cs, 0, cs.len());
    assert(views(cs@).subrange(0, cs.len() as int) =~= views(cs@));
    string_of(&buf)
}

/// Whether the components of `prefix` are the first components of `cs`,
/// one for one.
pub fn components_start_with(cs: &[StrPathComponent], prefix: &[StrPathComponent]) -> (b: bool)
    ensures
        b == views(prefix@).is_prefix_of(views(cs@)),
{
    if prefix.len() > cs.len() {
        return false;
    }
    let mut i: usize = 0;
    while i < prefix.len()
        invariant
            i <= prefix.len() <= cs.len(),
            forall|j: int| 0 <= j < i ==> cs@[j]@ == prefix@[j]@,
        decreases prefix.len() - i,
    {
        if !(cs[i] == prefix[i]) {
            assert(views(cs@).subrange(0, prefix.len() as int)[i as int] != views(prefix@)[i as int]);
            return false;
        }
        i += 1;
    }
    true
}

} // verus!
