//! Laws that hold of every path text: how decomposition and rendering
//! relate, where the home directory can stand, how the three anchorings
//! divide the path texts, and what resolution preserves.

use crate::classify::{
    classified_at, components, lemma_components_classified, raw_components, segment_kind,
};
use crate::component::{cur_dir_text, home_text, parent_dir_text, text_of, ComponentView};
use crate::environment::{EnvironmentView, PathError};
use crate::render::{append_all, lemma_components_append, lemma_render_then_classify, render};
use crate::resolve::{
    absolute, file_name, is_absolute, is_relative, is_relative_to_home, join,
    lemma_absolute_components, lemma_rooted_components, parent, relative_to_home, resolved_tail,
    simple_relative, skip_cur_dirs, strip_prefix,
};
use crate::text::{
    has_root, lemma_segments_are_runs, lemma_segments_none, lemma_segments_push_run, push_text,
    segments, MAIN_SEPARATOR,
};
use vstd::prelude::*;

verus! {

/// Decomposing a path text, rendering the components and decomposing the
/// rendered text gives the components of the first decomposition.
pub proof fn law_classify_render_round_trip(p: Seq<char>)
    ensures
        components(render(components(p))) == components(p),
{
    lemma_components_classified(p);
    lemma_render_then_classify(components(p));
}

/// Rendering is stable: the text rendered from the components of a
/// rendered text is that rendered text.
pub proof fn law_render_is_stable(p: Seq<char>)
    ensures
        render(components(render(components(p)))) == render(components(p)),
{
    law_classify_render_round_trip(p);
}

/// Only the empty path text has no components.
pub proof fn law_only_empty_text_has_no_components(p: Seq<char>)
    ensures
        components(p).len() == 0 <==> p.len() == 0,
{
    lemma_segments_none(p);
    if p.len() > 0 && !has_root(p) {
        assert(p[0] != MAIN_SEPARATOR);
    }
}

/// The home directory stands among the components of a path text only at
/// the front, and it stands there exactly when the text does not begin at
/// the root and its first segment is `~`.
pub proof fn law_home_dir_only_first(p: Seq<char>)
    ensures
        forall|i: int|
            0 <= i < components(p).len() ==> (#[trigger] components(p)[i] == ComponentView::HomeDir
                <==> i == 0 && raw_components(p)[0] == ComponentView::Normal(home_text())),
        components(p).contains(ComponentView::HomeDir) <==> !has_root(p) && segments(p).len() > 0
            && segments(p)[0] == home_text(),
{
    let cs = components(p);
    let raw = raw_components(p);
    let segs = segments(p);
    lemma_segments_are_runs(p);
    assert(home_text()[0] == '~' && cur_dir_text()[0] == '.' && parent_dir_text()[0] == '.');
    assert forall|i: int| 0 <= i < cs.len() implies (#[trigger] cs[i] == ComponentView::HomeDir
        <==> i == 0 && raw[0] == ComponentView::Normal(home_text())) by {
        if has_root(p) {
            if i > 0 {
                assert(raw[i] == segment_kind(segs[i - 1]));
            }
        } else {
            assert(raw[i] == segment_kind(segs[i]));
        }
    }
    if !has_root(p) && segs.len() > 0 {
        assert(raw[0] == segment_kind(segs[0]));
    }
    if !has_root(p) && segs.len() > 0 && segs[0] == home_text() {
        assert(cs[0] == ComponentView::HomeDir);
    }
}

/// No path text is both absolute and relative to the home directory.
pub proof fn law_absolute_excludes_home(p: Seq<char>)
    ensures
        !(is_absolute(p) && is_relative_to_home(p)),
{
}

/// Every path text is anchored in exactly one way: it is absolute, or
/// relative, or relative to the home directory. It is absolute exactly when
/// it begins at the root.
pub proof fn law_anchoring_partitions(p: Seq<char>)
    ensures
        is_absolute(p) || is_relative(p) || is_relative_to_home(p),
        !(is_absolute(p) && is_relative(p)),
        !(is_absolute(p) && is_relative_to_home(p)),
        !(is_relative(p) && is_relative_to_home(p)),
        is_absolute(p) <==> has_root(p),
{
    lemma_rooted_components(p);
}

/// In a valid environment, the absolute form of a path text is absolute:
/// its first component is the root.
pub proof fn law_absolute_is_absolute(p: Seq<char>, env: EnvironmentView)
    requires
        env.wf(),
    ensures
        absolute(p, env) matches Ok(a) ==> is_absolute(a) && components(a)[0]
            == ComponentView::RootDir,
{
    if let Ok(a) = absolute(p, env) {
        if !is_absolute(p) {
            let base = if is_relative_to_home(p) {
                env.home->0
            } else {
                env.cwd->0
            };
            lemma_absolute_components(p, env, base);
        }
        lemma_rooted_components(a);
    }
}

/// In a valid environment, the absolute form of an absolute form is that
/// absolute form.
pub proof fn law_absolute_idempotent(p: Seq<char>, env: EnvironmentView)
    requires
        env.wf(),
    ensures
        absolute(p, env) matches Ok(a) ==> absolute(a, env) == Ok::<Seq<char>, PathError>(a),
{
    law_absolute_is_absolute(p, env);
}

/// In a valid environment, a path text that can be resolved and its
/// absolute form have the same form relative to the current directory.
pub proof fn law_simple_relative_of_absolute(p: Seq<char>, env: EnvironmentView)
    requires
        env.wf(),
    ensures
        absolute(p, env) matches Ok(a) ==> simple_relative(a, env) == simple_relative(p, env),
{
    law_absolute_idempotent(p, env);
}

/// In a valid environment, a path text that can be resolved and its
/// absolute form have the same form relative to the home directory.
pub proof fn law_relative_to_home_of_absolute(p: Seq<char>, env: EnvironmentView)
    requires
        env.wf(),
    ensures
        absolute(p, env) matches Ok(a) ==> relative_to_home(a, env) == relative_to_home(p, env),
{
    law_absolute_idempotent(p, env);
}

/// In a valid environment with a known current directory, a relative path
/// text lies under that directory: its form relative to it is the rendering
/// of its components behind the current-directory components at its front.
pub proof fn law_relative_lies_under_cwd(p: Seq<char>, env: EnvironmentView)
    requires
        env.wf(),
        is_relative(p),
        env.cwd is Some,
    ensures
        simple_relative(p, env) == Ok::<Seq<char>, PathError>(
            render(skip_cur_dirs(components(p))),
        ),
{
    let c = env.cwd->0;
    let tail = resolved_tail(p);
    lemma_absolute_components(p, env, c);
    let a = absolute(p, env)->Ok_0;
    assert((components(c) + tail).skip(components(c).len() as int) =~= tail);
    assert(strip_prefix(a, c) == Some(tail));
}

/// In a valid environment with a known home directory, a path text
/// relative to the home directory lies under it: its form relative to the
/// home directory is the rendering of its own components.
pub proof fn law_home_relative_lies_under_home(p: Seq<char>, env: EnvironmentView)
    requires
        env.wf(),
        is_relative_to_home(p),
        env.home is Some,
    ensures
        relative_to_home(p, env) == Ok::<Seq<char>, PathError>(render(components(p))),
{
    let h = env.home->0;
    let tail = resolved_tail(p);
    lemma_absolute_components(p, env, h);
    let a = absolute(p, env)->Ok_0;
    assert((components(h) + tail).skip(components(h).len() as int) =~= tail);
    assert(strip_prefix(a, h) == Some(tail));
    assert(seq![ComponentView::HomeDir] + tail =~= components(p));
}

/// Joining a relative path text to a path text puts the components of
/// the one behind the components of the other.
pub proof fn law_join_concatenates(base: Seq<char>, child: Seq<char>)
    requires
        is_relative(child),
    ensures
        components(join(base, child)) == components(base) + components(child),
        has_root(join(base, child)) == has_root(base),
{
    let cs = components(child);
    lemma_components_classified(child);
    lemma_rooted_components(child);
    assert forall|i: int| 0 <= i < cs.len() implies classified_at(
        #[trigger] cs[i],
        components(base).len() + i == 0,
    ) && cs[i] != ComponentView::RootDir by {
        assert(classified_at(cs[i], i == 0));
    }
    lemma_components_append(base, cs);
}

/// Where the last component of a path text is a named segment, that
/// segment is the file name, and the file name joined to the parent is the
/// rendering of the components of the text.
pub proof fn law_parent_joined_with_file_name(p: Seq<char>)
    requires
        components(p).len() > 0,
        components(p).last() is Normal,
    ensures
        file_name(p) == Some(components(p).last()->Normal_0),
        parent(p) is Some,
        join(parent(p)->0, file_name(p)->0) == render(components(p)),
{
    let cs = components(p);
    let t = cs.last()->Normal_0;
    let d = render(cs.drop_last());
    lemma_components_classified(p);
    assert(classified_at(cs[cs.len() - 1], cs.len() - 1 == 0));
    assert(cs[0] != ComponentView::RootDir || cs.len() > 1);
    assert(seq![ComponentView::RootDir].len() == 1);
    let nothing = Seq::<char>::empty();
    lemma_segments_push_run(nothing, t);
    assert(nothing + t =~= t);
    assert(raw_components(t) =~= seq![segment_kind(t)]);
    let c = components(t)[0];
    assert(components(t) =~= seq![c] && text_of(c) == t);
    assert(append_all(d, seq![c]) == push_text(append_all(d, seq![c].drop_last()), t));
    lemma_rooted_components(t);
}

/// Joining an absolute path text to any path text gives the absolute
/// text.
pub proof fn law_join_absolute_replaces(base: Seq<char>, child: Seq<char>)
    requires
        is_absolute(child),
    ensures
        join(base, child) == child,
{
}

} // verus!
