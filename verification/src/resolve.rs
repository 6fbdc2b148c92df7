//! What resolution means: the three ways a path text can be anchored, its
//! absolute form, its forms relative to the current and to the home
//! directory, joining, and the file name and parent of a path text. All of
//! it is stated over the components of the text; the executable functions
//! are held to these definitions.

use crate::classify::{classified_at, components, lemma_components_classified};
use crate::component::ComponentView;
use crate::environment::{EnvironmentView, PathError};
use crate::render::{append_all, lemma_components_append, render};
use crate::text::has_root;
use vstd::prelude::*;

verus! {

/// A path text is relative to the home directory when its first component
/// is the home directory.
pub open spec fn is_relative_to_home(p: Seq<char>) -> bool {
    components(p).len() > 0 && components(p)[0] == ComponentView::HomeDir
}

/// A path text is absolute when it begins at the root. One that is
/// relative to the home directory is never absolute.
pub open spec fn is_absolute(p: Seq<char>) -> bool {
    !is_relative_to_home(p) && has_root(p)
}

/// A path text is relative when it is neither absolute nor relative to the
/// home directory: it is meant from the current directory.
pub open spec fn is_relative(p: Seq<char>) -> bool {
    !is_relative_to_home(p) && !has_root(p)
}

/// How many components at the front of `cs` name the current directory.
pub open spec fn leading_cur_dirs(cs: Seq<ComponentView>) -> nat
    decreases cs.len(),
{
    if cs.len() > 0 && cs[0] == ComponentView::CurDir {
        1 + leading_cur_dirs(cs.skip(1))
    } else {
        0
    }
}

/// `cs` without the components at its front that name the current
/// directory.
pub open spec fn skip_cur_dirs(cs: Seq<ComponentView>) -> Seq<ComponentView> {
    cs.skip(leading_cur_dirs(cs) as int)
}

/// The absolute form of a path text. An absolute text is its own absolute
/// form. A text relative to the home directory is that directory with the
/// components behind the `~` pushed onto it. A relative text is the current
/// directory with its components pushed onto it, but for those at the front
/// that name the current directory. The directory that is needed must be
/// known.
pub open spec fn absolute(p: Seq<char>, env: EnvironmentView) -> Result<Seq<char>, PathError> {
    if is_absolute(p) {
        Ok(p)
    } else if is_relative_to_home(p) {
        match env.home {
            Some(h) => Ok(append_all(h, components(p).skip(1))),
            None => Err(PathError::EnvironmentUnavailable),
        }
    } else {
        match env.cwd {
            Some(c) => Ok(append_all(c, skip_cur_dirs(components(p)))),
            None => Err(PathError::EnvironmentUnavailable),
        }
    }
}

/// The components of `p` behind those of `base`, where the components of
/// `p` begin with all the components of `base`.
pub open spec fn strip_prefix(p: Seq<char>, base: Seq<char>) -> Option<Seq<ComponentView>> {
    let cs = components(p);
    let bs = components(base);
    if bs.is_prefix_of(cs) {
        Some(cs.skip(bs.len() as int))
    } else {
        None
    }
}

/// The form of a path text relative to the current directory: what is left
/// of its absolute form behind the components of the current directory.
/// Where the text has no absolute form, the error is that of the absolute
/// form. Where it has one, but the current directory is not known or the
/// absolute form does not begin with all its components, the error is
/// `PrefixMismatch`.
pub open spec fn simple_relative(p: Seq<char>, env: EnvironmentView) -> Result<
    Seq<char>,
    PathError,
> {
    match absolute(p, env) {
        Err(e) => Err(e),
        Ok(a) => match env.cwd {
            None => Err(PathError::PrefixMismatch),
            Some(c) => match strip_prefix(a, c) {
                Some(rest) => Ok(render(rest)),
                None => Err(PathError::PrefixMismatch),
            },
        },
    }
}

/// The form of a path text relative to the home directory: `~`, followed
/// by what is left of its absolute form behind the components of the home
/// directory. Where the text has no absolute form, the error is that of the
/// absolute form. Where it has one, but the home directory is not known or
/// the absolute form does not begin with all its components, the error is
/// `PrefixMismatch`.
pub open spec fn relative_to_home(p: Seq<char>, env: EnvironmentView) -> Result<
    Seq<char>,
    PathError,
> {
    match absolute(p, env) {
        Err(e) => Err(e),
        Ok(a) => match env.home {
            None => Err(PathError::PrefixMismatch),
            Some(h) => match strip_prefix(a, h) {
                Some(rest) => Ok(render(seq![ComponentView::HomeDir] + rest)),
                None => Err(PathError::PrefixMismatch),
            },
        },
    }
}

/// `child` joined to `base`. An absolute `child` takes the place of
/// `base`. Otherwise the components of `child` are pushed onto `base`, each
/// behind exactly one separator.
pub open spec fn join(base: Seq<char>, child: Seq<char>) -> Seq<char> {
    if is_absolute(child) {
        child
    } else {
        append_all(base, components(child))
    }
}

/// The text of the last named segment among `cs`, if there is one.
pub open spec fn last_normal(cs: Seq<ComponentView>) -> Option<Seq<char>>
    decreases cs.len(),
{
    if cs.len() == 0 {
        None
    } else {
        match cs.last() {
            ComponentView::Normal(t) => Some(t),
            _ => last_normal(cs.drop_last()),
        }
    }
}

/// The file name of a path text: its last named segment. There is none
/// where no component is a named segment: in the empty text, in the root,
/// and where every component names the current or the parent directory.
pub open spec fn file_name(p: Seq<char>) -> Option<Seq<char>> {
    last_normal(components(p))
}

/// The parent of a path text: the text of all its components but the last.
/// The empty text and the root have no parent. The parent of a single
/// relative component is the empty text.
pub open spec fn parent(p: Seq<char>) -> Option<Seq<char>> {
    let cs = components(p);
    if cs.len() == 0 || cs == seq![ComponentView::RootDir] {
        None
    } else {
        Some(render(cs.drop_last()))
    }
}

/// Whether the components of `p` begin with all the components of
/// `prefix`.
pub open spec fn starts_with(p: Seq<char>, prefix: Seq<char>) -> bool {
    components(prefix).is_prefix_of(components(p))
}

/// Where the current-directory components at the front of `cs` end: all
/// before `k` name the current directory, and the one at `k`, if there is
/// one, does not.
pub proof fn lemma_leading_cur_dirs(cs: Seq<ComponentView>)
    ensures
        leading_cur_dirs(cs) <= cs.len(),
        forall|i: int| 0 <= i < leading_cur_dirs(cs) ==> cs[i] == ComponentView::CurDir,
        leading_cur_dirs(cs) < cs.len() ==> cs[leading_cur_dirs(cs) as int]
            != ComponentView::CurDir,
    decreases cs.len(),
{
    if cs.len() > 0 && cs[0] == ComponentView::CurDir {
        let rest = cs.skip(1);
        lemma_leading_cur_dirs(rest);
        assert forall|i: int| 0 <= i < leading_cur_dirs(cs) implies cs[i]
            == ComponentView::CurDir by {
            if i > 0 {
                assert(rest[i - 1] == cs[i]);
            }
        }
        if leading_cur_dirs(cs) < cs.len() {
            assert(rest[leading_cur_dirs(rest) as int] == cs[leading_cur_dirs(cs) as int]);
        }
    }
}

/// The position that `lemma_leading_cur_dirs` describes is the only one of
/// its kind.
pub proof fn lemma_leading_cur_dirs_unique(cs: Seq<ComponentView>, k: int)
    requires
        0 <= k <= cs.len(),
        forall|i: int| 0 <= i < k ==> cs[i] == ComponentView::CurDir,
        k < cs.len() ==> cs[k] != ComponentView::CurDir,
    ensures
        leading_cur_dirs(cs) == k,
    decreases cs.len(),
{
    if cs.len() > 0 && cs[0] == ComponentView::CurDir {
        let rest = cs.skip(1);
        assert forall|i: int| 0 <= i < k - 1 implies rest[i] == ComponentView::CurDir by {
            assert(rest[i] == cs[i + 1]);
        }
        lemma_leading_cur_dirs_unique(rest, k - 1);
    }
}

/// A path text that begins at the root has the root as its first
/// component.
pub proof fn lemma_rooted_components(p: Seq<char>)
    ensures
        has_root(p) <==> components(p).len() > 0 && components(p)[0] == ComponentView::RootDir,
        is_absolute(p) <==> has_root(p),
{
    lemma_components_classified(p);
    if components(p).len() > 0 {
        assert(classified_at(components(p)[0], true));
    }
}

/// What is pushed onto a known directory in the absolute form of `p`: the
/// components of `p` behind the home directory, or behind the
/// current-directory components at its front.
pub open spec fn resolved_tail(p: Seq<char>) -> Seq<ComponentView> {
    if is_relative_to_home(p) {
        components(p).skip(1)
    } else {
        skip_cur_dirs(components(p))
    }
}

/// The components pushed in an absolute form may each stand behind the
/// front of a path, and none is the root.
pub proof fn lemma_resolved_tail(p: Seq<char>)
    requires
        !is_absolute(p),
    ensures
        forall|i: int|
            0 <= i < resolved_tail(p).len() ==> classified_at(#[trigger] resolved_tail(p)[i], false)
                && resolved_tail(p)[i] != ComponentView::RootDir,
{
    let cs = components(p);
    let tail = resolved_tail(p);
    lemma_components_classified(p);
    lemma_rooted_components(p);
    lemma_leading_cur_dirs(cs);
    assert forall|i: int| 0 <= i < tail.len() implies classified_at(#[trigger] tail[i], false)
        && tail[i] != ComponentView::RootDir by {
        let j = i + (cs.len() - tail.len());
        assert(tail[i] == cs[j] && classified_at(cs[j], j == 0));
    }
}

/// With a valid environment, an absolute form that is not the text itself
/// is a known directory followed by the pushed components, one for one.
pub proof fn lemma_absolute_components(p: Seq<char>, env: EnvironmentView, base: Seq<char>)
    requires
        env.wf(),
        !is_absolute(p),
        if is_relative_to_home(p) {
            env.home == Some(base)
        } else {
            env.cwd == Some(base)
        },
    ensures
        absolute(p, env) == Ok::<Seq<char>, PathError>(append_all(base, resolved_tail(p))),
        components(append_all(base, resolved_tail(p))) == components(base) + resolved_tail(p),
        has_root(append_all(base, resolved_tail(p))),
{
    let tail = resolved_tail(p);
    lemma_resolved_tail(p);
    lemma_rooted_components(base);
    assert forall|i: int| 0 <= i < tail.len() implies classified_at(
        #[trigger] tail[i],
        components(base).len() + i == 0,
    ) && tail[i] != ComponentView::RootDir by {}
    lemma_components_append(base, tail);
}

} // verus!
