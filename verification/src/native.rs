//! Operations on a path text by the plain lexical rules, for callers that
//! hold a path and the facts about it: the first name in a path, the
//! expansion of a leading `~`, and the absolute and the relative form with
//! respect to the current directory alone.

use crate::chars::{chars_of, option_view};
use crate::classify::{classify, components};
use crate::component::{text_of, views, ComponentView, StrPathComponent};
use crate::environment::home_dir_text;
use crate::render::{append_all, render};
use crate::resolve::{
    is_relative_to_home, lemma_leading_cur_dirs_unique, skip_cur_dirs, strip_prefix,
};
use crate::str_path::{leading_cur_dir_count, resolve_onto, strip_onto};
use crate::text::{has_root, MAIN_SEPARATOR};
use vstd::prelude::*;

verus! {

/// The components of a path text behind its root.
pub open spec fn behind_root(p: Seq<char>) -> Seq<ComponentView> {
    let cs = components(p);
    if cs.len() > 0 && cs[0] == ComponentView::RootDir {
        cs.skip(1)
    } else {
        cs
    }
}

/// The first component of a path text that is neither the root nor the
/// current directory, if there is one.
pub open spec fn first_subpath(p: Seq<char>) -> Option<ComponentView> {
    let rest = skip_cur_dirs(behind_root(p));
    if rest.len() == 0 {
        None
    } else {
        Some(rest[0])
    }
}

/// The first component of a path text that is neither the root nor the
/// current directory, if there is one.
pub fn first_subpath_component(path: &str) -> (first: Option<StrPathComponent>)
    ensures
        first matches Some(c) ==> first_subpath(path@) == Some(c@),
        first is None ==> first_subpath(path@) is None,
{
    let mut cs = classify(&chars_of(path));
    let start: usize = if cs.len() > 0 && cs[0] == StrPathComponent::RootDir {
        1
    } else {
        0
    };
    let ghost body = behind_root(path@);
    let mut i: usize = start;
    while i < cs.len() && cs[i].is_cur_dir()
        invariant
            start <= i <= cs.len(),
            body == views(cs@).skip(start as int),
            forall|j: int| 0 <= j < i - start ==> body[j] == ComponentView::CurDir,
        decreases cs.len() - i,
    {
        i += 1;
    }
    proof {
        lemma_leading_cur_dirs_unique(body, i - start);
    }
    if i < cs.len() {
        Some(cs.swap_remove(i))
    } else {
        None
    }
}

/// The text of the first name in a path text: of its first component that
/// is neither the root nor the current directory. That component must not
/// be the parent directory.
pub fn first_subpath_as_string(path: &str) -> (name: Option<String>)
    requires
        first_subpath(path@) != Some(ComponentView::ParentDir),
    ensures
        option_view(name) == match first_subpath(path@) {
            Some(c) => Some(text_of(c)),
            None => None,
        },
{
    match first_subpath_component(path) {
        Some(c) => Some(c.to_string()),
        None => None,
    }
}

/// The expansion of a leading `~`, given the home directory where it is
/// known. A path text that begins at the root is its own expansion. A text
/// that is relative to the home directory and names nothing that exists
/// expands to the home directory with the components behind the `~` pushed
/// onto it. No other text has an expansion.
pub open spec fn home_expansion(p: Seq<char>, present: bool, home: Option<Seq<char>>) -> Option<
    Seq<char>,
> {
    if has_root(p) {
        Some(p)
    } else if !present && is_relative_to_home(p) {
        match home {
            Some(h) => Some(append_all(h, components(p).skip(1))),
            None => None,
        }
    } else {
        None
    }
}

/// Whether the expansion of `p` depends on the home directory.
pub open spec fn needs_home(p: Seq<char>, present: bool) -> bool {
    !has_root(p) && !present && is_relative_to_home(p)
}

/// Expands a leading `~` in `path` against the given home directory;
/// `present` says whether `path`, taken as it stands, names something that
/// exists.
pub fn expand_home_dir_with(path: &str, present: bool, home: Option<String>) -> (expanded: Option<
    String,
>)
    ensures
        option_view(expanded) == home_expansion(path@, present, option_view(home)),
{
    let v = chars_of(path);
    if v.len() > 0 && v[0] == MAIN_SEPARATOR {
        Some(path.to_owned())
    } else if present {
        None
    } else {
        let cs = classify(&v);
        if cs.len() > 0 && cs[0].is_home_dir() {
            match home {
                Some(home) => Some(resolve_onto(home.as_str(), &cs, 1)),
                None => None,
            }
        } else {
            None
        }
    }
}

/// Whether the expansion of `path` depends on the home directory.
pub fn expansion_needs_home(path: &str, present: bool) -> (b: bool)
    ensures
        b == needs_home(path@, present),
{
    let v = chars_of(path);
    if present || (v.len() > 0 && v[0] == MAIN_SEPARATOR) {
        false
    } else {
        let cs = classify(&v);
        cs.len() > 0 && cs[0].is_home_dir()
    }
}

/// Expands a leading `~` in `path` against the home directory of the
/// current user, which is looked up only where the expansion depends on it;
/// `present` says whether `path`, taken as it stands, names something that
/// exists. Whatever the lookup gives, the result is the expansion against
/// it.
pub fn expand_home_dir(path: &str, present: bool) -> (expanded: Option<String>)
    ensures
        exists|home: Option<Seq<char>>|
            option_view(expanded) == home_expansion(path@, present, home),
        !needs_home(path@, present) ==> option_view(expanded) == home_expansion(
            path@,
            present,
            None,
        ),
{
    let home = if expansion_needs_home(path, present) {
        home_dir_text()
    } else {
        None
    };
    expand_home_dir_with(path, present, home)
}

/// The expansion of a leading `~` in `p`, or `p` itself where it has
/// none.
pub open spec fn home_expansion_or_same(
    p: Seq<char>,
    present: bool,
    home: Option<Seq<char>>,
) -> Seq<char> {
    match home_expansion(p, present, home) {
        Some(e) => e,
        None => p,
    }
}

/// The expansion of a leading `~` in `path` against the home directory of
/// the current user, or `path` itself where it has none.
pub fn expand_home_dir_or_mine(path: &str, present: bool) -> (expanded: String)
    ensures
        exists|home: Option<Seq<char>>|
            expanded@ == home_expansion_or_same(path@, present, home),
        !needs_home(path@, present) ==> expanded@ == home_expansion_or_same(path@, present, None),
{
    let found = expand_home_dir(path, present);
    proof {
        let home = choose|home: Option<Seq<char>>|
            option_view(found) == home_expansion(path@, present, home);
        assert(match found {
            Some(e) => e@,
            None => path@,
        } == home_expansion_or_same(path@, present, home));
    }
    match found {
        Some(expanded) => expanded,
        None => path.to_owned(),
    }
}

/// The absolute form of a path text with respect to the current directory
/// alone: a text that begins at the root is its own absolute form, and any
/// other is the current directory with its components pushed onto it, but
/// for those at the front that name the current directory. A leading `~` is
/// a name like any other here.
pub open spec fn absolute_from(p: Seq<char>, cwd: Seq<char>) -> Seq<char> {
    if has_root(p) {
        p
    } else {
        append_all(cwd, skip_cur_dirs(components(p)))
    }
}

/// The absolute form of `path` with respect to the current directory
/// `cwd`.
pub fn absolute_path_buf(path: &str, cwd: &str) -> (abs: String)
    ensures
        abs@ == absolute_from(path@, cwd@),
{
    let v = chars_of(path);
    if v.len() > 0 && v[0] == MAIN_SEPARATOR {
        path.to_owned()
    } else {
        let cs = classify(&v);
        let k = leading_cur_dir_count(&cs);
        resolve_onto(cwd, &cs, k)
    }
}

/// The form of a path text relative to the current directory alone: a
/// text that does not begin at the root is its own relative form; one that
/// does has the rendering of its components behind those of the current
/// directory, and none where it does not lie under the current directory.
pub open spec fn relative_from(p: Seq<char>, cwd: Seq<char>) -> Option<Seq<char>> {
    if has_root(p) {
        match strip_prefix(p, cwd) {
            Some(rest) => Some(render(rest)),
            None => None,
        }
    } else {
        Some(p)
    }
}

/// The relative form of `path` with respect to the current directory
/// `cwd`, if it has one.
pub fn relative_path_buf(path: &str, cwd: &str) -> (rel: Option<String>)
    ensures
        option_view(rel) == relative_from(path@, cwd@),
{
    let v = chars_of(path);
    if v.len() > 0 && v[0] == MAIN_SEPARATOR {
        strip_onto(path, cwd, Vec::new())
    } else {
        Some(path.to_owned())
    }
}

/// The relative form of `path` with respect to the current directory
/// `cwd`, or `path` itself where it has none.
pub fn relative_path_buf_or_mine(path: &str, cwd: &str) -> (rel: String)
    ensures
        rel@ == match relative_from(path@, cwd@) {
            Some(r) => r,
            None => path@,
        },
{
    match relative_path_buf(path, cwd) {
        Some(rel) => rel,
        None => path.to_owned(),
    }
}

} // verus!
