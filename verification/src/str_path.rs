//! File path operations on `str` and `String`.
//!
//! A path text is decomposed by the lexical rules of paths that use `/`:
//! runs of separators collapse, a separator at the end is ignored, and `.`
//! and `..` stay where they stand. A first component `~` is the home
//! directory.
//!
//! Every path text is anchored in exactly one of three ways: it is absolute,
//! relative to the home directory, or relative (to the current directory).
//! Nothing here reads the process environment: the current directory and
//! the home directory come in as an `Environment`.

use crate::chars::{chars_of, option_view, result_view, string_of};
use crate::classify::{classify, components};
use crate::component::{views, ComponentView};
pub use crate::component::{StrPathComponent, StrPathPrefix};
use crate::environment::{known, EnvironmentView};
pub use crate::environment::{Environment, PathError};
use crate::render::{
    append_all, append_components, components_start_with, lemma_append_all_front, render,
    render_components,
};
use crate::resolve::{
    absolute, file_name, is_absolute, is_relative, is_relative_to_home, join, last_normal,
    leading_cur_dirs, lemma_absolute_components, lemma_leading_cur_dirs_unique,
    lemma_rooted_components, parent, relative_to_home, simple_relative, starts_with,
    strip_prefix,
};
use crate::text::MAIN_SEPARATOR;
use vstd::prelude::*;

verus! {

/// The components of a path text.
pub fn str_path_components(s: &str) -> (cs: Vec<StrPathComponent>)
    ensures
        views(cs@) == components(s@),
{
    classify(&chars_of(s))
}

/// Whether a path text is relative to the home directory: whether its
/// first component is `~`.
pub fn str_path_is_relative_to_home(s: &str) -> (b: bool)
    ensures
        b == is_relative_to_home(s@),
{
    let cs = str_path_components(s);
    cs.len() > 0 && cs[0].is_home_dir()
}

/// Whether a path text is absolute.
pub fn str_path_is_absolute(s: &str) -> (b: bool)
    ensures
        b == is_absolute(s@),
{
    let v = chars_of(s);
    let cs = classify(&v);
    if cs.len() > 0 && cs[0].is_home_dir() {
        false
    } else {
        v.len() > 0 && v[0] == MAIN_SEPARATOR
    }
}

/// Whether a path text is relative: neither absolute nor relative to the
/// home directory.
pub fn str_path_is_relative(s: &str) -> (b: bool)
    ensures
        b == is_relative(s@),
{
    let v = chars_of(s);
    let cs = classify(&v);
    if cs.len() > 0 && cs[0].is_home_dir() {
        false
    } else {
        !(v.len() > 0 && v[0] == MAIN_SEPARATOR)
    }
}

/// How many components at the front of `cs` name the current directory.
pub(crate) fn leading_cur_dir_count(cs: &Vec<StrPathComponent>) -> (k: usize)
    ensures
        k == leading_cur_dirs(views(cs@)),
        k <= cs.len(),
{
    let mut k: usize = 0;
    while k < cs.len() && cs[k].is_cur_dir()
        invariant
            k <= cs.len(),
            forall|j: int| 0 <= j < k ==> views(cs@)[j] == ComponentView::CurDir,
        decreases cs.len() - k,
    {
        k += 1;
    }
    proof {
        lemma_leading_cur_dirs_unique(views(cs@), k as int);
    }
    k
}

/// The text of `base` with the components `cs[from..]` pushed onto it.
pub(crate) fn resolve_onto(base: &str, cs: &Vec<StrPathComponent>, from: usize) -> (s: String)
    requires
        from <= cs.len(),
    ensures
        s@ == append_all(base@, views(cs@).skip(from as int)),
{
    let mut buf = chars_of(base);
    append_components(&mut buf, cs.as_slice(), from, cs.len());
    string_of(&buf)
}

/// The absolute form of a path text. An absolute text comes back as it
/// is. A text relative to the home directory is resolved against that
/// directory, any other against the current directory, and fails with
/// `EnvironmentUnavailable` where the directory it needs is not known. What
/// comes back is an absolute path text.
pub fn str_path_absolute(s: &str, env: &Environment) -> (r: Result<String, PathError>)
    ensures
        result_view(r) == absolute(s@, env@),
        r matches Ok(a) ==> is_absolute(a@),
{
    let v = chars_of(s);
    let cs = classify(&v);
    let home_first = cs.len() > 0 && cs[0].is_home_dir();
    if !home_first && v.len() > 0 && v[0] == MAIN_SEPARATOR {
        Ok(s.to_owned())
    } else if home_first {
        match env.home_dir() {
            Some(home) => {
                let a = resolve_onto(home.as_str(), &cs, 1);
                proof {
                    lemma_absolute_components(s@, env@, home@);
                    lemma_rooted_components(a@);
                }
                Ok(a)
            },
            None => Err(PathError::EnvironmentUnavailable),
        }
    } else {
        match env.current_dir() {
            Some(cwd) => {
                let k = leading_cur_dir_count(&cs);
                let a = resolve_onto(cwd.as_str(), &cs, k);
                proof {
                    lemma_absolute_components(s@, env@, cwd@);
                    lemma_rooted_components(a@);
                }
                Ok(a)
            },
            None => Err(PathError::EnvironmentUnavailable),
        }
    }
}

/// The components of `path` behind those of `base`, as a path text behind
/// `front`; nothing where the components of `path` do not begin with those
/// of `base`.
pub(crate) fn strip_onto(path: &str, base: &str, front: Vec<char>) -> (r: Option<String>)
    ensures
        option_view(r) == match strip_prefix(path@, base@) {
            Some(rest) => Some(append_all(front@, rest)),
            None => None,
        },
{
    let cs = str_path_components(path);
    let bs = str_path_components(base);
    if components_start_with(cs.as_slice(), bs.as_slice()) {
        let mut buf = front;
        append_components(&mut buf, cs.as_slice(), bs.len(), cs.len());
        Some(string_of(&buf))
    } else {
        None
    }
}

/// The form of a path text relative to the current directory. Fails with
/// `EnvironmentUnavailable` where the text has no absolute form, and with
/// `PrefixMismatch` where the absolute form does not lie under the current
/// directory, or that directory is not known.
pub fn str_path_simple_relative(s: &str, env: &Environment) -> (r: Result<String, PathError>)
    ensures
        result_view(r) == simple_relative(s@, env@),
{
    match str_path_absolute(s, env) {
        Err(e) => Err(e),
        Ok(a) => match env.current_dir() {
            None => Err(PathError::PrefixMismatch),
            Some(cwd) => match strip_onto(a.as_str(), cwd.as_str(), Vec::new()) {
                Some(rest) => Ok(rest),
                None => Err(PathError::PrefixMismatch),
            },
        },
    }
}

/// The form of a path text relative to the home directory, which begins
/// with `~`. Fails with `EnvironmentUnavailable` where the text has no
/// absolute form, and with `PrefixMismatch` where the absolute form does not
/// lie under the home directory, or that directory is not known.
pub fn str_path_simple_relative_home(s: &str, env: &Environment) -> (r: Result<
    String,
    PathError,
>)
    ensures
        result_view(r) == relative_to_home(s@, env@),
{
    match str_path_absolute(s, env) {
        Err(e) => Err(e),
        Ok(a) => match env.home_dir() {
            None => Err(PathError::PrefixMismatch),
            Some(home) => {
                let mut front: Vec<char> = Vec::new();
                front.push('~');
                proof {
                    if let Some(rest) = strip_prefix(a@, home@) {
                        let all = seq![ComponentView::HomeDir] + rest;
                        lemma_append_all_front(Seq::empty(), all);
                        assert(all.skip(1) =~= rest);
                    }
                }
                match strip_onto(a.as_str(), home.as_str(), front) {
                    Some(rest) => Ok(rest),
                    None => Err(PathError::PrefixMismatch),
                }
            },
        },
    }
}

/// `s2` joined to `s1`: `s2` itself where it is absolute, else `s1` with
/// the components of `s2` pushed onto it.
pub fn str_path_join(s1: &str, s2: &str) -> (joined: String)
    ensures
        joined@ == join(s1@, s2@),
{
    if str_path_is_absolute(s2) {
        s2.to_owned()
    } else {
        let cs = str_path_components(s2);
        let joined = resolve_onto(s1, &cs, 0);
        assert(views(cs@).skip(0) =~= views(cs@));
        joined
    }
}

/// The file name of a path text: its last named segment, if it has one.
pub fn str_path_file_name(s: &str) -> (name: Option<String>)
    ensures
        option_view(name) == file_name(s@),
{
    let cs = str_path_components(s);
    let mut i: usize = cs.len();
    assert(views(cs@).take(i as int) =~= views(cs@));
    while i > 0
        invariant
            i <= cs.len(),
            views(cs@) == components(s@),
            file_name(s@) == last_normal(views(cs@).take(i as int)),
        decreases i,
    {
        assert(views(cs@).take(i as int).drop_last() =~= views(cs@).take(i - 1));
        i -= 1;
        match &cs[i] {
            StrPathComponent::Normal(text) => {
                return Some(text.clone());
            },
            _ => {},
        }
    }
    None
}

/// The parent of a path text: the text of its components but the last.
/// The empty text and the root have none.
pub fn str_path_parent(s: &str) -> (dir: Option<String>)
    ensures
        option_view(dir) == parent(s@),
{
    let cs = str_path_components(s);
    if cs.len() == 0 {
        None
    } else if cs.len() == 1 && cs[0] == StrPathComponent::RootDir {
        assert(views(cs@) =~= seq![ComponentView::RootDir]);
        None
    } else {
        assert(views(cs@) != seq![ComponentView::RootDir]) by {
            assert(seq![ComponentView::RootDir].len() == 1);
            assert(seq![ComponentView::RootDir][0] == ComponentView::RootDir);
        }
        let mut buf: Vec<char> = Vec::new();
        append_components(&mut buf, cs.as_slice(), 0, cs.len() - 1);
        Some(string_of(&buf))
    }
}

/// Whether the components of `s` begin with all the components of
/// `prefix`.
pub fn str_path_starts_with(s: &str, prefix: &str) -> (b: bool)
    ensures
        b == starts_with(s@, prefix@),
{
    let cs = str_path_components(s);
    let ps = str_path_components(prefix);
    components_start_with(cs.as_slice(), ps.as_slice())
}

/// The current directory as a path text; `EnvironmentUnavailable` where it
/// is not known.
pub fn str_path_current_dir(env: &Environment) -> (r: Result<String, PathError>)
    ensures
        result_view(r) == known(env@.cwd),
{
    env.current_working_directory()
}

/// The current directory as a path text, for an environment in which it is
/// known.
pub fn str_path_current_dir_or_panic(env: &Environment) -> (cwd: String)
    requires
        env@.cwd is Some,
    ensures
        Some(cwd@) == env@.cwd,
{
    str_path_current_dir(env).unwrap()
}

/// The current directory in the form relative to the home directory:
/// `EnvironmentUnavailable` where the current directory is not known, else
/// its form relative to the home directory.
pub open spec fn current_dir_rel_home(env: EnvironmentView) -> Result<Seq<char>, PathError> {
    match env.cwd {
        Some(c) => relative_to_home(c, env),
        None => Err(PathError::EnvironmentUnavailable),
    }
}

/// The current directory in the form relative to the home directory.
/// Fails with `EnvironmentUnavailable` where the current directory is not
/// known, and with `PrefixMismatch` where it does not lie under the home
/// directory, or that directory is not known.
pub fn str_path_current_dir_rel_home(env: &Environment) -> (r: Result<String, PathError>)
    ensures
        result_view(r) == current_dir_rel_home(env@),
{
    match env.current_dir() {
        Some(cwd) => str_path_simple_relative_home(cwd.as_str(), env),
        None => Err(PathError::EnvironmentUnavailable),
    }
}

/// The current directory in the form relative to the home directory, for
/// an environment in which that form exists.
pub fn str_path_current_dir_or_rel_home_panic(env: &Environment) -> (s: String)
    requires
        current_dir_rel_home(env@) is Ok,
    ensures
        Ok::<Seq<char>, PathError>(s@) == current_dir_rel_home(env@),
{
    str_path_current_dir_rel_home(env).unwrap()
}

/// File path operations on a value that holds a path text.
pub trait StrPath {
    /// The path text that the value holds.
    spec fn path_text(&self) -> Seq<char>;

    /// The absolute form of the path text, which is an absolute path text.
    fn path_absolute(&self, env: &Environment) -> (r: Result<String, PathError>)
        ensures
            result_view(r) == absolute(self.path_text(), env@),
            r matches Ok(a) ==> is_absolute(a@),
    ;

    /// The components of the path text.
    fn path_components(&self) -> (cs: Vec<StrPathComponent>)
        ensures
            views(cs@) == components(self.path_text()),
    ;

    /// Whether the path text is absolute.
    fn path_is_absolute(&self) -> (b: bool)
        ensures
            b == is_absolute(self.path_text()),
    ;

    /// Whether the path text is relative: neither absolute nor relative to
    /// the home directory.
    fn path_is_relative(&self) -> (b: bool)
        ensures
            b == is_relative(self.path_text()),
    ;

    /// Whether the path text is relative to the home directory.
    fn path_is_relative_to_home(&self) -> (b: bool)
        ensures
            b == is_relative_to_home(self.path_text()),
    ;

    /// The file name of the path text, if it has one.
    fn path_file_name(&self) -> (name: Option<String>)
        ensures
            option_view(name) == file_name(self.path_text()),
    ;

    /// `other` joined to the path text.
    fn path_join(&self, other: &str) -> (joined: String)
        ensures
            joined@ == join(self.path_text(), other@),
    ;

    /// The parent of the path text, if it has one.
    fn path_parent(&self) -> (dir: Option<String>)
        ensures
            option_view(dir) == parent(self.path_text()),
    ;

    /// The form of the path text relative to the current directory.
    fn path_simple_relative(&self, env: &Environment) -> (r: Result<String, PathError>)
        ensures
            result_view(r) == simple_relative(self.path_text(), env@),
    ;

    /// Whether the components of the path text begin with all the
    /// components of `prefix`.
    fn path_starts_with(&self, prefix: &str) -> (b: bool)
        ensures
            b == starts_with(self.path_text(), prefix@),
    ;
}

impl StrPath for str {
    open spec fn path_text(&self) -> Seq<char> {
        self@
    }

    fn path_absolute(&self, env: &Environment) -> (r: Result<String, PathError>) {
        str_path_absolute(self, env)
    }

    fn path_components(&self) -> (cs: Vec<StrPathComponent>) {
        str_path_components(self)
    }

    fn path_is_absolute(&self) -> (b: bool) {
        str_path_is_absolute(self)
    }

    fn path_is_relative(&self) -> (b: bool) {
        str_path_is_relative(self)
    }

    fn path_is_relative_to_home(&self) -> (b: bool) {
        str_path_is_relative_to_home(self)
    }

    fn path_file_name(&self) -> (name: Option<String>) {
        str_path_file_name(self)
    }

    fn path_join(&self, other: &str) -> (joined: String) {
        str_path_join(self, other)
    }

    fn path_parent(&self) -> (dir: Option<String>) {
        str_path_parent(self)
    }

    fn path_simple_relative(&self, env: &Environment) -> (r: Result<String, PathError>) {
        str_path_simple_relative(self, env)
    }

    fn path_starts_with(&self, prefix: &str) -> (b: bool) {
        str_path_starts_with(self, prefix)
    }
}

/// A path text that grows in place.
pub trait StringPathBuf {
    /// The path text that the value holds.
    spec fn path_text(&self) -> Seq<char>;

    /// Joins `path` to the path text held: an absolute `path` takes its
    /// place, any other has its components pushed onto it.
    fn path_push(&mut self, path: &str)
        ensures
            final(self).path_text() == join(old(self).path_text(), path@),
    ;
}

impl StringPathBuf for String {
    open spec fn path_text(&self) -> Seq<char> {
        self@
    }

    fn path_push(&mut self, path: &str) {
        let joined = str_path_join(self.as_str(), path);
        *self = joined;
    }
}

/// The path text of a value that stands for a path.
pub trait ToStringPath {
    /// The path text that the value stands for.
    spec fn string_path(&self) -> Seq<char>;

    /// The path text that the value stands for.
    fn to_string_path(&self) -> (s: String)
        ensures
            s@ == self.string_path(),
    ;
}

impl ToStringPath for [StrPathComponent] {
    /// Components stand for their rendering: each pushed onto the text of
    /// those before it.
    open spec fn string_path(&self) -> Seq<char> {
        render(views(self@))
    }

    fn to_string_path(&self) -> (s: String) {
        render_components(self)
    }
}

} // verus!
