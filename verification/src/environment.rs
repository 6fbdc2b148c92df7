//! The two facts about the process that resolution depends on: the current
//! working directory and the home directory of the user.

use crate::chars::{chars_of, option_view, result_view};
use crate::text::{has_root, MAIN_SEPARATOR};
use vstd::prelude::*;

verus! {

/// Why a path could not be resolved.
#[derive(Debug, Clone, Copy, PartialEq, Eq, Structural)]
pub enum PathError {
    /// The current directory or the home directory that the resolution
    /// needs is not known.
    EnvironmentUnavailable,
    /// The path does not lie under the directory that it was to be made
    /// relative to.
    PrefixMismatch,
}

/// The current working directory and the home directory, each as a path
/// text, where it is known. A directory is known only by an absolute path
/// text.
#[derive(Debug)]
pub struct Environment {
    cwd: Option<String>,
    home: Option<String>,
}

/// What an `Environment` holds, as mathematical values.
pub struct EnvironmentView {
    pub cwd: Option<Seq<char>>,
    pub home: Option<Seq<char>>,
}

impl EnvironmentView {
    /// Each directory that is known is known by an absolute path text.
    pub open spec fn wf(self) -> bool {
        &&& self.cwd matches Some(c) ==> has_root(c)
        &&& self.home matches Some(h) ==> has_root(h)
    }
}

/// A directory fact as an environment records it: a text that is not
/// absolute names no directory, and counts as unknown.
pub open spec fn usable_fact(fact: Option<Seq<char>>) -> Option<Seq<char>> {
    match fact {
        Some(t) => if has_root(t) {
            Some(t)
        } else {
            None
        },
        None => None,
    }
}

/// A directory fact as a result: the text where the directory is known,
/// `EnvironmentUnavailable` where it is not.
pub open spec fn known(fact: Option<Seq<char>>) -> Result<Seq<char>, PathError> {
    match fact {
        Some(t) => Ok(t),
        None => Err(PathError::EnvironmentUnavailable),
    }
}

impl View for Environment {
    type V = EnvironmentView;

    closed spec fn view(&self) -> EnvironmentView {
        EnvironmentView { cwd: option_view(self.cwd), home: option_view(self.home) }
    }
}

/// `dirs::home_dir`: the home directory of the current user, as the
/// platform reports it at the time of the call, turned into text (lossily,
/// where it is not Unicode). The answer depends on the process environment
/// and the user database, so nothing is claimed of it.
#[verifier::external_body]
pub(crate) fn home_dir_text() -> (home: Option<String>) {
    match dirs::home_dir() {
        Some(path) => Some(path.to_string_lossy().into_owned()),
        None => None,
    }
}

/// Keeps a directory fact only where its text is absolute.
fn usable(fact: Option<String>) -> (kept: Option<String>)
    ensures
        option_view(kept) == usable_fact(option_view(fact)),
{
    match fact {
        Some(text) => {
            let v = chars_of(text.as_str());
            if v.len() > 0 && v[0] == MAIN_SEPARATOR {
                Some(text)
            } else {
                None
            }
        },
        None => None,
    }
}

impl Environment {
    #[verifier::type_invariant]
    spec fn valid(&self) -> bool {
        self@.wf()
    }

    /// An environment with the given facts. `None` says that a directory
    /// could not be determined; a text that is not absolute says the same.
    pub fn new(cwd: Option<String>, home: Option<String>) -> (env: Environment)
        ensures
            env@.cwd == usable_fact(option_view(cwd)),
            env@.home == usable_fact(option_view(home)),
            env@.wf(),
    {
        Environment { cwd: usable(cwd), home: usable(home) }
    }

    /// An environment with the given current directory and the home
    /// directory of the current user, looked up at this moment.
    pub fn with_home_lookup(cwd: Option<String>) -> (env: Environment)
        ensures
            env@.cwd == usable_fact(option_view(cwd)),
            env@.wf(),
    {
        Environment::new(cwd, home_dir_text())
    }

    /// The current working directory; `EnvironmentUnavailable` where it is
    /// not known.
    pub fn current_working_directory(&self) -> (r: Result<String, PathError>)
        ensures
            result_view(r) == known(self@.cwd),
    {
        match self.current_dir() {
            Some(cwd) => Ok(cwd.clone()),
            None => Err(PathError::EnvironmentUnavailable),
        }
    }

    /// The home directory; `EnvironmentUnavailable` where it is not known.
    pub fn home_directory(&self) -> (r: Result<String, PathError>)
        ensures
            result_view(r) == known(self@.home),
    {
        match self.home_dir() {
            Some(home) => Ok(home.clone()),
            None => Err(PathError::EnvironmentUnavailable),
        }
    }

    /// The current working directory, if it is known.
    pub fn current_dir(&self) -> (cwd: Option<&String>)
        ensures
            self@.wf(),
            match cwd {
                Some(c) => self@.cwd == Some(c@),
                None => self@.cwd is None,
            },
    {
        proof {
            use_type_invariant(self);
        }
        self.cwd.as_ref()
    }

    /// The home directory, if it is known.
    pub fn home_dir(&self) -> (home: Option<&String>)
        ensures
            self@.wf(),
            match home {
                Some(h) => self@.home == Some(h@),
                None => self@.home is None,
            },
    {
        proof {
            use_type_invariant(self);
        }
        self.home.as_ref()
    }
}

} // verus!
