//! The components of a path: their kinds and the text that each one
//! stands for.

use crate::chars::{append_str, string_of};
use crate::text::MAIN_SEPARATOR;
use vstd::prelude::*;

verus! {

/// A volume designator in front of a path: the drive and UNC forms.
#[derive(Debug, Clone)]
pub enum StrPathPrefix {
    Verbatim(String),
    VerbatimUNC(String, String),
    VerbatimDisk(u8),
    DeviceNS(String),
    UNC(String, String),
    Disk(u8),
}

/// One component of a path.
#[derive(Debug, Clone)]
pub enum StrPathComponent {
    Prefix(StrPathPrefix),
    RootDir,
    HomeDir,
    CurDir,
    ParentDir,
    Normal(String),
}

/// What a `StrPathPrefix` holds, as mathematical values.
pub enum PrefixView {
    Verbatim(Seq<char>),
    VerbatimUNC(Seq<char>, Seq<char>),
    VerbatimDisk(u8),
    DeviceNS(Seq<char>),
    UNC(Seq<char>, Seq<char>),
    Disk(u8),
}

/// What a `StrPathComponent` holds, as mathematical values.
pub enum ComponentView {
    Prefix(PrefixView),
    RootDir,
    HomeDir,
    CurDir,
    ParentDir,
    Normal(Seq<char>),
}

impl View for StrPathPrefix {
    type V = PrefixView;

    open spec fn view(&self) -> PrefixView {
        match self {
            StrPathPrefix::Verbatim(s) => PrefixView::Verbatim(s@),
            StrPathPrefix::VerbatimUNC(server, share) => PrefixView::VerbatimUNC(server@, share@),
            StrPathPrefix::VerbatimDisk(d) => PrefixView::VerbatimDisk(*d),
            StrPathPrefix::DeviceNS(s) => PrefixView::DeviceNS(s@),
            StrPathPrefix::UNC(server, share) => PrefixView::UNC(server@, share@),
            StrPathPrefix::Disk(d) => PrefixView::Disk(*d),
        }
    }
}

impl View for StrPathComponent {
    type V = ComponentView;

    open spec fn view(&self) -> ComponentView {
        match self {
            StrPathComponent::Prefix(p) => ComponentView::Prefix(p@),
            StrPathComponent::RootDir => ComponentView::RootDir,
            StrPathComponent::HomeDir => ComponentView::HomeDir,
            StrPathComponent::CurDir => ComponentView::CurDir,
            StrPathComponent::ParentDir => ComponentView::ParentDir,
            StrPathComponent::Normal(s) => ComponentView::Normal(s@),
        }
    }
}

impl PartialEq for StrPathPrefix {
    fn eq(&self, other: &Self) -> (r: bool) {
        match (self, other) {
            (StrPathPrefix::Verbatim(a), StrPathPrefix::Verbatim(b)) => *a == *b,
            (StrPathPrefix::VerbatimUNC(a1, a2), StrPathPrefix::VerbatimUNC(b1, b2)) => *a1 == *b1
                && *a2 == *b2,
            (StrPathPrefix::VerbatimDisk(a), StrPathPrefix::VerbatimDisk(b)) => *a == *b,
            (StrPathPrefix::DeviceNS(a), StrPathPrefix::DeviceNS(b)) => *a == *b,
            (StrPathPrefix::UNC(a1, a2), StrPathPrefix::UNC(b1, b2)) => *a1 == *b1 && *a2 == *b2,
            (StrPathPrefix::Disk(a), StrPathPrefix::Disk(b)) => *a == *b,
            _ => false,
        }
    }
}

impl vstd::std_specs::cmp::PartialEqSpecImpl for StrPathPrefix {
    open spec fn obeys_eq_spec() -> bool {
        true
    }

    open spec fn eq_spec(&self, other: &Self) -> bool {
        self@ == other@
    }
}

impl PartialEq for StrPathComponent {
    fn eq(&self, other: &Self) -> (r: bool) {
        match (self, other) {
            (StrPathComponent::Prefix(a), StrPathComponent::Prefix(b)) => *a == *b,
            (StrPathComponent::RootDir, StrPathComponent::RootDir) => true,
            (StrPathComponent::HomeDir, StrPathComponent::HomeDir) => true,
            (StrPathComponent::CurDir, StrPathComponent::CurDir) => true,
            (StrPathComponent::ParentDir, StrPathComponent::ParentDir) => true,
            (StrPathComponent::Normal(a), StrPathComponent::Normal(b)) => *a == *b,
            _ => false,
        }
    }
}

impl vstd::std_specs::cmp::PartialEqSpecImpl for StrPathComponent {
    open spec fn obeys_eq_spec() -> bool {
        true
    }

    open spec fn eq_spec(&self, other: &Self) -> bool {
        self@ == other@
    }
}

/// The text that a prefix stands for.
pub open spec fn prefix_text(p: PrefixView) -> Seq<char> {
    match p {
        PrefixView::Verbatim(s) => seq!['\\', '\\', '?', '\\'] + s,
        PrefixView::VerbatimUNC(server, share) => seq!['\\', '\\', '?', '\\', 'U', 'N', 'C', '\\']
            + server + seq!['\\'] + share,
        PrefixView::VerbatimDisk(d) => seq!['\\', '\\', '?', '\\', d as char, ':', '\\'],
        PrefixView::DeviceNS(s) => seq!['\\', '\\', '.', '\\'] + s,
        PrefixView::UNC(server, share) => seq!['\\', '\\'] + server + seq!['\\'] + share,
        PrefixView::Disk(d) => seq![d as char, ':'],
    }
}

/// The text of the root component: one separator.
pub open spec fn root_text() -> Seq<char> {
    seq![MAIN_SEPARATOR]
}

/// The text that marks the home directory.
pub open spec fn home_text() -> Seq<char> {
    seq!['~']
}

/// The text that names the current directory.
pub open spec fn cur_dir_text() -> Seq<char> {
    seq!['.']
}

/// The text that names the parent directory.
pub open spec fn parent_dir_text() -> Seq<char> {
    seq!['.', '.']
}

/// The text that a component stands for.
pub open spec fn text_of(c: ComponentView) -> Seq<char> {
    match c {
        ComponentView::Prefix(p) => prefix_text(p),
        ComponentView::RootDir => root_text(),
        ComponentView::HomeDir => home_text(),
        ComponentView::CurDir => cur_dir_text(),
        ComponentView::ParentDir => parent_dir_text(),
        ComponentView::Normal(t) => t,
    }
}

/// The views of a sequence of components, one for one.
pub open spec fn views(cs: Seq<StrPathComponent>) -> Seq<ComponentView> {
    cs.map_values(|c: StrPathComponent| c@)
}

impl StrPathPrefix {
    /// The text of this prefix, as a vector of characters.
    pub fn text_chars(&self) -> (v: Vec<char>)
        ensures
            v@ == prefix_text(self@),
    {
        let mut v: Vec<char> = Vec::new();
        match self {
            StrPathPrefix::Verbatim(s) => {
                v.push('\\');
                v.push('\\');
                v.push('?');
                v.push('\\');
                append_str(&mut v, s.as_str());
            },
            StrPathPrefix::VerbatimUNC(server, share) => {
                v.push('\\');
                v.push('\\');
                v.push('?');
                v.push('\\');
                v.push('U');
                v.push('N');
                v.push('C');
                v.push('\\');
                append_str(&mut v, server.as_str());
                v.push('\\');
                append_str(&mut v, share.as_str());
            },
            StrPathPrefix::VerbatimDisk(d) => {
                v.push('\\');
                v.push('\\');
                v.push('?');
                v.push('\\');
                v.push(*d as char);
                v.push(':');
                v.push('\\');
            },
            StrPathPrefix::DeviceNS(s) => {
                v.push('\\');
                v.push('\\');
                v.push('.');
                v.push('\\');
                append_str(&mut v, s.as_str());
            },
            StrPathPrefix::UNC(server, share) => {
                v.push('\\');
                v.push('\\');
                append_str(&mut v, server.as_str());
                v.push('\\');
                append_str(&mut v, share.as_str());
            },
            StrPathPrefix::Disk(d) => {
                v.push(*d as char);
                v.push(':');
            },
        }
        v
    }

    /// The text of this prefix.
    pub fn to_string(&self) -> (s: String)
        ensures
            s@ == prefix_text(self@),
    {
        string_of(&self.text_chars())
    }
}

impl StrPathComponent {
    /// The text of this component, as a vector of characters.
    pub fn text_chars(&self) -> (v: Vec<char>)
        ensures
            v@ == text_of(self@),
    {
        let mut v: Vec<char> = Vec::new();
        match self {
            StrPathComponent::Prefix(p) => {
                v = p.text_chars();
            },
            StrPathComponent::RootDir => {
                v.push(MAIN_SEPARATOR);
            },
            StrPathComponent::HomeDir => {
                v.push('~');
            },
            StrPathComponent::CurDir => {
                v.push('.');
            },
            StrPathComponent::ParentDir => {
                v.push('.');
                v.push('.');
            },
            StrPathComponent::Normal(s) => {
                append_str(&mut v, s.as_str());
            },
        }
        v
    }

    /// The text of this component: the separator for the root, `~` for the
    /// home directory, `.` and `..` for the current and the parent
    /// directory, and its own text for a named segment.
    pub fn to_string(&self) -> (s: String)
        ensures
            s@ == text_of(self@),
    {
        string_of(&self.text_chars())
    }

    /// Whether this component names the current directory.
    pub fn is_cur_dir(&self) -> (b: bool)
        ensures
            b == (self@ == ComponentView::CurDir),
    {
        match self {
            StrPathComponent::CurDir => true,
            _ => false,
        }
    }

    /// Whether this component is the home directory.
    pub fn is_home_dir(&self) -> (b: bool)
        ensures
            b == (self@ == ComponentView::HomeDir),
    {
        match self {
            StrPathComponent::HomeDir => true,
            _ => false,
        }
    }

    /// Whether this component is a named segment.
    pub fn is_normal(&self) -> (b: bool)
        ensures
            b == (self@ is Normal),
    {
        match self {
            StrPathComponent::Normal(_) => true,
            _ => false,
        }
    }
}

} // verus!
