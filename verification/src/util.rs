//! Recognising the font container that a path lies in.
//!
//! A font is kept as a directory whose name ends in `.ufo` or `.ufo3`, in any case.
//! A path lies in a font container where it names one itself or one of the directories
//! above it does; the nearest one counts. A path is held here as the sequence of its
//! components, which is all the classification reads.

use crate::text::ends_with;
use crate::text::lowercase;
use crate::text::to_lowercase;
use vstd::prelude::*;

verus! {

/// One component of a path.
#[derive(Debug, Clone, PartialEq, Eq)]
pub enum Component {
    /// A volume prefix, with its text.
    Prefix(String),
    /// The root directory.
    RootDir,
    /// A reference to the directory itself: `.`.
    CurDir,
    /// A reference to the directory above: `..`.
    ParentDir,
    /// The name of a file or directory.
    Normal(String),
}

/// A component of a path, with its text as a sequence of characters.
pub enum Part {
    /// See `Component::Prefix`.
    Prefix(Seq<char>),
    /// See `Component::RootDir`.
    RootDir,
    /// See `Component::CurDir`.
    CurDir,
    /// See `Component::ParentDir`.
    ParentDir,
    /// See `Component::Normal`.
    Normal(Seq<char>),
}

impl View for Component {
    type V = Part;

    open spec fn view(&self) -> Part {
        match self {
            Component::Prefix(text) => Part::Prefix(text@),
            Component::RootDir => Part::RootDir,
            Component::CurDir => Part::CurDir,
            Component::ParentDir => Part::ParentDir,
            Component::Normal(name) => Part::Normal(name@),
        }
    }
}

impl Component {
    /// A copy of this component.
    pub fn copy(&self) -> (same: Component)
        ensures
            same@ == self@,
    {
        match self {
            Component::Prefix(text) => Component::Prefix(text.clone()),
            Component::RootDir => Component::RootDir,
            Component::CurDir => Component::CurDir,
            Component::ParentDir => Component::ParentDir,
            Component::Normal(name) => Component::Normal(name.clone()),
        }
    }
}

/// A path, as its components from the outermost to the innermost.
#[derive(Debug, Clone, PartialEq, Eq)]
pub struct PathParts {
    /// The components, outermost first.
    pub components: Vec<Component>,
}

/// The views of the components `parts`.
pub open spec fn parts_of(parts: Seq<Component>) -> Seq<Part> {
    parts.map_values(|c: Component| c@)
}

impl View for PathParts {
    type V = Seq<Part>;

    open spec fn view(&self) -> Seq<Part> {
        parts_of(self.components@)
    }
}

/// The view of the path in `path`, if there is one.
pub open spec fn path_view(path: Option<PathParts>) -> Option<Seq<Part>> {
    match path {
        Some(p) => Some(p@),
        None => None,
    }
}

/// The last component of `path` where it is a name.
pub open spec fn file_name(path: Seq<Part>) -> Option<Seq<char>> {
    if path.len() > 0 && path.last() is Normal {
        Some(path.last()->Normal_0)
    } else {
        None
    }
}

/// `path` without its last component; none where the path is empty or ends in a root
/// or a prefix.
pub open spec fn parent(path: Seq<Part>) -> Option<Seq<Part>> {
    if path.len() > 0 && !(path.last() is RootDir) && !(path.last() is Prefix) {
        Some(path.drop_last())
    } else {
        None
    }
}

/// The extension of a font container: `.ufo`.
pub open spec fn ufo_extension() -> Seq<char> {
    seq!['.', 'u', 'f', 'o']
}

/// The extension of a font container of the third format: `.ufo3`.
pub open spec fn ufo3_extension() -> Seq<char> {
    seq!['.', 'u', 'f', 'o', '3']
}

/// Whether a name in lower case ends as a font container's does.
pub open spec fn ends_as_ufo(lowered: Seq<char>) -> bool {
    ufo_extension().is_suffix_of(lowered) || ufo3_extension().is_suffix_of(lowered)
}

/// Whether `path` names a font container: its last component is a name that, in lower
/// case, ends in `.ufo` or `.ufo3`.
pub open spec fn is_ufo(path: Seq<Part>) -> bool {
    match file_name(path) {
        Some(name) => ends_as_ufo(lowercase(name)),
        None => false,
    }
}

/// The font container that `path` lies in: the path itself where it names one, else
/// the container that the directory above it lies in; none where nothing is above it.
pub open spec fn container(path: Seq<Part>) -> Option<Seq<Part>>
    decreases path.len(),
{
    if is_ufo(path) {
        Some(path)
    } else {
        match parent(path) {
            None => None,
            Some(up) => container(up),
        }
    }
}

/// The container that a path lies in names a font container and is the path itself or
/// one of the directories above it.
pub proof fn lemma_container_is_ufo_above(path: Seq<Part>)
    ensures
        container(path) matches Some(found) ==> is_ufo(found) && found.is_prefix_of(path),
    decreases path.len(),
{
    if !is_ufo(path) {
        if let Some(up) = parent(path) {
            lemma_container_is_ufo_above(up);
        }
    }
}

/// A path lies in a font container whenever one of the directories above it names one,
/// whatever the names between them are; the container found is that directory or one
/// nearer to the path. The directory is given by the number `len` of its components,
/// and it is above the path where none of the components that follow is a root or a
/// prefix.
pub proof fn lemma_ufo_above_is_found(path: Seq<Part>, len: int)
    requires
        0 <= len <= path.len(),
        is_ufo(path.take(len)),
        forall|i: int| len <= i < path.len() ==> !(path[i] is RootDir) && !(path[i] is Prefix),
    ensures
        container(path) matches Some(found) && is_ufo(found) && len <= found.len(),
    decreases path.len() - len,
{
    if is_ufo(path) {
    } else {
        if len == path.len() {
            assert(path.take(len) == path);
        }
        assert(path.drop_last().take(len) == path.take(len));
        lemma_ufo_above_is_found(path.drop_last(), len);
    }
}

/// Whether a name in lower case ends as a font container's does.
pub fn has_ufo_extension(lowered: &str) -> (yes: bool)
    ensures
        yes == ends_as_ufo(lowered@),
{
    proof {
        reveal_strlit(".ufo");
        reveal_strlit(".ufo3");
        assert(".ufo"@ == ufo_extension());
        assert(".ufo3"@ == ufo3_extension());
    }
    ends_with(lowered, ".ufo") || ends_with(lowered, ".ufo3")
}

/// Whether `name` is the name of a font container.
pub fn names_ufo(name: &str) -> (yes: bool)
    ensures
        yes == ends_as_ufo(lowercase(name@)),
{
    let lowered = to_lowercase(name);
    has_ufo_extension(lowered.as_str())
}

impl PathParts {
    /// The path of the first `len` components.
    pub fn ancestor(&self, len: usize) -> (up: PathParts)
        requires
            len <= self.components@.len(),
        ensures
            up@ == self@.take(len as int),
    {
        let mut components: Vec<Component> = Vec::new();
        let mut at: usize = 0;
        while at < len
            invariant
                at <= len <= self.components@.len(),
                parts_of(components@) == self@.take(at as int),
            decreases len - at,
        {
            let next = self.components[at].copy();
            assert(parts_of(components@.push(next)) == parts_of(components@).push(next@));
            assert(self@.take(at + 1) == self@.take(at as int).push(self@[at as int]));
            components.push(next);
            at = at + 1;
        }
        PathParts { components }
    }

    /// A copy of this path.
    pub fn copy(&self) -> (same: PathParts)
        ensures
            same@ == self@,
    {
        assert(self@.take(self.components@.len() as int) == self@);
        self.ancestor(self.components.len())
    }

    /// The last of the first `len` components where it is a name.
    fn name_within(&self, len: usize) -> (name: Option<&str>)
        requires
            len <= self.components@.len(),
        ensures
            match name {
                Some(n) => file_name(self@.take(len as int)) == Some(n@),
                None => file_name(self@.take(len as int)) is None,
            },
    {
        if len == 0 {
            return None;
        }
        match &self.components[len - 1] {
            Component::Normal(name) => Some(name.as_str()),
            _ => None,
        }
    }

    /// Whether the first `len` components have a path above them.
    fn has_parent_within(&self, len: usize) -> (yes: bool)
        requires
            len <= self.components@.len(),
        ensures
            yes == parent(self@.take(len as int)) is Some,
            yes ==> len > 0 && parent(self@.take(len as int)) == Some(self@.take(len - 1)),
    {
        if len == 0 {
            return false;
        }
        assert(self@.take(len as int).drop_last() == self@.take(len - 1));
        match &self.components[len - 1] {
            Component::RootDir => false,
            Component::Prefix(_) => false,
            _ => true,
        }
    }

    /// Whether the first `len` components name a font container.
    fn is_ufo_within(&self, len: usize) -> (yes: bool)
        requires
            len <= self.components@.len(),
        ensures
            yes == is_ufo(self@.take(len as int)),
    {
        match self.name_within(len) {
            Some(name) => names_ufo(name),
            None => false,
        }
    }

    /// How many of the first `len` components make up the font container that they
    /// lie in.
    fn container_within(&self, len: usize) -> (found: Option<usize>)
        requires
            len <= self.components@.len(),
        ensures
            match found {
                Some(k) => k <= len && container(self@.take(len as int)) == Some(
                    self@.take(k as int),
                ),
                None => container(self@.take(len as int)) is None,
            },
        decreases len,
    {
        if self.is_ufo_within(len) {
            return Some(len);
        }
        if !self.has_parent_within(len) {
            return None;
        }
        self.container_within(len - 1)
    }
}

/// Something that lies at a path and may thus lie in a font container.
pub trait InUfo {
    /// The path that this lies at.
    spec fn path(&self) -> Seq<Part>;

    /// The font container that this lies in, if it lies in one.
    fn ufo(&self) -> (found: Option<PathParts>)
        ensures
            path_view(found) == container(self.path()),
    ;
}

impl InUfo for PathParts {
    open spec fn path(&self) -> Seq<Part> {
        self@
    }

    fn ufo(&self) -> (found: Option<PathParts>) {
        assert(self@.take(self.components@.len() as int) == self@);
        match self.container_within(self.components.len()) {
            Some(len) => Some(self.ancestor(len)),
            None => None,
        }
    }
}

} // verus!
