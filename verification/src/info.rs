//! What a module is told about the program that started it and the font it works on.

use crate::text::same_text;
use crate::util::container;
use crate::util::file_name;
use crate::util::parent;
use crate::util::path_view;
use crate::util::Component;
use crate::util::InUfo;
use crate::util::Part;
use crate::util::PathParts;
use vstd::prelude::*;

verus! {

/// The name of the parent module of an information that belongs to no module: `ipc.rlib`.
pub open spec fn disconnected_module() -> Seq<char> {
    seq!['i', 'p', 'c', '.', 'r', 'l', 'i', 'b']
}

/// The name of the file that describes a font: `fontinfo.plist`.
pub open spec fn fontinfo_name() -> Seq<char> {
    seq!['f', 'o', 'n', 't', 'i', 'n', 'f', 'o', '.', 'p', 'l', 'i', 's', 't']
}

/// The font that the file at `path` describes, given the canonical form of that path:
/// the container that the directory of the canonical path lies in, where the file is
/// named `fontinfo.plist`.
pub open spec fn font_of_fontinfo(path: Seq<Part>, canonical: Seq<Part>) -> Option<Seq<Part>> {
    match parent(canonical) {
        Some(dir) => if file_name(path) == Some(fontinfo_name()) {
            container(dir)
        } else {
            None
        },
        None => None,
    }
}

/// The font that a glyph belongs to, given the canonical path of its file, which lies
/// in a directory: the container that this directory lies in.
pub open spec fn font_of_glif(canonical: Seq<Part>) -> Option<Seq<Part>>
    recommends
        parent(canonical) is Some,
{
    container(parent(canonical)->0)
}

/// What one module tells another that it starts: who it is, and which font and glyph
/// it works on.
#[non_exhaustive]
#[derive(Debug, Clone, PartialEq)]
pub struct IPCInfo {
    /// The name of the module that gives the information.
    pub parent_module: String,
    /// The path of the running executable.
    pub parent_exe: PathParts,
    /// The font container, where one is known.
    pub font: Option<PathParts>,
    /// The file that the information was made from, where there is one.
    pub glyph: Option<PathParts>,
}

impl IPCInfo {
    /// The information of module `parent`, run from `exe`, on the font directory `path`.
    pub fn from_font_dir(parent: String, path: &PathParts, exe: PathParts) -> (info: IPCInfo)
        ensures
            info.parent_module@ == parent@,
            info.parent_exe@ == exe@,
            path_view(info.font) == Some(path@),
            info.glyph is None,
    {
        IPCInfo { parent_module: parent, parent_exe: exe, font: Some(path.copy()), glyph: None }
    }

    /// The information of module `parent`, run from `exe`, on the file at `path` that
    /// describes a font; `canonical` is the canonical form of `path`. Where the canonical
    /// path lies in a directory, `path` has to end in a name.
    pub fn from_fontinfo_path(
        parent: String,
        path: &PathParts,
        canonical: &PathParts,
        exe: PathParts,
    ) -> (info: IPCInfo)
        requires
            crate::util::parent(canonical@) is Some ==> file_name(path@) is Some,
        ensures
            info.parent_module@ == parent@,
            info.parent_exe@ == exe@,
            path_view(info.font) == font_of_fontinfo(path@, canonical@),
            path_view(info.glyph) == Some(path@),
    {
        proof {
            reveal_strlit("fontinfo.plist");
            assert("fontinfo.plist"@ == fontinfo_name());
        }
        let font = match directory(canonical) {
            None => None,
            Some(dir) => {
                if is_named(path, "fontinfo.plist") {
                    dir.ufo()
                } else {
                    None
                }
            },
        };
        IPCInfo { parent_module: parent, parent_exe: exe, font, glyph: Some(path.copy()) }
    }

    /// The information of module `parent`, run from `exe`, on the glyph file at `path`;
    /// `canonical` is the canonical form of `path`, which has to lie in a directory.
    pub fn from_glif_path(
        parent: String,
        path: &PathParts,
        canonical: &PathParts,
        exe: PathParts,
    ) -> (info: IPCInfo)
        requires
            crate::util::parent(canonical@) is Some,
        ensures
            info.parent_module@ == parent@,
            info.parent_exe@ == exe@,
            path_view(info.font) == font_of_glif(canonical@),
            path_view(info.glyph) == Some(path@),
    {
        let font = match directory(canonical) {
            None => None,
            Some(dir) => dir.ufo(),
        };
        IPCInfo { parent_module: parent, parent_exe: exe, font, glyph: Some(path.copy()) }
    }

    /// An information that belongs to no module and no font, for a program run from `exe`.
    pub fn new_disconnected(exe: PathParts) -> (info: IPCInfo)
        ensures
            info.parent_module@ == disconnected_module(),
            info.parent_exe@ == exe@,
            info.font is None,
            info.glyph is None,
    {
        proof {
            reveal_strlit("ipc.rlib");
            assert("ipc.rlib"@ == disconnected_module());
        }
        IPCInfo {
            parent_module: String::from_str(crate::KMDBIN),
            parent_exe: exe,
            font: None,
            glyph: None,
        }
    }
}

/// The directory that `path` lies in.
pub fn directory(path: &PathParts) -> (dir: Option<PathParts>)
    ensures
        path_view(dir) == parent(path@),
{
    let len = path.components.len();
    if len == 0 {
        return None;
    }
    match &path.components[len - 1] {
        Component::RootDir => None,
        Component::Prefix(_) => None,
        _ => {
            assert(path@.drop_last() == path@.take(len - 1));
            Some(path.ancestor(len - 1))
        },
    }
}

/// Whether the last component of `path` is the name `name`.
pub fn is_named(path: &PathParts, name: &str) -> (yes: bool)
    ensures
        yes == (file_name(path@) == Some(name@)),
{
    let len = path.components.len();
    if len == 0 {
        return false;
    }
    match &path.components[len - 1] {
        Component::Normal(last) => same_text(last.as_str(), name),
        _ => false,
    }
}

} // verus!
