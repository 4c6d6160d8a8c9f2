use mfek_ipc::info::{directory, is_named};
use mfek_ipc::util::{Component, PathParts};
use mfek_ipc::{IPCInfo, KMDBIN};

fn rooted(names: &[&str]) -> PathParts {
    let mut components = vec![Component::RootDir];
    components.extend(names.iter().map(|n| Component::Normal(n.to_string())));
    PathParts { components }
}

fn text(path: &PathParts) -> String {
    let mut out = String::new();
    for component in &path.components {
        match component {
            Component::RootDir => {}
            Component::Normal(name) => {
                out.push('/');
                out.push_str(name);
            }
            _ => out.push_str("/?"),
        }
    }
    out
}

#[test]
fn ipcinfo() {
    let ipcinfo = IPCInfo::new_disconnected(rooted(&["target", "debug", "deps", "ipc.rlib"]));
    let s: String = text(&ipcinfo.parent_exe);
    assert!(s.contains("ipc.rlib"));
}

#[test]
fn disconnected_info_names_no_module_and_no_font() {
    let exe = rooted(&["usr", "bin", "MFEKglif"]);
    let info = IPCInfo::new_disconnected(exe.clone());
    assert_eq!(info.parent_module, KMDBIN);
    assert_eq!(info.parent_module, "ipc.rlib");
    assert_eq!(info.parent_exe, exe);
    assert_eq!(info.font, None);
    assert_eq!(info.glyph, None);
}

#[test]
fn info_of_a_font_directory() {
    let exe = rooted(&["usr", "bin", "MFEKglif"]);
    let font = rooted(&["fonts", "A.ufo"]);
    let info = IPCInfo::from_font_dir("glif".to_string(), &font, exe.clone());
    assert_eq!(info.parent_module, "glif");
    assert_eq!(info.parent_exe, exe);
    assert_eq!(info.font, Some(font));
    assert_eq!(info.glyph, None);
}

#[test]
fn info_of_a_font_directory_takes_any_path() {
    let odd = rooted(&["tmp", "not a font"]);
    let info = IPCInfo::from_font_dir("x".to_string(), &odd, rooted(&["x"]));
    assert_eq!(info.font, Some(odd));
}

#[test]
fn info_of_a_glyph_file() {
    let exe = rooted(&["usr", "bin", "MFEKglif"]);
    let path = PathParts {
        components: vec![
            Component::Normal("A.ufo".to_string()),
            Component::Normal("glyphs".to_string()),
            Component::Normal("a.glif".to_string()),
        ],
    };
    let canonical = rooted(&["fonts", "A.ufo", "glyphs", "a.glif"]);
    let info = IPCInfo::from_glif_path("glif".to_string(), &path, &canonical, exe.clone());
    assert_eq!(info.parent_module, "glif");
    assert_eq!(info.parent_exe, exe);
    assert_eq!(info.font, Some(rooted(&["fonts", "A.ufo"])));
    assert_eq!(info.glyph, Some(path));
}

#[test]
fn info_of_a_glyph_file_outside_a_font() {
    let path = rooted(&["tmp", "a.glif"]);
    let info = IPCInfo::from_glif_path("glif".to_string(), &path, &path, rooted(&["x"]));
    assert_eq!(info.font, None);
    assert_eq!(info.glyph, Some(path));
}

#[test]
fn info_of_a_fontinfo_file() {
    let exe = rooted(&["usr", "bin", "MFEKmetadata"]);
    let path = rooted(&["fonts", "A.ufo", "fontinfo.plist"]);
    let info = IPCInfo::from_fontinfo_path("metadata".to_string(), &path, &path, exe.clone());
    assert_eq!(info.parent_module, "metadata");
    assert_eq!(info.parent_exe, exe);
    assert_eq!(info.font, Some(rooted(&["fonts", "A.ufo"])));
    assert_eq!(info.glyph, Some(path));
}

#[test]
fn info_of_a_file_that_is_not_named_fontinfo() {
    let path = rooted(&["fonts", "A.ufo", "lib.plist"]);
    let info = IPCInfo::from_fontinfo_path("metadata".to_string(), &path, &path, rooted(&["x"]));
    assert_eq!(info.font, None);
    assert_eq!(info.glyph, Some(path));
}

#[test]
fn info_of_a_fontinfo_file_goes_by_the_canonical_directory() {
    let path = PathParts { components: vec![Component::Normal("fontinfo.plist".to_string())] };
    let canonical = rooted(&["fonts", "A.ufo", "fontinfo.plist"]);
    let info = IPCInfo::from_fontinfo_path("m".to_string(), &path, &canonical, rooted(&["x"]));
    assert_eq!(info.font, Some(rooted(&["fonts", "A.ufo"])));
    let elsewhere = rooted(&["tmp", "fontinfo.plist"]);
    let info = IPCInfo::from_fontinfo_path("m".to_string(), &path, &elsewhere, rooted(&["x"]));
    assert_eq!(info.font, None);
}

#[test]
fn info_of_a_fontinfo_file_whose_canonical_path_has_no_directory() {
    let root = rooted(&[]);
    let info = IPCInfo::from_fontinfo_path("m".to_string(), &root, &root, rooted(&["x"]));
    assert_eq!(info.font, None);
    assert_eq!(info.glyph, Some(root));
}

#[test]
fn directory_of_a_path() {
    assert_eq!(directory(&rooted(&["a", "b"])), Some(rooted(&["a"])));
    assert_eq!(directory(&rooted(&["a"])), Some(rooted(&[])));
    assert_eq!(directory(&rooted(&[])), None);
    assert_eq!(directory(&PathParts { components: vec![] }), None);
    assert_eq!(
        directory(&PathParts { components: vec![Component::Prefix("C:".to_string())] }),
        None
    );
    assert_eq!(
        directory(&PathParts { components: vec![Component::CurDir] }),
        Some(PathParts { components: vec![] })
    );
}

#[test]
fn name_of_a_path() {
    assert!(is_named(&rooted(&["a", "fontinfo.plist"]), "fontinfo.plist"));
    assert!(!is_named(&rooted(&["a", "fontinfo.plist"]), "a"));
    assert!(!is_named(&rooted(&[]), ""));
    assert!(!is_named(&PathParts { components: vec![Component::ParentDir] }, ".."));
}
