use mfek_ipc::util::{has_ufo_extension, names_ufo, Component, PathParts};
use mfek_ipc::InUfo;

fn rooted(names: &[&str]) -> PathParts {
    let mut components = vec![Component::RootDir];
    components.extend(names.iter().map(|n| Component::Normal(n.to_string())));
    PathParts { components }
}

fn relative(names: &[&str]) -> PathParts {
    PathParts { components: names.iter().map(|n| Component::Normal(n.to_string())).collect() }
}

#[test]
fn font_container_names() {
    assert!(names_ufo("Font.ufo"));
    assert!(names_ufo("Font.ufo3"));
    assert!(names_ufo(".ufo"));
    assert!(!names_ufo("Font.ufo2"));
    assert!(!names_ufo("ufo"));
    assert!(!names_ufo("Font.ufo.bak"));
    assert!(!names_ufo(""));
}

#[test]
fn font_container_names_in_any_case() {
    assert!(names_ufo("FONT.UFO"));
    assert!(names_ufo("Font.uFo3"));
    assert!(names_ufo("\u{00c9}T\u{00c9}.Ufo"));
}

#[test]
fn the_extension_is_looked_for_in_lower_case() {
    assert!(has_ufo_extension("font.ufo"));
    assert!(has_ufo_extension("font.ufo3"));
    assert!(!has_ufo_extension("FONT.UFO"));
    assert!(!has_ufo_extension("font.ufo4"));
}

#[test]
fn a_font_container_lies_in_itself() {
    let font = rooted(&["home", "Font.ufo"]);
    assert_eq!(font.ufo(), Some(font.clone()));
}

#[test]
fn a_file_in_a_font_container_lies_in_it() {
    assert_eq!(
        rooted(&["home", "Font.ufo", "fontinfo.plist"]).ufo(),
        Some(rooted(&["home", "Font.ufo"]))
    );
}

#[test]
fn a_glyph_lies_in_the_font_above_its_directory() {
    assert_eq!(
        rooted(&["home", "Font.UFO3", "glyphs", "a.glif"]).ufo(),
        Some(rooted(&["home", "Font.UFO3"]))
    );
    assert_eq!(
        relative(&["Font.ufo", "glyphs.background", "a.glif"]).ufo(),
        Some(relative(&["Font.ufo"]))
    );
}

#[test]
fn every_directory_above_is_looked_at() {
    assert_eq!(
        rooted(&["a", "Foo.ufo", "images", "x.png"]).ufo(),
        Some(rooted(&["a", "Foo.ufo"]))
    );
    assert_eq!(
        rooted(&["Font.ufo", "glyphs", "glyphs.x", "a.glif"]).ufo(),
        Some(rooted(&["Font.ufo"]))
    );
    assert_eq!(rooted(&["Font.ufo", "images"]).ufo(), Some(rooted(&["Font.ufo"])));
    assert_eq!(rooted(&["Font.ufo", "data", "deep", "a.txt"]).ufo(), Some(rooted(&["Font.ufo"])));
    assert_eq!(rooted(&["Font.ufo", "data", "glyphs", "a.glif"]).ufo(), Some(rooted(&["Font.ufo"])));
}

#[test]
fn the_nearest_container_counts() {
    assert_eq!(
        rooted(&["Outer.ufo", "data", "Inner.UFO3", "glyphs", "a.glif"]).ufo(),
        Some(rooted(&["Outer.ufo", "data", "Inner.UFO3"]))
    );
    assert_eq!(
        rooted(&["Outer.ufo", "Inner.ufo"]).ufo(),
        Some(rooted(&["Outer.ufo", "Inner.ufo"]))
    );
}

#[test]
fn paths_outside_a_font_container_lie_in_none() {
    assert_eq!(rooted(&["home", "glyphs", "a.glif"]).ufo(), None);
    assert_eq!(rooted(&["a.glif"]).ufo(), None);
    assert_eq!(rooted(&[]).ufo(), None);
    assert_eq!(relative(&[]).ufo(), None);
    assert_eq!(relative(&["a.glif"]).ufo(), None);
}

#[test]
fn components_that_are_no_names_name_no_container() {
    let mut dotted = rooted(&["Font.ufo"]);
    dotted.components.push(Component::ParentDir);
    assert_eq!(dotted.ufo(), Some(rooted(&["Font.ufo"])));
    let mut twice = rooted(&["Font.ufo", "glyphs"]);
    twice.components.push(Component::ParentDir);
    twice.components.push(Component::ParentDir);
    assert_eq!(twice.ufo(), Some(rooted(&["Font.ufo"])));
    let split = PathParts {
        components: vec![
            Component::Normal("Font.ufo".to_string()),
            Component::RootDir,
            Component::Normal("a.glif".to_string()),
        ],
    };
    assert_eq!(split.ufo(), None);
    let prefix = PathParts { components: vec![Component::Prefix("C:".to_string())] };
    assert_eq!(prefix.ufo(), None);
}

#[test]
fn ancestors_and_copies() {
    let path = rooted(&["a", "b", "c"]);
    assert_eq!(path.ancestor(0), PathParts { components: vec![] });
    assert_eq!(path.ancestor(2), rooted(&["a"]));
    assert_eq!(path.ancestor(4), path);
    assert_eq!(path.copy(), path);
    assert_eq!(Component::Normal("x".to_string()).copy(), Component::Normal("x".to_string()));
    assert_eq!(Component::Prefix("C:".to_string()).copy(), Component::Prefix("C:".to_string()));
    assert_eq!(Component::CurDir.copy(), Component::CurDir);
}
