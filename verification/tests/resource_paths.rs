use std::path::{Path, PathBuf};

use red4ext_rs::res::{ResRef, ResourcePath, ResourcePathBuilder, ResourcePathError};

fn built(components: &[&str]) -> Result<ResourcePath, ResourcePathError> {
    let mut builder = ResourcePathBuilder::default();
    for c in components {
        builder = builder.join(c);
    }
    builder.build()
}

fn from_path_buf(components: &[&str]) -> Result<ResourcePath, ResourcePathError> {
    let mut path = PathBuf::from(components[0]);
    for c in &components[1..] {
        path = path.join(c);
    }
    ResourcePath::new(path.to_str().unwrap())
}

fn res_ref(components: &[&str]) -> Result<ResRef, ResourcePathError> {
    let mut path = Path::new(components[0]).to_path_buf();
    for c in &components[1..] {
        path = path.join(c);
    }
    ResRef::new(&path.to_string_lossy())
}

#[test]
fn macros_res_path() {
    assert!(built(&[""]).is_err());
    assert!(built(&["..", "somewhere", "in", "archive", "custom.ent"]).is_err());
    assert!(built(&["base", "somewhere", "in", "archive", "custom.ent"]).is_ok());
    assert!(built(&["custom.ent"]).is_ok());
    assert!(built(&[".custom.ent"]).is_ok());
}

#[test]
fn lib_res_path() {
    assert!(from_path_buf(&[""]).is_err());
    assert!(from_path_buf(&["..", "somewhere", "in", "archive", "custom.ent"]).is_err());
    assert!(from_path_buf(&["base", "somewhere", "in", "archive", "custom.ent"]).is_ok());
    assert!(from_path_buf(&["custom.ent"]).is_ok());
    assert!(from_path_buf(&[".custom.ent"]).is_ok());
}

#[test]
fn types_res_path() {
    assert!(res_ref(&[""]).is_err());
    assert!(res_ref(&["..", "somewhere", "in", "archive", "custom.ent"]).is_err());
    assert!(res_ref(&["base", "somewhere", "in", "archive", "custom.ent"]).is_ok());
    assert!(res_ref(&["custom.ent"]).is_ok());
    assert!(res_ref(&[".custom.ent"]).is_ok());
}

#[test]
fn resource_path_builder() {
    assert_eq!(
        ResourcePathBuilder::default()
            .join("base")
            .join("somewhere")
            .join("in")
            .join("archive")
            .build()
            .unwrap(),
        ResourcePath::new("base\\somewhere\\in\\archive").unwrap()
    );

    let path = PathBuf::from("multi\\").join("somewhere");
    assert_eq!(
        ResourcePathBuilder::default()
            .join(&path.to_string_lossy())
            .join("in")
            .join("archive")
            .build()
            .unwrap(),
        ResourcePath::new("multi\\somewhere\\in\\archive").unwrap()
    );
}

#[test]
fn resource_path_errors() {
    assert_eq!(ResourcePath::new(""), Err(ResourcePathError::Empty));
    assert_eq!(ResourcePath::new("\"//\\\\'"), Err(ResourcePathError::Empty));
    assert_eq!(ResourcePath::new("base/../x.ent"), Err(ResourcePathError::NotCanonical));
    assert_eq!(ResourcePath::new("./x.ent"), Err(ResourcePathError::NotCanonical));
    assert_eq!(ResourcePath::new("c:/x.ent"), Err(ResourcePathError::NotCanonical));
    assert!(ResourcePath::new("base/./x.ent").is_ok());
    let long = "a".repeat(ResourcePath::MAX_LENGTH);
    assert!(ResourcePath::new(&long).is_ok());
    let too_long = "a".repeat(ResourcePath::MAX_LENGTH + 1);
    assert_eq!(ResourcePath::new(&too_long), Err(ResourcePathError::TooLong));
    // length is checked before canonicity
    let long_parent = format!("../{}", "a".repeat(ResourcePath::MAX_LENGTH));
    assert_eq!(ResourcePath::new(&long_parent), Err(ResourcePathError::TooLong));
}

#[test]
fn resource_path_canonical_form_is_hashed() {
    // the hash is FNV-1a 64 of the lowercased, backslash-joined components
    let expected = red4ext_rs::hash::fnv1a64("base\\mod\\character.ent");
    let p = ResourcePath::new("'/Base//MOD\\character.ent/\"").unwrap();
    assert_eq!(p.hash(), expected);
}

#[test]
fn resource_path_separators_and_case() {
    let a = ResourcePath::new("base/mod/custom.ent").unwrap();
    let b = ResourcePath::new("BASE\\Mod\\Custom.ent").unwrap();
    assert_eq!(a, b);
    assert_ne!(a, ResourcePath::new("base/mod/other.ent").unwrap());
}

#[test]
fn resource_path_builder_replaces_on_rooted_component() {
    let a = ResourcePathBuilder::default().join("base").join("/other").join("x.ent").build();
    assert_eq!(a, ResourcePath::new("other/x.ent"));
    let b = ResourcePathBuilder::default().join("c:").join("x.ent").build();
    assert_eq!(b, Err(ResourcePathError::NotCanonical));
}

#[test]
fn res_ref_points_at_path() {
    let r = ResRef::new("base/x.ent").unwrap();
    assert_eq!(r.path(), ResourcePath::new("base\\x.ent").unwrap());
    assert_eq!(ResRef::new("").unwrap_err(), ResourcePathError::Empty);
}

#[test]
fn joining_in_turn_is_joining_the_joined_path() {
    // (base, x, y, x joined with y)
    let cases = [
        ("base", "mod", "custom.ent", "mod\\custom.ent"),
        ("base", "mod\\", "custom.ent", "mod\\custom.ent"),
        ("base", "", "z.ent", "z.ent"),
        ("base", "mod", "\\top\\z.ent", "\\top\\z.ent"),
        ("C:", "x", "\\y", "\\y"),
        ("base", "c:\\abs", "z", "c:\\abs\\z"),
    ];
    for (b, x, y, xy) in cases {
        let stepwise = ResourcePathBuilder::default().join(b).join(x).join(y).build();
        let at_once = ResourcePathBuilder::default().join(b).join(xy).build();
        assert_eq!(stepwise, at_once, "{b} {x} {y}");
    }
    let stepwise = ResourcePathBuilder::default().join("base").join("mod").join("custom.ent").build();
    assert_eq!(stepwise, ResourcePath::new("base\\mod\\custom.ent"));
}
