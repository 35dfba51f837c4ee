use metalr_build::buildkit::{ConfigurationError, Environment, PathType};
use metalr_build::path::BuildPath;

fn path(text: &str) -> BuildPath {
    BuildPath::new(
        text.starts_with('/'),
        text.split('/').filter(|c| !c.is_empty()).map(|c| c.to_string()).collect(),
    )
}

fn env_with_out_dir(out_dir: Option<BuildPath>) -> Environment {
    Environment { out_dir, debug: None, package_name: None, manifest_dir: None }
}

#[test]
fn new_keeps_its_parts() {
    let p = BuildPath::new(true, vec!["a".to_string(), "b".to_string()]);
    assert!(p.absolute);
    assert_eq!(p.components, vec!["a".to_string(), "b".to_string()]);
    assert_eq!(BuildPath::empty(), BuildPath::new(false, Vec::new()));
}

#[test]
fn clone_is_equal() {
    let p = path("/a/b/c.metal");
    assert_eq!(p.clone(), p);
}

#[test]
fn pop_removes_the_last_component() {
    let mut p = path("/a/b");
    assert!(p.pop());
    assert_eq!(p, path("/a"));
    assert!(p.pop());
    assert_eq!(p, path("/"));
    assert!(!p.pop());
    assert_eq!(p, path("/"));
    let mut r = path("a");
    assert!(r.pop());
    assert_eq!(r, BuildPath::empty());
    assert!(!r.pop());
    assert_eq!(r, BuildPath::empty());
}

#[test]
fn push_appends_a_relative_path() {
    let mut p = path("/a");
    p.push(&path("b/c"));
    assert_eq!(p, path("/a/b/c"));
    p.push(&BuildPath::empty());
    assert_eq!(p, path("/a/b/c"));
    let mut r = path("x");
    r.push(&path("y"));
    assert_eq!(r, path("x/y"));
}

#[test]
fn push_of_an_absolute_path_replaces() {
    let mut p = path("/a/b");
    p.push(&path("/c"));
    assert_eq!(p, path("/c"));
    let mut r = path("a/b");
    r.push(&path("/"));
    assert_eq!(r, path("/"));
}

#[test]
fn join_leaves_the_base_as_it_is() {
    let base = path("/a");
    assert_eq!(base.join(&path("b")), path("/a/b"));
    assert_eq!(base.join(&path("/b")), path("/b"));
    assert_eq!(base, path("/a"));
}

#[test]
fn child_appends_one_name() {
    assert_eq!(path("/a").child("dependency"), path("/a/dependency"));
    assert_eq!(BuildPath::empty().child("x"), path("x"));
}

#[test]
fn file_name_is_the_last_component() {
    assert_eq!(path("/a/b.metal").file_name(), Some(&"b.metal".to_string()));
    assert_eq!(path("/").file_name(), None);
    assert_eq!(BuildPath::empty().file_name(), None);
}

#[test]
fn extension_follows_the_last_dot() {
    assert_eq!(path("/a/b.metal").extension(), Some("metal".to_string()));
    assert_eq!(path("/a/b.tar.gz").extension(), Some("gz".to_string()));
    assert_eq!(path("/a/b.").extension(), Some("".to_string()));
    assert_eq!(path("/a/b").extension(), None);
    assert_eq!(path("/a/.hidden").extension(), None);
    assert_eq!(path("/a/.hidden.metal").extension(), Some("metal".to_string()));
    assert_eq!(path("/a.d/b").extension(), None);
    assert_eq!(path("/").extension(), None);
    assert_eq!(path("/a/ü.mé").extension(), Some("mé".to_string()));
}

#[test]
fn file_stem_is_the_name_without_its_extension() {
    assert_eq!(path("/a/b.metal").file_stem(), Some("b".to_string()));
    assert_eq!(path("/a/b.tar.gz").file_stem(), Some("b.tar".to_string()));
    assert_eq!(path("/a/b.").file_stem(), Some("b".to_string()));
    assert_eq!(path("/a/b").file_stem(), Some("b".to_string()));
    assert_eq!(path("/a/.hidden").file_stem(), Some(".hidden".to_string()));
    assert_eq!(path("/").file_stem(), None);
}

#[test]
fn exact_path_is_returned_as_it_is() {
    let exact = PathType::Exact(path("/anywhere/at/all"));
    assert_eq!(exact.path(&env_with_out_dir(None)), Ok(path("/anywhere/at/all")));
    assert_eq!(
        exact.path(&env_with_out_dir(Some(path("/t/debug/build/p-1/out")))),
        Ok(path("/anywhere/at/all"))
    );
}

#[test]
fn exe_relative_path_goes_three_levels_above_the_out_dir() {
    let env = env_with_out_dir(Some(path("/proj/target/debug/build/pkg-0123/out")));
    assert_eq!(
        PathType::EXERelative(path("shaders/lib")).path(&env),
        Ok(path("/proj/target/debug/shaders/lib"))
    );
    assert_eq!(
        PathType::EXERelative(BuildPath::empty()).path(&env),
        Ok(path("/proj/target/debug"))
    );
}

#[test]
fn exe_relative_path_of_a_short_out_dir_starts_at_its_root() {
    let env = env_with_out_dir(Some(path("/id/out")));
    assert_eq!(PathType::EXERelative(path("x")).path(&env), Ok(path("/x")));
    let relative = env_with_out_dir(Some(path("a/b/c/d")));
    assert_eq!(PathType::EXERelative(path("x")).path(&relative), Ok(path("a/x")));
}

#[test]
fn exe_relative_path_that_is_absolute_stands_for_itself() {
    let env = env_with_out_dir(Some(path("/t/debug/build/p-1/out")));
    assert_eq!(PathType::EXERelative(path("/elsewhere")).path(&env), Ok(path("/elsewhere")));
}

#[test]
fn exe_relative_path_needs_the_out_dir() {
    assert_eq!(
        PathType::EXERelative(path("x")).path(&env_with_out_dir(None)),
        Err(ConfigurationError::OutDirNotSet)
    );
}
