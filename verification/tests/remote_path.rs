use camino::Utf8Path;
use neon_storage::remote_path::RemotePath;

#[test]
fn test_object_name() {
    let k = RemotePath::new(Utf8Path::new("a/b/c").as_str()).unwrap();
    assert_eq!(k.object_name(), Some("c"));

    let k = RemotePath::new(Utf8Path::new("a/b/c/").as_str()).unwrap();
    assert_eq!(k.object_name(), Some("c"));

    let k = RemotePath::new(Utf8Path::new("a/").as_str()).unwrap();
    assert_eq!(k.object_name(), Some("a"));

    // XXX is it impossible to have an empty key?
    let k = RemotePath::new(Utf8Path::new("").as_str()).unwrap();
    assert_eq!(k.object_name(), None);
}

#[test]
fn rempte_path_cannot_be_created_from_absolute_ones() {
    let err = RemotePath::new(Utf8Path::new("/").as_str())
        .expect_err("Should fail on absolute paths");
    assert_eq!(err.to_string(), "Path \"/\" is not relative");
}

fn path(text: &str) -> RemotePath {
    RemotePath::from_string(text).unwrap()
}

#[test]
fn relative_paths_are_taken_as_they_are() {
    assert_eq!(path("a/./b//c").to_string(), "a/./b//c");
    assert_eq!(path("a/b").get_path(), "a/b");
    assert_eq!(path("").to_string(), "");
    assert!(RemotePath::from_string("/a/b").is_err());
    assert_eq!(
        RemotePath::from_string("/a\"b").unwrap_err().to_string(),
        "Path \"/a\\\"b\" is not relative"
    );
}

#[test]
fn stored_paths_come_back() {
    let p = path("tenants/a/timelines/b");
    assert_eq!(RemotePath::from_stored(p.to_string()).get_path(), p.get_path());
    assert_eq!(RemotePath::from_stored("/x".to_string()).get_path(), "/x");
}

#[test]
fn paths_are_put_behind_a_base() {
    assert_eq!(path("a/b").with_base("/root"), "/root/a/b");
    assert_eq!(path("a/b").with_base("/root/"), "/root/a/b");
    assert_eq!(path("a/b").with_base(""), "a/b");
    assert_eq!(path("").with_base("/root"), "/root/");
}

#[test]
fn paths_are_joined() {
    assert_eq!(path("a/b").join("c").to_string(), "a/b/c");
    assert_eq!(path("a/b/").join("c").to_string(), "a/b/c");
    assert_eq!(path("").join("c").to_string(), "c");
    assert_eq!(path("a").join("/c").to_string(), "/c");
}

#[test]
fn joining_keeps_the_name() {
    for base in ["", "x", "x/y/", "."] {
        let joined = path(base).join("d/file.tar.gz");
        assert_eq!(joined.object_name(), Some("file.tar.gz"));
        assert_eq!(joined.extension(), Some("gz"));
    }
}

#[test]
fn extensions_of_names() {
    assert_eq!(path("a/b.txt").extension(), Some("txt"));
    assert_eq!(path("a/.hidden").extension(), None);
    assert_eq!(path("a/.hidden.x").extension(), Some("x"));
    assert_eq!(path("a/b").extension(), None);
    assert_eq!(path("a/b.").extension(), Some(""));
    assert_eq!(path("a/..").extension(), None);
    assert_eq!(path("").extension(), None);
}

#[test]
fn names_of_odd_paths() {
    assert_eq!(path("a/.").object_name(), Some("a"));
    assert_eq!(path("a/..").object_name(), None);
    assert_eq!(path(".").object_name(), None);
    assert_eq!(path("a//").object_name(), Some("a"));
}

#[test]
fn prefixes_are_stripped_component_by_component() {
    assert_eq!(path("a/b/c").strip_prefix(&path("a")).unwrap(), "b/c");
    assert_eq!(path("a/b/c").strip_prefix(&path("a/b/")).unwrap(), "c");
    assert_eq!(path("a/b").strip_prefix(&path("a/b")).unwrap(), "");
    assert_eq!(path("a/b").strip_prefix(&path("")).unwrap(), "a/b");
    assert!(path("ab/c").strip_prefix(&path("a")).is_err());
    assert!(path("a").strip_prefix(&path("a/b")).is_err());
}

#[test]
fn stripping_undoes_joining() {
    for base in ["a", "a/", "a//b", ""] {
        let joined = path(base).join("x/y");
        assert_eq!(joined.strip_prefix(&path(base)).unwrap(), "x/y");
    }
}

#[test]
fn a_trailing_slash_changes_no_component() {
    let p = path("a/b.c");
    let q = p.add_trailing_slash();
    assert_eq!(q.to_string(), "a/b.c/");
    assert!(p == q);
    assert_eq!(q.object_name(), Some("b.c"));
    assert_eq!(q.extension(), Some("c"));
    assert_eq!(path("").add_trailing_slash().to_string(), "/");
}

#[test]
fn paths_are_compared_by_components() {
    assert!(path("a//b/./c") == path("a/b/c"));
    assert!(path("a/b") != path("a/c"));
    assert!(path("./a") != path("a"));
    assert!(path("a/b").clone() == path("a/b"));
}

#[test]
fn debug_form_is_quoted() {
    assert_eq!(path("a/\"b").to_debug_string(), "RemotePath(\"a/\\\"b\")");
}

#[test]
fn paths_are_ordered_by_components() {
    // a slash comes after a dot as a character, but ends the component here
    assert!(path("a/b") < path("a.b"));
    assert!(Utf8Path::new("a/b") < Utf8Path::new("a.b"));
    assert!(path("a") < path("a/b"));
    assert!(path("a/c") > path("a/b/d"));
    assert!(path(".") < path(".."));
    assert!(path("..") < path("!"));
    assert!(path("") < path("a"));
    assert!(path("a//b").partial_cmp(&path("a/b")) == Some(std::cmp::Ordering::Equal));
    assert!(path("b").partial_cmp(&path("a/z")) == Some(std::cmp::Ordering::Greater));
    assert!(RemotePath::from_stored("/z".to_string()) < path("a"));
}

#[test]
fn debug_form_of_plain_paths_has_no_escapes() {
    let plain: String = (' '..='~').filter(|c| !matches!(c, '"' | '\\' | '/')).collect();
    assert_eq!(
        path(&plain).to_debug_string(),
        format!("RemotePath(\"{plain}\")")
    );
}
