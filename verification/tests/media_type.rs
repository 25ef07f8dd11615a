use wasm_service::{media_type, remove_leading_slash};

#[test]
fn media_type_common_extensions() {
    assert_eq!(media_type("index.html"), Some("text/html; charset=utf-8"));
    assert_eq!(media_type("style.css"), Some("text/css"));
    assert_eq!(media_type("app.js"), Some("text/javascript"));
    assert_eq!(media_type("photo.jpeg"), Some("image/jpeg"));
    assert_eq!(media_type("a/b/data.json"), Some("application/json"));
    assert_eq!(media_type("notes.md"), Some("text/markdown"));
    assert_eq!(media_type("mod.wasm"), Some("application/wasm"));
    assert_eq!(media_type("backup.tar"), Some("application/octet-stream"));
}

#[test]
fn media_type_unknown_or_missing_extension() {
    assert_eq!(media_type("no_extension"), None);
    assert_eq!(media_type("weird.xyz"), None);
    assert_eq!(media_type(""), None);
    // the dot must not stand first in the file name
    assert_eq!(media_type(".gitignore"), None);
    // a dot in a directory name is not an extension
    assert_eq!(media_type("dir.with.dots/file"), None);
    // the table is case-sensitive, as the source extensions are lowercase
    assert_eq!(media_type("photo.JPEG"), None);
}

#[test]
fn remove_leading_slash_strips_one() {
    assert_eq!(remove_leading_slash("/a/b"), "a/b");
    assert_eq!(remove_leading_slash("a/b"), "a/b");
    assert_eq!(remove_leading_slash(""), "");
    assert_eq!(remove_leading_slash("//x"), "/x");
}
