use heavy::path_clean::{clean, clean_internal, PathClean};
use std::path::PathBuf;

#[test]
fn test_empty_path_is_current_dir() {
    assert_eq!(clean(""), ".");
}

#[test]
fn test_clean_paths_dont_change() {
    let tests = vec![(".", "."), ("..", ".."), ("/", "/"), ("\\", "/")];

    for test in tests {
        assert_eq!(clean(test.0), test.1);
    }
}

#[test]
fn test_replace_multiple_slashes() {
    let tests = vec![
        ("/", "/"),
        ("//", "/"),
        ("/\\/", "/"),
        (".//", "."),
        ("//..", "/.."),
        ("..//", ".."),
        ("/..//", "/.."),
        ("/.//./", "/"),
        ("././/./", "."),
        ("path//to///thing", "path/to/thing"),
        ("/path//to///thing", "/path/to/thing"),
    ];

    for test in tests {
        assert_eq!(clean(test.0), test.1, "original: {}", test.0);
    }
}

#[test]
fn test_eliminate_current_dir() {
    let tests = vec![
        ("./", "."),
        ("/./", "/"),
        ("./test", "test"),
        ("./test/./path", "test/path"),
        ("/test/./path/", "/test/path"),
        ("test/path/.", "test/path"),
    ];

    for test in tests {
        assert_eq!(clean(test.0), test.1, "original: {}", test.0);
    }
}

#[test]
fn test_eliminate_parent_dir() {
    let tests = vec![
        ("/..", "/.."),
        ("/../test", "/../test"),
        ("test/..", "."),
        ("test/path/..", "test"),
        ("test/../path", "path"),
        ("/test/../path", "/path"),
        ("test/path/../../", "."),
        ("test/path/../../..", ".."),
        ("/test/path/../../..", "/.."),
        ("/test/path/../../../..", "/../.."),
        ("test/path/../../../..", "../.."),
        ("test/path/../../another/path", "another/path"),
        ("test/path/../../another/path/..", "another"),
        ("../test", "../test"),
        ("../test/", "../test"),
        ("../test/path", "../test/path"),
        ("../test/..", ".."),
    ];

    for test in tests {
        assert_eq!(clean(test.0), test.1, "original: {}", test.0);
    }
}

#[test]
fn test_pathbuf_trait() {
    assert_eq!(
        PathBuf::from("/test/../path/").clean(),
        PathBuf::from("/path")
    );
}

#[test]
fn clean_internal_works_on_bytes() {
    assert_eq!(clean_internal(b""), b".".to_vec());
    assert_eq!(clean_internal(b"a\\b/../c"), b"a/c".to_vec());
    assert_eq!(clean_internal(b"..."), b"...".to_vec());
    assert_eq!(clean_internal(b"./..."), b"...".to_vec());
}

#[test]
fn clean_keeps_non_ascii_elements() {
    assert_eq!(clean("héllo//wörld/../ß"), "héllo/ß");
    assert_eq!(clean("/日本/./語/.."), "/日本");
}

#[test]
fn clean_is_idempotent_on_examples() {
    for p in ["a/../../b/./c//", "/../x/..", "..\\..\\a", "", "./.", "a/b/c/../../.."] {
        let once = clean(p);
        assert_eq!(clean(&once), once);
    }
}

