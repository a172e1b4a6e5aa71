use neo_mangal::order::sort_strings;
use neo_mangal::paths::{extension, file_name, file_stem, path_join};
use std::path::Path;

#[test]
fn paths_agree_with_std() {
    let cases = [
        "", "/", "a", "a/", "a/b.c", "/x/y.tar.gz", ".hidden", "a/.hidden", "a/b.", "..", "a/..",
        ".", "./", "a/./", "./a", "a//b", "/Users/test/cover.jpg", "x/...", "dir.d/file", "a.b/",
    ];
    for c in cases {
        let p = Path::new(c);
        assert_eq!(file_name(c), p.file_name().map(|s| s.to_string_lossy().into_owned()), "file_name {:?}", c);
        assert_eq!(extension(c), p.extension().map(|s| s.to_string_lossy().into_owned()), "extension {:?}", c);
        assert_eq!(file_stem(c), p.file_stem().map(|s| s.to_string_lossy().into_owned()), "stem {:?}", c);
    }
}

#[test]
fn joins_agree_with_std() {
    let cases = [("", "a"), ("a", "b"), ("a/", "b"), ("a", "/b"), ("/x", ""), ("/", "y")];
    for (b, s) in cases {
        assert_eq!(path_join(b, s), Path::new(b).join(s).to_string_lossy().into_owned(), "{:?}", (b, s));
    }
}

#[test]
fn sorting_agrees_with_std() {
    let input: Vec<String> = ["b", "a", "0000_cover.jpg", "0001.png", "ä", "Z", "a", ""]
        .iter()
        .map(|s| s.to_string())
        .collect();
    let mut expected = input.clone();
    expected.sort();
    assert_eq!(sort_strings(input), expected);
}
