use piimgproc::paths::{
    extension_of_name, lower_extension, path_extension, path_file_stem, stem_of_name,
};
use std::path::Path;

const PATHS: [&str; 34] = [
    "",
    "/",
    ".",
    "..",
    "a",
    "a.",
    ".a",
    "a.b",
    ".a.b",
    "..a",
    "a..",
    "a..b",
    "...",
    "a.b.c",
    "/home/pi/cat.jpg",
    "/home/pi/cat.tar.gz",
    "/home/pi/.bashrc",
    "/home/pi.d/file",
    "/home/pi.d/",
    "dir/",
    "dir.x/",
    "dir/.",
    "dir.x/.",
    "dir/..",
    "a/b/../c.txt",
    "./x.y",
    "../x.y",
    "x.y/..",
    "//a//b.c//",
    "a b.c d",
    "日本.語",
    "é.É",
    "a.JPG",
    ".hidden.PNG",
];

#[test]
fn extensions_are_those_of_the_standard_library() {
    for path in PATHS {
        let expected = Path::new(path).extension().map(|e| e.to_string_lossy().to_string());
        assert_eq!(path_extension(path), expected, "for {:?}", path);
    }
}

#[test]
fn stems_are_those_of_the_standard_library() {
    for path in PATHS {
        let expected = Path::new(path).file_stem().map(|e| e.to_string_lossy().to_string());
        assert_eq!(path_file_stem(path), expected, "for {:?}", path);
    }
}

#[test]
fn chosen_extensions_and_stems() {
    assert_eq!(path_extension("cat.tar.gz").as_deref(), Some("gz"));
    assert_eq!(path_file_stem("cat.tar.gz").as_deref(), Some("cat.tar"));
    assert_eq!(path_extension(".bashrc"), None);
    assert_eq!(path_file_stem(".bashrc").as_deref(), Some(".bashrc"));
    assert_eq!(path_extension("a.").as_deref(), Some(""));
    assert_eq!(path_file_stem("a.").as_deref(), Some("a"));
    assert_eq!(path_extension("/"), None);
    assert_eq!(path_file_stem("/"), None);
}

#[test]
fn lower_case_extensions() {
    assert_eq!(lower_extension("a.JPG").as_deref(), Some("jpg"));
    assert_eq!(lower_extension("a.É").as_deref(), Some("é"));
    assert_eq!(lower_extension("a"), None);
    for path in PATHS {
        let expected = Path::new(path)
            .extension()
            .map(|e| e.to_string_lossy().to_lowercase());
        assert_eq!(lower_extension(path), expected, "for {:?}", path);
    }
}

#[test]
fn extensions_and_stems_of_file_names() {
    let names = [
        "a", "a.", ".a", "a.b", ".a.b", "..a", "a..", "a..b", "...", "a.b.c", "cat.tar.gz",
        ".bashrc", "日本.語", "x.JPG", "..",
    ];
    for name in names {
        let expected = Path::new(name).extension().map(|e| e.to_string_lossy().to_string());
        assert_eq!(extension_of_name(name), expected, "for {:?}", name);
    }
    for name in names {
        if name != ".." {
            let expected = Path::new(name).file_stem().map(|e| e.to_string_lossy().to_string());
            assert_eq!(Some(stem_of_name(name)), expected, "for {:?}", name);
        }
    }
    assert_eq!(extension_of_name("cat.tar.gz").as_deref(), Some("gz"));
    assert_eq!(stem_of_name("cat.tar.gz"), "cat.tar");
    assert_eq!(extension_of_name(".bashrc"), None);
    assert_eq!(stem_of_name(".bashrc"), ".bashrc");
    assert_eq!(extension_of_name("a.").as_deref(), Some(""));
    assert_eq!(stem_of_name("a."), "a");
    assert_eq!(extension_of_name(".."), None);
    assert_eq!(stem_of_name(".."), "..");
    assert_eq!(extension_of_name(""), None);
    assert_eq!(stem_of_name(""), "");
}
