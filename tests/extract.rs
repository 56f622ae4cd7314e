use blender_beans_scraper::{
    builder_version, contains_str, parse_component, parse_version, split_str, stable_download_type,
    stable_version, str_eq,
};

#[test]
fn version_from_plain_file_name() {
    let (version, detail) = builder_version("product-1.2.3-abcdef.zip").unwrap();
    assert_eq!(version, vec![1, 2, 3]);
    assert_eq!(detail, "abcdef");
}

#[test]
fn version_from_archive_link() {
    let link = "https://builder.blender.org/download/daily/blender-4.2.0-alpha+main.abc123-windows.amd64-release.zip";
    let (version, detail) = builder_version(link).unwrap();
    assert_eq!(version, vec![4, 2, 0]);
    assert_eq!(detail, "alpha+main.abc123");
}

#[test]
fn version_needs_three_tokens() {
    assert_eq!(builder_version("product-1.2.3"), None);
    assert_eq!(builder_version("https://example.org/product.zip"), None);
    assert_eq!(builder_version("product-1.2-abc.zip"), None);
    assert_eq!(builder_version("product-1.2.x-abc.zip"), None);
}

#[test]
fn version_components() {
    assert_eq!(parse_component("0"), Some(0));
    assert_eq!(parse_component("007"), Some(7));
    assert_eq!(parse_component("127"), Some(127));
    assert_eq!(parse_component("128"), None);
    assert_eq!(parse_component("99999999999"), None);
    assert_eq!(parse_component(""), None);
    assert_eq!(parse_component("1a"), None);
    assert_eq!(parse_component("-1"), None);
    assert_eq!(parse_version("10.20.30"), Some(vec![10, 20, 30]));
    assert_eq!(parse_version("1.2"), None);
    assert_eq!(parse_version("1.2.3.4"), None);
    assert_eq!(parse_version("1..3"), None);
}

#[test]
fn stable_link_fields() {
    let link = "https://www.blender.org/download/release/Blender4.1/blender-4.1.1-windows-x64.msi/";
    assert_eq!(stable_version(link), Some(vec![4, 1, 1]));
    assert_eq!(stable_download_type(link), "msi");
    let tarball = "https://www.blender.org/download/release/Blender4.1/blender-4.1.1-linux-x64.tar.xz/";
    assert_eq!(stable_download_type(tarball), "xz");
    assert_eq!(stable_download_type("https://example.org/file.zip"), "zip");
    assert_eq!(stable_version("blender-4.1.1.msi"), None);
    assert_eq!(stable_version("https://example.org/blender/"), None);
}

#[test]
fn splitting_keeps_empty_pieces() {
    assert_eq!(split_str("a--b", '-'), vec!["a", "", "b"]);
    assert_eq!(split_str("", '-'), vec![""]);
    assert_eq!(split_str("-", '-'), vec!["", ""]);
    assert_eq!(split_str("a/b/", '/'), vec!["a", "b", ""]);
}

#[test]
fn substring_and_equality() {
    assert!(contains_str("blender-sha256-linux", "sha256"));
    assert!(!contains_str("blender-sha25", "sha256"));
    assert!(contains_str("abc", ""));
    assert!(!contains_str("", "a"));
    assert!(str_eq("linux x64", "linux x64"));
    assert!(!str_eq("linux x64", "linux x6"));
}
