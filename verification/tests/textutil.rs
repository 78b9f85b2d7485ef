//! The string utilities: decimal rendering and parsing, substring search,
//! and the path helpers.

use rispc::paths::{file_stem, join_path, with_extension_o, with_file_name};
use rispc::text::{contains_sub, parse_u32, str_eq, u32_to_dec};

#[test]
fn decimal_rendering() {
    assert_eq!(u32_to_dec(0), "0");
    assert_eq!(u32_to_dec(7), "7");
    assert_eq!(u32_to_dec(10), "10");
    assert_eq!(u32_to_dec(64), "64");
    assert_eq!(u32_to_dec(4294967295), "4294967295");
}

#[test]
fn decimal_parsing() {
    assert_eq!(parse_u32("0"), Some(0));
    assert_eq!(parse_u32("3"), Some(3));
    assert_eq!(parse_u32("007"), Some(7));
    assert_eq!(parse_u32("4294967295"), Some(4294967295));
    assert_eq!(parse_u32("4294967296"), None);
    assert_eq!(parse_u32(""), None);
    assert_eq!(parse_u32("12a"), None);
    assert_eq!(parse_u32("-1"), None);
    assert_eq!(parse_u32(" 1"), None);
}

#[test]
fn parse_inverts_rendering() {
    for n in [0u32, 1, 9, 10, 99, 100, 4096, 4294967295] {
        assert_eq!(parse_u32(u32_to_dec(n).as_str()), Some(n));
    }
}

#[test]
fn substring_search() {
    assert!(contains_sub("x86_64-pc-linux", "x86_64"));
    assert!(contains_sub("i686-pc-linux", "i686"));
    assert!(!contains_sub("aarch64-linux", "x86_64"));
    assert!(contains_sub("abc", ""));
    assert!(!contains_sub("ab", "abc"));
    assert!(contains_sub("aab", "ab"));
}

#[test]
fn string_equality() {
    assert!(str_eq("debug", "debug"));
    assert!(!str_eq("debug", "release"));
    assert!(!str_eq("debug", "debu"));
    assert!(str_eq("", ""));
}

#[test]
fn path_joining() {
    assert_eq!(join_path("/out", "src/a.ispc"), "/out/src/a.ispc");
    assert_eq!(join_path("/out/", "a.ispc"), "/out/a.ispc");
    assert_eq!(join_path("", "a.ispc"), "a.ispc");
    assert_eq!(join_path("/out", "/abs/a.ispc"), "/abs/a.ispc");
}

#[test]
fn stems_and_extensions() {
    assert_eq!(file_stem("src/mandel.ispc"), "mandel");
    assert_eq!(file_stem("mandel.ispc"), "mandel");
    assert_eq!(file_stem("src/noext"), "noext");
    assert_eq!(file_stem("src/.hidden"), ".hidden");
    assert_eq!(file_stem("a/b.tar.gz"), "b.tar");

    assert_eq!(with_extension_o("/out/src/a.ispc"), "/out/src/a.o");
    assert_eq!(with_extension_o("/out/src/a"), "/out/src/a.o");
    assert_eq!(with_extension_o("a_sse2"), "a_sse2.o");

    assert_eq!(with_file_name("/out/src/a.o", "a_sse2"), "/out/src/a_sse2");
    assert_eq!(with_file_name("a.o", "b"), "b");
}
