use cargo_llvm::archive::{check_status, content_length, unpack_report, unpack_target, Report, UnpackFailure};
use cargo_llvm::error::Error;

fn strings(items: &[&str]) -> Vec<String> {
    items.iter().map(|s| s.to_string()).collect()
}

#[test]
fn unpacking_strips_the_first_component() {
    assert_eq!(unpack_target("dest", "llvm", &strings(&["top", "a", "b.txt"])), "dest/llvm/a/b.txt");
}

#[test]
fn unpacking_the_top_directory_gives_the_tool_directory() {
    assert_eq!(unpack_target("dest", "llvm", &strings(&["llvm-project-llvmorg-18.1.0"])), "dest/llvm");
    assert_eq!(unpack_target("dest", "llvm", &strings(&[])), "dest/llvm");
}

#[test]
fn unpacking_goes_by_place_not_by_name() {
    assert_eq!(unpack_target("/d", "clang", &strings(&["x", "x", "x"])), "/d/clang/x/x");
    assert_eq!(unpack_target("/d", "clang", &strings(&["a", "b", "c", "d", "e"])), "/d/clang/b/c/d/e");
}

#[test]
fn unpack_target_joins_as_paths_do() {
    let joined = std::path::Path::new("dest").join("llvm").join("a").join("b.txt");
    assert_eq!(unpack_target("dest", "llvm", &strings(&["top", "a", "b.txt"])), joined.to_string_lossy());
}

#[test]
fn status_2xx_is_success() {
    for status in [200u16, 201, 204, 206, 250, 299] {
        assert_eq!(check_status("https://example.com/x.tar.gz", status), Ok(()));
    }
}

#[test]
fn other_status_is_an_http_error() {
    for status in [0u16, 100, 199, 300, 301, 304, 400, 404, 500, 503, 999, u16::MAX] {
        assert_eq!(
            check_status("https://example.com/x.tar.gz", status),
            Err(Error::HttpError { url: "https://example.com/x.tar.gz".into(), status })
        );
    }
}

#[test]
fn content_length_defaults_to_zero() {
    assert_eq!(content_length(Some("1048576")), 1048576);
    assert_eq!(content_length(Some("0")), 0);
    assert_eq!(content_length(None), 0);
    assert_eq!(content_length(Some("")), 0);
    assert_eq!(content_length(Some("many")), 0);
    assert_eq!(content_length(Some("12 ")), 0);
    assert_eq!(content_length(Some("18446744073709551615")), u64::MAX);
    assert_eq!(content_length(Some("18446744073709551616")), 0);
}

#[test]
fn existing_entries_are_a_detail_other_failures_a_warning() {
    assert_eq!(unpack_report(UnpackFailure::AlreadyExists), Report::Debug);
    assert_eq!(unpack_report(UnpackFailure::Other), Report::Warn);
}
