use dcp::errors::{ArchiveItError, RequestError, ServiceError};
use dcp::expiration::{build_tagging, tag_expired, ExpirationPolicy, Timestamp};
use dcp::file::{copy, file_exists, local_name, File, HeadFailure};
use dcp::stack::{ManagedFile, Stack};
use dcp::text;

fn test_file() -> File {
    File::new("test-bucket", "missing.csv")
}

fn refused(code: &str, message: &str, not_found: bool) -> Result<(), HeadFailure> {
    Err(HeadFailure::Service {
        not_found,
        error: ServiceError {
            code: Some(code.to_string()),
            message: Some(message.to_string()),
        },
    })
}

#[test]
fn test_copy_sends_copy_source_header() {
    let src = File::new("src-bucket", "reports/2026-06-09-report.csv");
    let dest = File::new("dest-bucket", "reports/0000-00-00-LATEST-report.csv");
    let request = copy(&src, &dest);

    assert_eq!(request.bucket, "dest-bucket");
    assert_eq!(request.key, "reports/0000-00-00-LATEST-report.csv");
    assert_eq!(request.copy_source, "src-bucket/reports/2026-06-09-report.csv");
}

#[test]
fn test_download_files_to_temp_streams_bytes_to_disk() {
    let files = [File::new("test-bucket", "manifests/data.csv")];
    assert_eq!(local_name(0, &files[0]), "00000-data.csv");
}

#[test]
fn local_names_differ_by_position() {
    assert_eq!(local_name(1, &File::new("b", "a/data.csv")), "00001-data.csv");
    assert_eq!(local_name(2, &File::new("b", "c/data.csv")), "00002-data.csv");
    assert_eq!(local_name(123456, &File::new("b", "data.csv")), "123456-data.csv");
    assert_eq!(local_name(99999, &File::new("b", "dir/")), "99999-");
}

#[test]
fn test_exists_returns_true_for_head_success() {
    assert!(file_exists(&test_file(), Ok(())).unwrap());
}

#[test]
fn test_exists_returns_false_for_not_found() {
    assert!(!file_exists(&test_file(), refused("NotFound", "not found", true)).unwrap());
    assert!(!file_exists(&test_file(), refused("NotFound", "not found", false)).unwrap());
    assert!(!file_exists(&test_file(), refused("Other", "", true)).unwrap());
}

#[test]
fn test_exists_returns_false_for_no_such_key() {
    assert!(!file_exists(&test_file(), refused("NoSuchKey", "key not found", false)).unwrap());
}

#[test]
fn test_exists_errors_for_access_denied() {
    let err = file_exists(&test_file(), refused("AccessDenied", "forbidden", false))
        .expect_err("access denied should not be treated as missing");
    match err {
        RequestError::S3 { context, source } => {
            assert!(context.contains("failed to head"));
            assert_eq!(context, "failed to head s3://test-bucket/missing.csv");
            assert_eq!(source.code.as_deref(), Some("AccessDenied"));
        }
        other => panic!("{other:?}"),
    }
    let lost = Err(HeadFailure::Other(ServiceError {
        code: Some("NotFound".to_string()),
        message: None,
    }));
    assert!(file_exists(&test_file(), lost).is_err());
}

#[test]
fn files_have_addresses() {
    let file = File::new("b", "dir/k.csv");
    assert_eq!(file.s3_url(), "s3://b/dir/k.csv");
    assert_eq!(file.http_url(), "https://b.s3.amazonaws.com/dir/k.csv");
    assert_eq!(file.clone().key(), "dir/k.csv");
    let managed = File::from(ManagedFile::new("m", "x/y"));
    assert_eq!(managed.bucket(), "m");
    assert_eq!(managed.key(), "x/y");
}

#[test]
fn stacks_keep_files_in_their_managed_bucket() {
    let stack = Stack::named("digipres-dev1");
    assert_eq!(stack.managed_bucket(), "digipres-dev1-managed");
    let logging = stack.logging_prefix_path("digipres-dev1-a");
    assert_eq!(logging.bucket(), "digipres-dev1-managed");
    assert_eq!(logging.key(), "audit/digipres-dev1-a/");
    assert_eq!(stack.batch_manifest_prefix("copy").key(), "batch/manifests/copy");
    assert_eq!(stack.batch_report_prefix("copy", "a").key(), "batch/reports/copy/a");
}

fn policy(tag: Option<(&str, &str)>) -> ExpirationPolicy {
    ExpirationPolicy {
        older_than: Timestamp { seconds: 1_700_000_000, nanos: 0 },
        tag: tag.map(|(k, v)| (k.to_string(), v.to_string())),
    }
}

#[test]
fn build_tagging_returns_none_when_policy_absent() {
    let tagging = build_tagging(None).unwrap();
    assert!(tagging.is_none());
}

#[test]
fn build_tagging_returns_none_when_tag_absent() {
    let policy = policy(None);
    let tagging = build_tagging(Some(&policy)).unwrap();
    assert!(tagging.is_none());
}

#[test]
fn build_tagging_builds_when_tag_present() {
    let policy = policy(Some(("expired", "true"))).clone();
    let tagging = build_tagging(Some(&policy)).unwrap().expect("tagging");
    let tags = tagging.tag_set();
    assert_eq!(tags.len(), 1);
    assert_eq!(tags[0].key(), "expired");
    assert_eq!(tags[0].value(), "true");
}

#[test]
fn a_failed_tagging_names_the_object() {
    assert!(tag_expired("b", "k", Ok(())).is_ok());
    let failed = Err(ServiceError { code: None, message: None });
    match tag_expired("b", "dir/k", failed) {
        Err(ArchiveItError::Request(RequestError::S3 { context, .. })) => {
            assert_eq!(context, "failed to tag expired object s3://b/dir/k");
        }
        other => panic!("{other:?}"),
    }
}

#[test]
fn texts_are_taken_apart() {
    assert!(text::same("abc", "abc"));
    assert!(!text::same("abc", "abd"));
    assert!(text::starts_with("text/plain; x", "text/plain"));
    assert!(!text::starts_with("text", "text/plain"));
    assert_eq!(text::strip_suffix("a-repl", "-repl"), Some("a"));
    assert_eq!(text::strip_suffix("repl", "-repl"), None);
    assert_eq!(text::decimal(0), "0");
    assert_eq!(text::decimal(1024), "1024");
    assert_eq!(text::zero_padded(42, 5), "00042");
    assert_eq!(text::left_aligned("ab", 4), "ab  ");
    assert_eq!(text::left_aligned("abcde", 4), "abcde");
    assert!(text::same_ignoring_ascii_case("SucCeeded", "succeeded"));
    assert!(!text::same_ignoring_ascii_case("\u{c9}", "\u{e9}"));
    for s in ["", " ", " a  b\t\n c ", "a\u{a0}b", "\u{2003}x\u{3000}y\u{85}", "one"] {
        let expected = s.split_whitespace().collect::<Vec<_>>().join(" ");
        assert_eq!(text::compact(s), expected, "{s:?}");
    }
}
