use rye_bootstrap::archive::{plan_extraction, ArchiveEntry};
use rye_bootstrap::download::{accept_response, prepare_download, ProgressAction, ProgressTracker};
use rye_bootstrap::integrity::{check_hash, verify_download, VerificationOutcome};
use rye_bootstrap::archive::extraction_result;
use rye_bootstrap::libcheck::{missing_libraries, parse_ldd_line, validate_libraries};
use rye_bootstrap::text::{format_u64, parse_u64};
use rye_bootstrap::version::Version;
use rye_bootstrap::BootstrapError;
use rye_bootstrap::CommandOutput;

const HELLO_DIGEST: &str = "b94d27b9934d3e08a52e52d7da7dabfac484efe37a5380ee9088f7ace2efcde9";

#[test]
fn format_small_and_large() {
    assert_eq!(format_u64(0), "0");
    assert_eq!(format_u64(3), "3");
    assert_eq!(format_u64(1234567890), "1234567890");
    assert_eq!(format_u64(u64::MAX), "18446744073709551615");
}

#[test]
fn parse_accepts_plain_decimals() {
    assert_eq!(parse_u64("3"), Some(3));
    assert_eq!(parse_u64("007"), Some(7));
    assert_eq!(parse_u64("18446744073709551615"), Some(u64::MAX));
}

#[test]
fn parse_rejects_junk_and_overflow() {
    assert_eq!(parse_u64(""), None);
    assert_eq!(parse_u64("3a"), None);
    assert_eq!(parse_u64(" 3"), None);
    assert_eq!(parse_u64("-3"), None);
    assert_eq!(parse_u64("18446744073709551616"), None);
}

#[test]
fn version_key_is_canonical() {
    let v = Version {
        kind: "cpython".to_string(),
        major: 3,
        minor: 10,
        patch: 11,
        suffix: None,
    };
    assert_eq!(v.key(), "cpython@3.10.11");
    let w = Version {
        kind: "pypy".to_string(),
        major: 7,
        minor: 3,
        patch: 9,
        suffix: Some("rc1".to_string()),
    };
    assert_eq!(w.key(), "pypy@7.3.9.rc1");
}

#[test]
fn matching_digest_passes() {
    let content = b"hello world".to_vec();
    assert!(check_hash(&content, &HELLO_DIGEST.to_string()).is_ok());
}

#[test]
fn empty_input_has_the_known_digest() {
    let empty: Vec<u8> = Vec::new();
    let known = "e3b0c44298fc1c149afbf4c8996fb92427ae41e4649b934ca495991b7852b855";
    assert!(check_hash(&empty, &known.to_string()).is_ok());
    assert!(check_hash(&empty, &HELLO_DIGEST.to_string()).is_err());
}

#[test]
fn decimal_round_trip() {
    for n in [0u64, 1, 9, 10, 99, 100, 4096, u64::MAX - 1, u64::MAX] {
        assert_eq!(parse_u64(&format_u64(n)), Some(n));
    }
}

#[test]
fn mismatched_digest_fails_closed() {
    let content = b"hello world!".to_vec();
    match check_hash(&content, &HELLO_DIGEST.to_string()) {
        Err(BootstrapError::IntegrityMismatch { expected, actual }) => {
            assert_eq!(expected, HELLO_DIGEST);
            assert_ne!(actual, HELLO_DIGEST);
            assert_eq!(actual.len(), 64);
        }
        other => panic!("expected an integrity mismatch, got {:?}", other),
    }
}

#[test]
fn missing_digest_reports_skipped_not_verified() {
    let content = b"hello world".to_vec();
    assert_eq!(
        verify_download(&content, &None).unwrap(),
        VerificationOutcome::Skipped
    );
    assert_eq!(
        verify_download(&content, &Some(HELLO_DIGEST.to_string())).unwrap(),
        VerificationOutcome::Verified
    );
}

#[test]
fn insecure_scheme_is_refused_before_any_transfer() {
    assert!(matches!(
        prepare_download("http://example.com/x.tgz", &None),
        Err(BootstrapError::InsecureUrl)
    ));
    assert!(matches!(
        prepare_download("ftp://example.com/x.tgz", &None),
        Err(BootstrapError::InsecureUrl)
    ));
    assert!(matches!(
        prepare_download("", &None),
        Err(BootstrapError::InsecureUrl)
    ));
    let req = prepare_download("https://example.com/x.tgz", &Some("https://proxy:8080".to_string()))
        .unwrap();
    assert_eq!(req.url, "https://example.com/x.tgz");
    assert!(req.follow_redirects);
    assert_eq!(req.proxy.as_deref(), Some("https://proxy:8080"));
}

#[test]
fn non_2xx_status_is_a_download_failure() {
    assert_eq!(accept_response(200, vec![1, 2, 3]).unwrap(), vec![1, 2, 3]);
    assert_eq!(accept_response(299, vec![]).unwrap(), Vec::<u8>::new());
    assert!(matches!(
        accept_response(404, vec![1]),
        Err(BootstrapError::DownloadFailed { status: 404 })
    ));
    assert!(matches!(
        accept_response(302, vec![1]),
        Err(BootstrapError::DownloadFailed { status: 302 })
    ));
}

#[test]
fn progress_bar_lifecycle() {
    let mut t = ProgressTracker::new();
    assert_eq!(t.step(100, 10, CommandOutput::Normal), ProgressAction::Begin { total: 100, pos: 10 });
    assert_eq!(t.step(100, 50, CommandOutput::Normal), ProgressAction::Advance { pos: 50 });
    assert_eq!(t.step(100, 100, CommandOutput::Normal), ProgressAction::Clear);
    assert_eq!(t.step(100, 100, CommandOutput::Normal), ProgressAction::Idle);
}

#[test]
fn progress_quiet_and_unknown_total() {
    let mut t = ProgressTracker::new();
    assert_eq!(t.step(100, 10, CommandOutput::Quiet), ProgressAction::Idle);
    assert_eq!(t.step(0, 10, CommandOutput::Normal), ProgressAction::Idle);
}

fn entry(path: &[&str], is_dir: bool, executable: bool, data: &[u8]) -> ArchiveEntry {
    ArchiveEntry {
        segments: path.iter().map(|s| s.to_string()).collect(),
        is_dir,
        executable,
        data: data.to_vec(),
    }
}

#[test]
fn extraction_strips_leading_component() {
    let entries = vec![
        entry(&["python"], true, false, b""),
        entry(&["python", "bin"], true, false, b""),
        entry(&["python", "bin", "python3"], false, true, b"#!elf"),
    ];
    let plan = plan_extraction(&entries, 1);
    assert_eq!(plan.len(), 2);
    assert_eq!(plan[0].segments, vec!["bin".to_string()]);
    assert!(plan[0].is_dir);
    assert_eq!(plan[1].segments, vec!["bin".to_string(), "python3".to_string()]);
    assert!(plan[1].executable);
    assert_eq!(plan[1].data, b"#!elf".to_vec());
}

#[test]
fn extraction_without_stripping_keeps_paths() {
    let entries = vec![entry(&["a", "b"], false, false, b"x")];
    let plan = plan_extraction(&entries, 0);
    assert_eq!(plan.len(), 1);
    assert_eq!(plan[0].segments, vec!["a".to_string(), "b".to_string()]);
}

#[test]
fn ldd_line_with_missing_library() {
    assert_eq!(
        parse_ldd_line("\tlibcrypt.so.1 => not found"),
        Some("libcrypt.so.1".to_string())
    );
    assert_eq!(parse_ldd_line("libcrypt.so.1 => not found   "), Some("libcrypt.so.1".to_string()));
}

#[test]
fn ldd_line_with_resolved_library() {
    assert_eq!(parse_ldd_line("\tlibc.so.6 => /lib/x86_64-linux-gnu/libc.so.6 (0x00007f)"), None);
    assert_eq!(parse_ldd_line("\tlinux-vdso.so.1 (0x00007ffd)"), None);
    assert_eq!(parse_ldd_line(""), None);
}

#[test]
fn missing_libraries_deduplicated_and_sorted() {
    let lines = vec![
        "\tlibz.so.1 => not found".to_string(),
        "\tlibc.so.6 => /lib/libc.so.6 (0x1)".to_string(),
        "\tliba.so.2 => not found".to_string(),
        "\tlibz.so.1 => not found".to_string(),
    ];
    let missing = missing_libraries(&lines);
    assert_eq!(missing, vec!["liba.so.2".to_string(), "libz.so.1".to_string()]);
}

#[test]
fn missing_libraries_empty_when_all_resolve() {
    let lines = vec!["\tlibc.so.6 => /lib/libc.so.6 (0x1)".to_string()];
    assert_eq!(missing_libraries(&lines), Vec::<String>::new());
}

#[test]
fn library_validation_fails_with_sorted_names() {
    let lines = vec![
        "\tlibz.so.1 => not found".to_string(),
        "\tliba.so.2 => not found".to_string(),
    ];
    match validate_libraries(&lines) {
        Err(BootstrapError::MissingSharedLibraries { names }) => {
            assert_eq!(names, vec!["liba.so.2".to_string(), "libz.so.1".to_string()]);
        }
        other => panic!("expected missing shared libraries, got {:?}", other),
    }
    assert!(validate_libraries(&vec!["\tlibc.so.6 => /lib/libc.so.6 (0x1)".to_string()]).is_ok());
}

#[test]
fn failed_extraction_is_fatal() {
    assert!(extraction_result(true).is_ok());
    assert!(matches!(
        extraction_result(false),
        Err(BootstrapError::ExtractionFailed)
    ));
}
