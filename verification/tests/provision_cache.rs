use std::io::Write;

use normal_oj::error::Error;
use normal_oj::provision::{extract_test_cases, CaseCache, ProvisionAction};
use zip::write::SimpleFileOptions;

fn sample_archive() -> Vec<u8> {
    let mut buf = std::io::Cursor::new(Vec::new());
    {
        let mut test_case = zip::ZipWriter::new(&mut buf);
        let opt = SimpleFileOptions::default();
        for case in ["0000", "0001"] {
            test_case.start_file(format!("test-case/{case}/STDIN"), opt).unwrap();
            test_case.write_all(b"1 2\n").unwrap();
            test_case.start_file(format!("test-case/{case}/STDOUT"), opt).unwrap();
            test_case.write_all(b"3\n").unwrap();
        }
        test_case.finish().unwrap();
    }
    buf.into_inner()
}

#[test]
fn provision_is_idempotent() {
    // The download/extract step happens once: the second provision for
    // the same problem is answered from the cache.
    let mut cache = CaseCache::new();
    assert_eq!(cache.plan(7, true).unwrap(), ProvisionAction::Fetch);
    cache.complete(7);
    assert_eq!(cache.plan(7, true).unwrap(), ProvisionAction::UseCache);
    // even an absent archive reference no longer matters
    assert_eq!(cache.plan(7, false).unwrap(), ProvisionAction::UseCache);
    // other problems still fetch
    assert_eq!(cache.plan(8, true).unwrap(), ProvisionAction::Fetch);
}

#[test]
fn missing_archive_reference_is_fatal() {
    let cache = CaseCache::new();
    assert!(matches!(cache.plan(1, false), Err(Error::NoTestCase)));
}

#[test]
fn extract_unpacks_a_real_archive() {
    let dir = tempfile::tempdir().unwrap();
    let dest = dir.path().join("cases");
    assert!(!dest.exists());
    extract_test_cases(sample_archive(), dest.to_str().unwrap()).unwrap();
    assert!(dest.join("test-case").join("0000").join("STDIN").exists());
    assert!(dest.join("test-case").join("0000").join("STDOUT").exists());
    assert!(dest.join("test-case").join("0001").join("STDIN").exists());
    assert!(dest.join("test-case").join("0001").join("STDOUT").exists());
}

#[test]
fn unwritable_destination_is_a_failed_extraction() {
    // The archive opens, but the destination path is an existing plain
    // file, so unpacking cannot proceed.
    let blocker = tempfile::NamedTempFile::new().unwrap();
    let r = extract_test_cases(sample_archive(), blocker.path().to_str().unwrap());
    assert!(matches!(r, Err(Error::BadTestCaseExtract(_))));
}

#[test]
fn corrupt_archive_bytes_are_a_bad_test_case() {
    let dir = tempfile::tempdir().unwrap();
    let r = extract_test_cases(b"not a zip".to_vec(), dir.path().to_str().unwrap());
    assert!(matches!(r, Err(Error::BadTestCase(_))));
}
