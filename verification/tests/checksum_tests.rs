use stump_core::checksum::{digest, digest_rar, sample_size, FileSample, DIGEST_THRESHOLD};

#[test]
fn sample_size_small_files_hashed_whole() {
    assert_eq!(DIGEST_THRESHOLD, 40000);
    assert_eq!(sample_size(0), 0);
    assert_eq!(sample_size(1), 1);
    assert_eq!(sample_size(39999), 39999);
}

#[test]
fn sample_size_middle_files_hashed_half() {
    assert_eq!(sample_size(40000), 20000);
    assert_eq!(sample_size(100000), 50000);
    assert_eq!(sample_size(199999), 99999);
}

#[test]
fn sample_size_large_files_capped_at_threshold() {
    assert_eq!(sample_size(200000), 40000);
    assert_eq!(sample_size(1_000_000), 40000);
    assert_eq!(sample_size(u64::MAX), 40000);
}

#[test]
fn sample_size_never_exceeds_file_size() {
    for n in [0u64, 1, 39999, 40000, 79999, 199999, 200000, 5_000_000] {
        assert!(sample_size(n) <= n);
    }
}

#[test]
fn sample_size_monotone_within_regimes() {
    assert!(sample_size(10) <= sample_size(20));
    assert!(sample_size(50000) <= sample_size(60000));
    assert!(sample_size(300000) <= sample_size(400000));
    assert!(sample_size(39999) <= sample_size(300000));
}

#[test]
fn digest_known_values() {
    assert_eq!(digest(b"", 0), "cbf29ce484222325");
    assert_eq!(digest(b"abc", 3), "e71fa2190541574b");
}

#[test]
fn digest_covers_only_the_prefix() {
    assert_eq!(digest(b"abcdef", 3), digest(b"abcxyz", 3));
    assert_eq!(digest(b"abcdef", 3), "e71fa2190541574b");
}

#[test]
fn digest_rar_full_sample_succeeds() {
    let sample = FileSample { file_size: 3, prefix: b"abc".to_vec() };
    assert_eq!(digest_rar(&sample), Some("e71fa2190541574b".to_string()));
}

#[test]
fn digest_rar_short_read_yields_absent_checksum() {
    let sample = FileSample { file_size: 100, prefix: b"abc".to_vec() };
    assert_eq!(digest_rar(&sample), None);
}

#[test]
fn digest_rar_large_file_uses_sampled_prefix() {
    let prefix = vec![7u8; 40000];
    let sample = FileSample { file_size: 10_000_000, prefix: prefix.clone() };
    let direct = digest(&prefix, 40000);
    assert_eq!(digest_rar(&sample), Some(direct));
}
