use carbon::checksum::{digest_hex, Algorithm, Checksum, StreamingDigest};

#[test]
fn sha1_of_known_text() {
    assert_eq!(
        digest_hex(Algorithm::Sha1, b"hello world"),
        "2aae6c35c94fcfb415dbe95f408b9ce91ee846ed"
    );
}

#[test]
fn sha256_of_known_text() {
    assert_eq!(
        digest_hex(Algorithm::Sha256, b"hello world"),
        "b94d27b9934d3e08a52e52d7da7dabfac484efe37a5380ee9088f7ace2efcde9"
    );
}

#[test]
fn md5_of_known_text() {
    assert_eq!(
        digest_hex(Algorithm::Md5, b"hello world"),
        "5eb63bbbe01eeed093cb22bb8f5acdc3"
    );
}

#[test]
fn digests_of_empty_input() {
    assert_eq!(
        digest_hex(Algorithm::Sha1, b""),
        "da39a3ee5e6b4b0d3255bfef95601890afd80709"
    );
    assert_eq!(
        digest_hex(Algorithm::Sha256, b""),
        "e3b0c44298fc1c149afbf4c8996fb92427ae41e4649b934ca495991b7852b855"
    );
    assert_eq!(
        digest_hex(Algorithm::Md5, b""),
        "d41d8cd98f00b204e9800998ecf8427e"
    );
}

#[test]
fn digest_agrees_with_the_hash_crates() {
    let data = b"The quick brown fox jumps over the lazy dog";
    assert_eq!(
        digest_hex(Algorithm::Sha1, data),
        hex::encode(<sha1::Sha1 as sha1::Digest>::digest(data))
    );
    assert_eq!(
        digest_hex(Algorithm::Sha256, data),
        hex::encode(<sha2::Sha256 as sha2::Digest>::digest(data))
    );
    assert_eq!(
        digest_hex(Algorithm::Md5, data),
        hex::encode(<md5::Md5 as md5::Digest>::digest(data))
    );
}

#[test]
fn streaming_does_not_depend_on_chunking() {
    for algorithm in [Algorithm::Sha1, Algorithm::Sha256, Algorithm::Md5] {
        let mut digest = StreamingDigest::new(algorithm);
        digest.update(b"hello");
        digest.update(b"");
        digest.update(b" wor");
        digest.update(b"ld");
        assert_eq!(digest.finalize(), digest_hex(algorithm, b"hello world"));
    }
}

#[test]
fn streaming_update_changes_the_digest() {
    let mut digest = StreamingDigest::new(Algorithm::Sha1);
    digest.update(b"a");
    assert_eq!(digest.finalize(), "86f7e437faa5a7fce15d1ddcb9eaeaea377667b8");
    let untouched = StreamingDigest::new(Algorithm::Sha1);
    assert_eq!(untouched.finalize(), "da39a3ee5e6b4b0d3255bfef95601890afd80709");
}

#[test]
fn hex_text_is_lowercase_two_characters_per_byte() {
    let text = digest_hex(Algorithm::Md5, b"abc");
    assert_eq!(text, "900150983cd24fb0d6963f7d28e17f72");
    assert_eq!(text.len(), 32);
    assert!(text.chars().all(|c| c.is_ascii_digit() || ('a'..='f').contains(&c)));
}

#[test]
fn checksum_names_its_algorithm_and_text() {
    let checksum = Checksum::Sha256("ab".to_string());
    assert_eq!(checksum.algorithm(), Algorithm::Sha256);
    assert_eq!(checksum.expected(), "ab");
    assert_eq!(Checksum::Sha1("x".to_string()).algorithm(), Algorithm::Sha1);
    assert_eq!(Checksum::Md5("y".to_string()).algorithm(), Algorithm::Md5);
    assert_eq!(checksum.clone(), checksum);
}

#[test]
fn checksum_verify_accepts_the_right_content() {
    let checksum = Checksum::Sha1("2aae6c35c94fcfb415dbe95f408b9ce91ee846ed".to_string());
    assert!(checksum.verify(b"hello world"));
    assert!(!checksum.verify(b"hello world!"));
}

#[test]
fn checksum_comparison_is_case_sensitive() {
    let upper = Checksum::Sha1("2AAE6C35C94FCFB415DBE95F408B9CE91EE846ED".to_string());
    assert!(!upper.verify(b"hello world"));
    assert!(!upper.matches_hex(&"2aae6c35c94fcfb415dbe95f408b9ce91ee846ed".to_string()));
    assert!(upper.matches_hex(&"2AAE6C35C94FCFB415DBE95F408B9CE91EE846ED".to_string()));
}

#[test]
fn checksum_of_the_wrong_algorithm_does_not_match() {
    let checksum = Checksum::Md5("2aae6c35c94fcfb415dbe95f408b9ce91ee846ed".to_string());
    assert!(!checksum.verify(b"hello world"));
}
