use limbus_launcher::hashing::{calculate_md5, digest_hex, ContentHasher};

#[test]
fn digest_of_known_content() {
    assert_eq!(digest_hex(b"hello world"), "5eb63bbbe01eeed093cb22bb8f5acdc3");
    assert_eq!(digest_hex(b"abc"), "900150983cd24fb0d6963f7d28e17f72");
    assert_eq!(
        digest_hex(b"The quick brown fox jumps over the lazy dog"),
        "9e107d9d372bb6826bd81d3542a419d6"
    );
}

#[test]
fn digest_of_nothing() {
    assert_eq!(digest_hex(b""), "d41d8cd98f00b204e9800998ecf8427e");
    assert_eq!(calculate_md5(&Vec::new()), "d41d8cd98f00b204e9800998ecf8427e");
    assert_eq!(ContentHasher::new().finish(), "d41d8cd98f00b204e9800998ecf8427e");
}

#[test]
fn digest_is_32_lowercase_hex_digits() {
    let hex = digest_hex(&[0u8, 255, 16, 1]);
    assert_eq!(hex.len(), 32);
    assert_eq!(calculate_md5(&vec![vec![1u8, 2], vec![3u8]]).len(), 32);
    assert!(hex.chars().all(|c| c.is_ascii_digit() || ('a'..='f').contains(&c)));
}

#[test]
fn chunked_content_hashes_like_whole_content() {
    let chunks = vec![b"hello".to_vec(), b" ".to_vec(), Vec::new(), b"world".to_vec()];
    assert_eq!(calculate_md5(&chunks), "5eb63bbbe01eeed093cb22bb8f5acdc3");
    assert_eq!(calculate_md5(&vec![b"hello world".to_vec()]), digest_hex(b"hello world"));
}

#[test]
fn cutting_content_differently_gives_the_same_digest() {
    let content: Vec<u8> = (0..5000u32).map(|i| (i % 251) as u8).collect();
    let whole = digest_hex(&content);
    for size in [1usize, 7, 64, 1024, 4999, 5000, 9000] {
        let chunks: Vec<Vec<u8>> = content.chunks(size).map(|c| c.to_vec()).collect();
        assert_eq!(calculate_md5(&chunks), whole);
    }
}

#[test]
fn streaming_hasher_absorbs_in_order() {
    let mut hasher = ContentHasher::new();
    hasher.update(b"hello ");
    hasher.update(b"world");
    assert_eq!(hasher.finish(), "5eb63bbbe01eeed093cb22bb8f5acdc3");

    let mut swapped = ContentHasher::new();
    swapped.update(b"world");
    swapped.update(b"hello ");
    assert_ne!(swapped.finish(), "5eb63bbbe01eeed093cb22bb8f5acdc3");
}

#[test]
fn different_content_has_a_different_digest() {
    assert_ne!(digest_hex(b"hello world"), digest_hex(b"hello world!"));
    assert_ne!(digest_hex(b"a"), digest_hex(b"b"));
}
