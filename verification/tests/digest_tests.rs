use modsupdater::digest::ContentHasher;
use modsupdater::{hash_bytes_sha1, hash_bytes_sha512};

#[test]
fn sha512_of_known_inputs() {
    assert_eq!(
        hash_bytes_sha512(b""),
        "cf83e1357eefb8bdf1542850d66d8007d620e4050b5715dc83f4a921d36ce9ce47d0d13c5d85f2b0ff8318d2877eec2f63b931bd47417a81a538327af927da3e"
    );
    assert_eq!(
        hash_bytes_sha512(b"abc"),
        "ddaf35a193617abacc417349ae20413112e6fa4e89a97ea20a9eeee64b55d39a2192992a274fc1a836ba3c23a3feebbd454d4423643ce80e2a9ac94fa54ca49f"
    );
}

#[test]
fn sha1_of_known_inputs() {
    assert_eq!(hash_bytes_sha1(b"abc"), "a9993e364706816aba3e25717850c26c9cd0d89d");
    assert_eq!(hash_bytes_sha1(b""), "da39a3ee5e6b4b0d3255bfef95601890afd80709");
}

#[test]
fn streamed_hash_equals_whole_hash() {
    let data: Vec<u8> = (0..20000u32).map(|i| (i * 7 % 251) as u8).collect();
    let mut hasher = ContentHasher::new();
    for chunk in data.chunks(8192) {
        hasher.feed(chunk);
    }
    let (sha512, sha1) = hasher.finish();
    assert_eq!(sha512, hash_bytes_sha512(&data));
    assert_eq!(sha1, hash_bytes_sha1(&data));
    assert_eq!(sha512.len(), 128);
    assert_eq!(sha1.len(), 40);
}
