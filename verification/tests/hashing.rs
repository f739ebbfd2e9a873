use porkg::LockDefinition;
use porkg::StableHash;
use porkg::StableHashExt;
use porkg::StableHasher;
use porkg::StableHasherExt;
use porkg::SupportedHash;
use porkg::SupportedHasher;

fn digest_of(h: SupportedHash) -> [u8; 32] {
    match h {
        SupportedHash::Blake3(d) => d,
    }
}

#[test]
fn empty_digest_matches_reference() {
    let ours = SupportedHasher::blake3().finalize();
    let reference = blake3::hash(b"");
    assert_eq!(&digest_of(ours), reference.as_bytes());
}

#[test]
fn update_feeds_the_reference_stream() {
    let mut h = SupportedHasher::blake3();
    h.update(b"hello ");
    h.update(b"world");
    let ours = h.finalize();
    let reference = blake3::hash(b"hello world");
    assert_eq!(&digest_of(ours), reference.as_bytes());
}

#[test]
fn integers_hash_big_endian() {
    let ours = 0x01020304u32.hash(SupportedHasher::blake3());
    let reference = blake3::hash(&[1, 2, 3, 4]);
    assert_eq!(&digest_of(ours), reference.as_bytes());

    let ours = 0x0102030405060708u64.hash(SupportedHasher::blake3());
    let reference = blake3::hash(&[1, 2, 3, 4, 5, 6, 7, 8]);
    assert_eq!(&digest_of(ours), reference.as_bytes());

    let ours = true.hash(SupportedHasher::blake3());
    let reference = blake3::hash(&[0xff]);
    assert_eq!(&digest_of(ours), reference.as_bytes());
}

#[test]
fn strings_hash_length_prefixed() {
    let ours = String::from("ab").hash(SupportedHasher::blake3());
    let reference = blake3::hash(&[0, 0, 0, 0, 0, 0, 0, 2, b'a', b'b']);
    assert_eq!(&digest_of(ours), reference.as_bytes());
}

#[test]
fn runs_hash_positions_and_marker() {
    let mut h = SupportedHasher::blake3();
    let items: Vec<u8> = vec![9, 8];
    h.update_iter(&items);
    let ours = h.finalize();

    let mut reference = blake3::Hasher::new();
    reference.update(&[0, 0, 0, 0, 0, 0, 0, 0]); // position 0
    reference.update(&[9]);
    reference.update(&[0, 0, 0, 0, 0, 0, 0, 1]); // position 1
    reference.update(&[8]);
    reference.update(&[0xff; 8]); // closing marker
    assert_eq!(&digest_of(ours), reference.finalize().as_bytes());
}

#[test]
fn lock_definition_hash_is_stable() {
    let lock = LockDefinition {
        dependencies: vec![(String::from("a"), String::from("1"))],
        build_dependencies: vec![],
    };
    let ours = lock.hash(SupportedHasher::blake3());

    let mut reference = blake3::Hasher::new();
    reference.update(&[0, 0, 0, 0, 0, 0, 0, 0]); // position of the only pair
    reference.update(&[0, 0, 0, 0, 0, 0, 0, 1, b'a']); // key "a"
    reference.update(&[0, 0, 0, 0, 0, 0, 0, 1, b'1']); // value "1"
    reference.update(&[0xff; 8]); // dependencies end
    reference.update(&[0xff; 8]); // build dependencies end (empty)
    assert_eq!(&digest_of(ours), reference.finalize().as_bytes());
}

#[test]
fn matching_hasher_matches_algorithm() {
    let h = SupportedHasher::blake3().finalize();
    let again = h.create_matching_hasher().finalize();
    assert_eq!(digest_of(h), digest_of(again));
    assert_eq!(h.digest_bytes(), blake3::hash(b"").as_bytes());
}
