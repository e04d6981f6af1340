use branchswitch::digest::fingerprint;

#[test]
fn same_bytes_same_digest() {
    let b = b"flask==2.0.1\n".to_vec();
    assert_eq!(fingerprint(&b), fingerprint(&b));
    let copy = b.clone();
    assert_eq!(fingerprint(&b), fingerprint(&copy));
}

#[test]
fn empty_input_same_digest_twice() {
    let empty: Vec<u8> = Vec::new();
    assert_eq!(fingerprint(&empty), fingerprint(&Vec::new()));
}

#[test]
fn single_byte_change_changes_digest() {
    let base = b"left-pad@1.3.0".to_vec();
    let baseline = fingerprint(&base);
    for i in 0..base.len() {
        let mut mutated = base.clone();
        mutated[i] ^= 0x01;
        assert_ne!(baseline, fingerprint(&mutated));
    }
}

#[test]
fn appended_byte_changes_digest() {
    let base = b"rails 7.0\n".to_vec();
    let mut longer = base.clone();
    longer.push(b'\n');
    assert_ne!(fingerprint(&base), fingerprint(&longer));
}

#[test]
fn known_sha1_vectors() {
    assert_eq!(
        fingerprint(&Vec::new()),
        "da39a3ee5e6b4b0d3255bfef95601890afd80709"
    );
    assert_eq!(
        fingerprint(&b"abc".to_vec()),
        "a9993e364706816aba3e25717850c26c9cd0d89d"
    );
    assert_eq!(fingerprint(&b"abc".to_vec()).len(), 40);
}
