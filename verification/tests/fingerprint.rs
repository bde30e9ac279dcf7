use stocks::fingerprint::{config_hash, digest_label};

#[test]
fn config_hash_is_sha256_of_the_encoded_bytes() {
    assert_eq!(
        config_hash(&Vec::new()),
        "sha256:e3b0c44298fc1c149afbf4c8996fb92427ae41e4649b934ca495991b7852b855"
    );
    assert_eq!(
        config_hash(&b"abc".to_vec()),
        "sha256:ba7816bf8f01cfea414140de5dae2223b00361a396177a9cb410ff61f20015ad"
    );
}

#[test]
fn digest_labels_use_lowercase_hex() {
    assert_eq!(digest_label(&vec![0x00, 0x0f, 0xab, 0xff]), "sha256:000fabff");
    assert_eq!(digest_label(&vec![]), "sha256:");
}
