use rustlabs::hasher::{HashAlgorythm, HashPreviewOption, Hasher};

fn digest(algo: HashAlgorythm, option: HashPreviewOption, text: &str) -> String {
    let mut h = Hasher::new(algo, option);
    h.text = text.to_string();
    h.calculate();
    h.view()
}

#[test]
fn hex_digests_of_abc() {
    let hex = HashPreviewOption::Hex;
    assert_eq!(
        digest(HashAlgorythm::Sha3_224, hex, "abc"),
        "e642824c3f8cf24ad09234ee7d3c766fc9a3a5168d0c94ad73b46fdf"
    );
    assert_eq!(
        digest(HashAlgorythm::Sha3_256, hex, "abc"),
        "3a985da74fe225b2045c172d6bd390bd855f086e3e9d525b46bfe24511431532"
    );
    assert_eq!(
        digest(HashAlgorythm::Sha3_384, hex, "abc"),
        "ec01498288516fc926459f58e2c6ad8df9b473cb0fc08c2596da7cf0e49be4b298d88cea927ac7f539f1edf228376d25"
    );
    assert_eq!(
        digest(HashAlgorythm::Sha3_512, hex, "abc"),
        "b751850b1a57168a5693cd924b6b096e08f621827444f70d884f5d0240d2712e10e116e9192af3c91a7ec57647e3934057340b4cf408d5a56592f8274eec53f0"
    );
}

#[test]
fn base64_digests() {
    let b64 = HashPreviewOption::Base64;
    assert_eq!(
        digest(HashAlgorythm::Sha3_256, b64, "abc"),
        "Ophdp0/iJbIEXBcta9OQvYVfCG4+nVJbRr/iRRFDFTI"
    );
    assert_eq!(
        digest(HashAlgorythm::Sha3_224, b64, "abc"),
        "5kKCTD+M8krQkjTufTx2b8mjpRaNDJStc7Rv3w"
    );
    assert_eq!(
        digest(HashAlgorythm::Sha3_256, b64, "Привет"),
        "9LmZKWrUhLmB3PxjzMJ122XOKZ07Vfvy2s5q2etZmNE"
    );
}

#[test]
fn digest_lengths() {
    let mut h = Hasher::new(HashAlgorythm::Sha3_384, HashPreviewOption::Hex);
    h.text = "x".to_string();
    h.calculate();
    assert_eq!(h.data.len(), 48);
    h.algo = HashAlgorythm::Sha3_512;
    h.calculate();
    assert_eq!(h.data.len(), 64);
    assert_eq!(h.view().len(), 128);
}

#[test]
fn empty_text_keeps_last_digest() {
    let mut h = Hasher::new(HashAlgorythm::Sha3_256, HashPreviewOption::Hex);
    assert_eq!(h.view(), "");
    h.calculate();
    assert!(h.data.is_empty());
    assert_eq!(h.view(), "");
    h.text = "abc".to_string();
    h.calculate();
    let shown = h.view();
    h.text = String::new();
    h.calculate();
    assert_eq!(h.view(), shown);
}

#[test]
fn menu_positions() {
    assert_eq!(HashAlgorythm::from_index(0), Some(HashAlgorythm::Sha3_224));
    assert_eq!(HashAlgorythm::from_index(3), Some(HashAlgorythm::Sha3_512));
    assert_eq!(HashAlgorythm::from_index(4), None);
    assert_eq!(HashAlgorythm::Sha3_384.title(), "SHA3-384");
}
