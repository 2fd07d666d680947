use vocab_service::password::{Argon2Crypto, CryptoError, MISMATCH_TEXT};
use vocab_service::traits::crypto::ICrypto;

#[test]
fn hash_verifies_against_its_secret() {
    let crypto = Argon2Crypto;
    let hashed = crypto.hash("secretpw").unwrap();
    assert_ne!(hashed, "secretpw");
    assert!(hashed.starts_with("$argon2id$"));
    assert!(crypto.verify("secretpw", &hashed).is_ok());
}

#[test]
fn wrong_secret_is_a_mismatch() {
    let crypto = Argon2Crypto;
    let hashed = crypto.hash("secretpw").unwrap();
    let checked = crypto.verify("wrong", &hashed);
    assert!(matches!(checked, Err(CryptoError::Mismatch)));
    assert!(matches!(crypto.verify("", &hashed), Err(CryptoError::Mismatch)));
}

#[test]
fn two_hashes_of_one_secret_differ() {
    let crypto = Argon2Crypto;
    let first = crypto.hash("secretpw").unwrap();
    let second = crypto.hash("secretpw").unwrap();
    assert_ne!(first, second);
    assert!(crypto.verify("secretpw", &first).is_ok());
    assert!(crypto.verify("secretpw", &second).is_ok());
}

#[test]
fn malformed_hash_is_not_a_mismatch() {
    let crypto = Argon2Crypto;
    for malformed in ["", "secretpw", "not a hash", "$argon2id$", "$$$"] {
        let checked = crypto.verify("secretpw", malformed);
        assert!(matches!(checked, Err(CryptoError::InvalidHash(_))));
    }
}

#[test]
fn hash_of_another_algorithm_is_invalid() {
    let crypto = Argon2Crypto;
    let foreign = "$scrypt$ln=16,r=8,p=1$aM15713r3Xsvxbi31lqr1Q$nFNh2CVHVjNldFVKDHDlm4CbdRSCdEBsjjJxD+iCs5E";
    let checked = crypto.verify("secretpw", foreign);
    assert!(matches!(checked, Err(CryptoError::InvalidHash(_))));
}

#[test]
fn empty_secret_can_be_hashed() {
    let crypto = Argon2Crypto;
    let hashed = crypto.hash("").unwrap();
    assert!(crypto.verify("", &hashed).is_ok());
    assert!(matches!(crypto.verify("x", &hashed), Err(CryptoError::Mismatch)));
}

#[test]
fn crypto_errors_have_a_text() {
    assert_eq!(CryptoError::Mismatch.message(), MISMATCH_TEXT);
    assert_eq!(MISMATCH_TEXT, "invalid password");
    assert_eq!(CryptoError::InvalidHash("bad".to_string()).message(), "bad");
    assert_eq!(CryptoError::HashingFailed("oom".to_string()).message(), "oom");
    assert!(matches!(CryptoError::of_refusal(true, "r".to_string()), CryptoError::Mismatch));
    assert!(matches!(
        CryptoError::of_refusal(false, "r".to_string()),
        CryptoError::InvalidHash(reason) if reason == "r"
    ));
}

#[test]
fn unusual_secrets_verify_against_their_hashes() {
    let crypto = Argon2Crypto;
    let long = "x".repeat(1000);
    for secret in ["пароль🔑", "with\0nul", " leading and trailing ", long.as_str()] {
        let hashed = crypto.hash(secret).unwrap();
        assert!(crypto.verify(secret, &hashed).is_ok());
        assert!(matches!(crypto.verify("other", &hashed), Err(CryptoError::Mismatch)));
    }
}

#[test]
fn tampered_hash_does_not_verify() {
    let crypto = Argon2Crypto;
    let hashed = crypto.hash("secretpw").unwrap();
    let cut = &hashed[..hashed.len() - 4];
    assert!(crypto.verify("secretpw", cut).is_err());
    let mut swapped = hashed.clone().into_bytes();
    let last = swapped.len() - 1;
    swapped[last] = if swapped[last] == b'A' { b'B' } else { b'A' };
    let swapped = String::from_utf8(swapped).unwrap();
    assert!(crypto.verify("secretpw", &swapped).is_err());
}
