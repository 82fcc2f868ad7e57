use base64::engine::general_purpose::URL_SAFE_NO_PAD;
use base64::Engine;
use overdrip::auth::pkce::{challenge_for, generate_pkce_challenge, PkceChallenge, ENTROPY_BYTES};
use sha2::{Digest, Sha256};

fn is_url_safe(text: &str) -> bool {
    text.chars().all(|c| c.is_ascii_alphanumeric() || c == '-' || c == '_')
}

#[test]
fn challenge_is_base64url_sha256_of_verifier() {
    for _ in 0..32 {
        let pkce = generate_pkce_challenge();
        let digest = Sha256::digest(pkce.code_verifier().as_bytes());
        assert_eq!(pkce.challenge(), URL_SAFE_NO_PAD.encode(digest));
    }
}

#[test]
fn verifier_encodes_32_bytes_of_entropy() {
    assert_eq!(ENTROPY_BYTES, 32);
    for _ in 0..32 {
        let pkce = generate_pkce_challenge();
        let entropy = URL_SAFE_NO_PAD.decode(pkce.code_verifier()).unwrap();
        assert_eq!(entropy.len(), 32);
        assert_eq!(pkce.code_verifier().len(), 43);
        assert!(is_url_safe(pkce.code_verifier()));
        assert!(!pkce.code_verifier().contains('='));
    }
}

#[test]
fn challenge_is_43_url_safe_characters() {
    let pkce = generate_pkce_challenge();
    assert_eq!(pkce.challenge().len(), 43);
    assert!(is_url_safe(pkce.challenge()));
    assert!(!pkce.challenge().contains('='));
}

#[test]
fn generated_pairs_do_not_collide() {
    let mut verifiers: Vec<String> = Vec::new();
    let mut challenges: Vec<String> = Vec::new();
    for _ in 0..200 {
        let pkce = generate_pkce_challenge();
        assert!(!verifiers.iter().any(|v| v == pkce.code_verifier()));
        assert!(!challenges.iter().any(|c| c == pkce.challenge()));
        verifiers.push(pkce.code_verifier().to_string());
        challenges.push(pkce.challenge().to_string());
    }
}

#[test]
fn challenge_for_v1() {
    assert_eq!(challenge_for("v1"), "O_wmlZTvZJIo6adLqwDwQu_JHVrMb77jGjgugNQjiP4");
}

#[test]
fn challenge_for_the_rfc_7636_verifier() {
    assert_eq!(
        challenge_for("dBjftJeZ4CVP-mB92K27uhbUJU1p1r_wW1gFWFOEjXk"),
        "E9Melhoa2OwvFrEMTJguCHaoeK1t8URWbuGJSstw-cM"
    );
}

#[test]
fn challenge_for_the_empty_verifier() {
    assert_eq!(challenge_for(""), "47DEQpj8HBSa-_TImW-5JCeuQeRkm5NMpJWZG3hSuFU");
}

#[test]
fn challenge_differs_from_its_verifier() {
    let verifier = "O_wmlZTvZJIo6adLqwDwQu_JHVrMb77jGjgugNQjiP4";
    assert_ne!(challenge_for(verifier), verifier);
}

#[test]
fn from_verifier_keeps_the_verifier_and_derives_the_challenge() {
    let pkce = PkceChallenge::from_verifier("v1".to_string());
    assert_eq!(pkce.code_verifier(), "v1");
    assert_eq!(pkce.challenge(), "O_wmlZTvZJIo6adLqwDwQu_JHVrMb77jGjgugNQjiP4");
}

#[test]
fn from_entropy_counting_bytes() {
    let mut entropy = [0u8; 32];
    for (i, byte) in entropy.iter_mut().enumerate() {
        *byte = i as u8;
    }
    let pkce = PkceChallenge::from_entropy(&entropy);
    assert_eq!(pkce.code_verifier(), "AAECAwQFBgcICQoLDA0ODxAREhMUFRYXGBkaGxwdHh8");
    assert_eq!(pkce.challenge(), "6oZqdX5MOLq_qBJ8vppAnT4fk6AP8UiP9zX8-Rev_9A");
}

#[test]
fn from_entropy_all_zero() {
    let pkce = PkceChallenge::from_entropy(&[0u8; 32]);
    assert_eq!(pkce.code_verifier(), "AAAAAAAAAAAAAAAAAAAAAAAAAAAAAAAAAAAAAAAAAAA");
    assert_eq!(pkce.challenge(), "DwBzhbb51LfusnSGBa_hqYSgo7-j8BTQnip4TOnlzRo");
}

#[test]
fn from_entropy_all_ones_uses_the_underscore() {
    let pkce = PkceChallenge::from_entropy(&[0xffu8; 32]);
    assert_eq!(pkce.code_verifier(), "__________________________________________8");
    assert_eq!(pkce.challenge(), "Il9-dTKd1FqjVJddc5hzGTCTk686TGczvBNgGk8bh5Y");
}

#[test]
fn from_entropy_uses_the_hyphen() {
    let mut entropy = [0u8; 32];
    for (i, byte) in entropy.iter_mut().enumerate() {
        *byte = [0xfbu8, 0xef, 0xbe][i % 3];
    }
    let pkce = PkceChallenge::from_entropy(&entropy);
    assert_eq!(pkce.code_verifier(), "------------------------------------------8");
    assert_eq!(pkce.challenge(), "S3-a0mVajRqUF4Rrg359JoGsnhjSkLw1AjD_YV5WUHc");
}

#[test]
fn from_entropy_mixed_bytes() {
    let mut entropy = [0u8; 32];
    for (i, byte) in entropy.iter_mut().enumerate() {
        *byte = ((i * 37 + 11) % 256) as u8;
    }
    let pkce = PkceChallenge::from_entropy(&entropy);
    assert_eq!(pkce.code_verifier(), "CzBVep_E6Q4zWH2ix-wRNluApcrvFDleg6jN8hc8YYY");
    assert_eq!(pkce.challenge(), "F-83crhCIQCO17sRSfkFanE5VeZRT-XclLYfcgKs150");
    assert_eq!(URL_SAFE_NO_PAD.decode(pkce.code_verifier()).unwrap(), entropy.to_vec());
}
