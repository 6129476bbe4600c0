use server::cipher_util::{
    check_answer, check_salted_password, cipher_chain, decode_token, gen_salted_password,
    gen_totp, get_salt, hex_decode, hex_encode, prepare_hashed_answer, verify_totp,
    DecodeTokenError,
};
use server::models::User;
use server::VERICODE_LENGTH;

#[test]
fn hex_encode_matches_reference_crate() {
    let data: Vec<u8> = (0u8..=255).collect();
    assert_eq!(hex_encode(&data), hex::encode(&data));
    assert_eq!(hex_encode(&[]), "");
    assert_eq!(hex_encode(&[0xab, 0x01]), "ab01");
}

#[test]
fn hex_decode_accepts_both_cases_and_rejects_junk() {
    assert_eq!(hex_decode(b"ab01"), Some(vec![0xab, 0x01]));
    assert_eq!(hex_decode(b"AB01"), Some(vec![0xab, 0x01]));
    assert_eq!(hex_decode(b""), Some(vec![]));
    assert_eq!(hex_decode(b"a"), None);
    assert_eq!(hex_decode(b"zz"), None);
    let data: Vec<u8> = (0u8..=255).collect();
    assert_eq!(hex_decode(hex::encode(&data).as_bytes()), Some(data));
}

#[test]
fn hashed_answer_matches_known_digest() {
    // SHA-256 of "keyanswer".
    let expected = "fcf500b0123d6de03d8be1cc622b1a99417880a560977d0cdde720e55c916462";
    assert_eq!(prepare_hashed_answer("answer", "key"), expected);
}

#[test]
fn check_answer_accepts_exact_and_uppercase_digests() {
    let digest = prepare_hashed_answer("answer", "key");
    assert!(check_answer("answer", "key", &digest));
    assert!(check_answer("answer", "key", &digest.to_uppercase()));
    assert!(!check_answer("answer", "key", &prepare_hashed_answer("other", "key")));
    assert!(!check_answer("answer", "key", "no hex at all"));
    assert!(!check_answer("answer", "key", "ab01"));
}

#[test]
fn cipher_chain_walks_hash_rounds() {
    assert_eq!(cipher_chain("root", 0), "root");
    // SHA-256 of "root", then of its hex form.
    let c1 = "4813494d137e1631bba301d5acab6e7bb7aa74ce1185d456565ef51d737677b2";
    let c2 = "8737fe2e24535f5a4ffafdf7e7e4da78b4805aed77e8bb6ab36ea079bbfb8c1c";
    assert_eq!(cipher_chain("root", 1), c1);
    assert_eq!(cipher_chain("root", 2), c2);
}

#[test]
fn decipher_get_key_follows_the_chain() {
    let d = server::models::Decipher {
        pricing_type: 0,
        base_price: 10,
        depth: 3,
        root: String::from("root"),
    };
    assert_eq!(d.get_key(0), "root");
    assert_eq!(d.get_key(1), cipher_chain("root", 1));
    assert_eq!(d.get_key(2), cipher_chain("root", 2));
}

const TOKEN_OK: &str = "075c0f54d6d57707362279cf04e6b29e3ecaff300be5d7e7fdc73bea0c09340204f6a5fe7c7fddad9c88d365ae4c18349460559aa14fd7e7fb453cea0c093402";
const TOKEN_EXPIRED: &str = "932bdee1ab0b645208696cdab37d83661680aadcd04f7af362256d5493591f929081744b01a1cef8a2c3c67019d729ccbc2a00767ae57af364566a5493591f92";

#[test]
fn decode_token_accepts_a_valid_fresh_token() {
    let (version, mark, openid) = decode_token(TOKEN_OK, "registry", 100_000).expect("valid");
    assert_eq!(version, 3);
    assert_eq!(mark, 7);
    assert_eq!(openid, "aa".repeat(21));
}

#[test]
fn decode_token_rejects_malformed_hex() {
    assert!(matches!(
        decode_token("zz", "registry", 100_000),
        Err(DecodeTokenError::InvalidFormat)
    ));
    assert!(matches!(
        decode_token("ab01", "registry", 100_000),
        Err(DecodeTokenError::InvalidFormat)
    ));
    let odd = &TOKEN_OK[..127];
    assert!(matches!(
        decode_token(odd, "registry", 100_000),
        Err(DecodeTokenError::InvalidFormat)
    ));
}

#[test]
fn decode_token_rejects_a_tampered_token() {
    let mut tampered = String::from(TOKEN_OK);
    tampered.replace_range(0..2, "ff");
    match decode_token(&tampered, "registry", 100_000) {
        Err(DecodeTokenError::InvalidContent(s)) => assert_eq!(s, tampered),
        other => panic!("expected InvalidContent, got {:?}", other),
    }
}

#[test]
fn decode_token_rejects_wrong_salt() {
    assert!(matches!(
        decode_token(TOKEN_OK, "other salt", 100_000),
        Err(DecodeTokenError::InvalidContent(_))
    ));
}

#[test]
fn decode_token_reports_expiry_age() {
    match decode_token(TOKEN_EXPIRED, "registry", 100_000) {
        Err(DecodeTokenError::Expired(ago)) => assert_eq!(ago, 640),
        other => panic!("expected Expired, got {:?}", other),
    }
}

#[test]
fn totp_matches_known_vector() {
    // SHA-512 of "alice" + "sesame" + little-endian window 2000.
    let expected = "6b34f08514db25540cff81815721460a6589192d13f70d23e29e002cc5706b8bbf2bc27ebc746ab94470fe12164b75185067352be286ce3580f239ca09bfa9f0";
    assert_eq!(gen_totp("alice", "sesame", 240_000), expected);
}

#[test]
fn verify_totp_accepts_neighbouring_windows() {
    let code: String = gen_totp("alice", "sesame", 240_000).chars().take(VERICODE_LENGTH).collect();
    assert_eq!(code, "6b34f08514db2554");
    assert!(verify_totp("alice", "sesame", &code, 240_000));
    // One window earlier or later still accepts the same code.
    assert!(verify_totp("alice", "sesame", &code, 240_000 - 120));
    assert!(verify_totp("alice", "sesame", &code, 240_000 + 120));
    // Two windows away it no longer does.
    assert!(!verify_totp("alice", "sesame", &code, 240_000 + 240));
}

#[test]
fn verify_totp_requires_exact_length() {
    let code: String = gen_totp("alice", "sesame", 240_000).chars().take(VERICODE_LENGTH).collect();
    let short = &code[..VERICODE_LENGTH - 1];
    assert!(!verify_totp("alice", "sesame", short, 240_000));
    let long: String = gen_totp("alice", "sesame", 240_000).chars().take(17).collect();
    assert!(!verify_totp("alice", "sesame", &long, 240_000));
}

#[test]
fn verify_totp_rejects_wrong_identity() {
    let code: String = gen_totp("alice", "sesame", 240_000).chars().take(VERICODE_LENGTH).collect();
    assert!(!verify_totp("bob", "sesame", &code, 240_000));
}

fn user_with(salt: &str, password: &str) -> User {
    User {
        id: 1,
        openid: String::new(),
        team: None,
        username: String::from("u"),
        password: String::from(password),
        salt: String::from(salt),
        privilege: 0,
    }
}

#[test]
fn salted_password_round_trip() {
    let (salt, hash) = gen_salted_password("hunter2", "tok");
    assert_eq!(salt.len(), 64);
    assert_eq!(hash.len(), 64);
    let user = user_with(&salt, &hash);
    assert!(check_salted_password(&user, "hunter2", "tok").is_some());
    assert!(check_salted_password(&user, "hunter3", "tok").is_none());
    assert!(check_salted_password(&user, "hunter2", "kot").is_none());
}

#[test]
fn salted_password_known_vector() {
    let salt = "000102030405060708090a0b0c0d0e0f101112131415161718191a1b1c1d1e1f";
    let hash = "cabe2ceb26ad7d96b0b5c3231636473f10e8f57bdb476177f33ca9afb4e9ba60";
    let user = user_with(salt, hash);
    assert!(check_salted_password(&user, "hunter2", "tok").is_some());
    assert!(check_salted_password(&user, "hunter2", "tok ").is_none());
}

#[test]
fn salted_password_rejects_malformed_salt() {
    let user = user_with("zz", "00");
    assert!(check_salted_password(&user, "pw", "tok").is_none());
}

#[test]
fn salts_are_long_and_vary() {
    let a: [u8; 32] = get_salt::<32>();
    let b: [u8; 32] = get_salt::<32>();
    // 256 random bits colliding would mean the entropy source is broken.
    assert_ne!(a, b);
    let (s1, _) = gen_salted_password("pw", "tok");
    let (s2, _) = gen_salted_password("pw", "tok");
    assert_ne!(s1, s2);
}
