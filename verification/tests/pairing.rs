//! Pairing codes and bearer tokens.

use berthos::pairing::{
    code_from_indices, codes_equal, next_code, token_from_bytes, Capability, IssuedToken, PairError,
    PairingBooth,
};

#[test]
fn pair_grants_capabilities_and_rotates_code() {
    let mut booth = PairingBooth::new();
    let code = booth.code.clone();
    let token = booth.pair(&code).expect("pair");
    assert!(booth.authorize(&token, Capability::Lease).is_ok());
    assert!(booth.authorize(&token, Capability::Operator).is_ok());
    assert_ne!(booth.code, code);
    assert_eq!(booth.pair(&code), Err(PairError::BadCode));
}

#[test]
fn unknown_token_rejected() {
    let booth = PairingBooth::new();
    assert_eq!(
        booth.authorize("deadbeef", Capability::Lease),
        Err(PairError::UnknownToken)
    );
}

#[test]
fn codes_have_their_shape() {
    for _ in 0..50 {
        let code = PairingBooth::default().code;
        assert_eq!(code.len(), 9);
        for (i, c) in code.chars().enumerate() {
            if i == 4 {
                assert_eq!(c, '-');
            } else {
                assert!("ABCDEFGHJKLMNPQRSTUVWXYZ23456789".contains(c), "{code}");
            }
        }
    }
    assert_eq!(code_from_indices(&[0, 1, 2, 3, 31, 30, 23, 24]), "ABCD-98Z2");
}

#[test]
fn tokens_are_random_and_kept_as_hashes() {
    let mut booth = PairingBooth::new();
    let code = booth.code.clone();
    let first = booth.pair(&code).unwrap();
    let code = booth.code.clone();
    let second = booth.pair(&code).unwrap();
    assert_ne!(first, second);
    assert_eq!(first.len(), 64);
    assert!(first.chars().all(|c| c.is_ascii_digit() || ('a'..='f').contains(&c)));
    assert_eq!(booth.tokens.len(), 2);
    assert!(booth.tokens.iter().all(|t| t.token_hash != first && t.token_hash.len() == 64));
    assert!(booth.authorize(&first, Capability::Lease).is_ok());
    assert!(booth.authorize(&second, Capability::Lease).is_ok());
}

#[test]
fn stored_hash_is_sha256_in_hexadecimal() {
    let mut booth = PairingBooth::new();
    booth.record("abc", "NEXT-CODE".into());
    assert_eq!(booth.code, "NEXT-CODE");
    assert_eq!(
        booth.tokens,
        [IssuedToken {
            token_hash: "ba7816bf8f01cfea414140de5dae2223b00361a396177a9cb410ff61f20015ad".into(),
            capabilities: vec![Capability::Operator, Capability::Lease],
        }]
    );
    assert!(booth.authorize("abc", Capability::Operator).is_ok());
}

#[test]
fn codes_ignore_case_and_separators() {
    assert!(codes_equal("ABCD-EF23", "abcd ef23"));
    assert!(codes_equal("ABCD-EF23", "abcdef23"));
    assert!(!codes_equal("ABCD-EF23", "ABCD-EF2"));
    assert!(codes_equal("", "---"));
}

#[test]
fn a_refused_code_changes_nothing() {
    let mut booth = PairingBooth::new();
    let code = booth.code.clone();
    assert_eq!(booth.pair("????"), Err(PairError::BadCode));
    assert_eq!(booth.code, code);
    assert!(booth.tokens.is_empty());
}

#[test]
fn a_token_without_the_capability_is_refused() {
    let mut booth = PairingBooth::new();
    booth.record("abc", "AAAA-AAAA".into());
    booth.tokens[0].capabilities = vec![Capability::Lease];
    assert!(booth.authorize("abc", Capability::Lease).is_ok());
    let error = booth.authorize("abc", Capability::Operator).unwrap_err();
    assert_eq!(error, PairError::MissingCapability(Capability::Operator));
    assert_eq!(error.message(), "token missing capability Operator");
    assert_eq!(
        PairError::MissingCapability(Capability::Lease).message(),
        "token missing capability Lease"
    );
    assert_eq!(PairError::BadCode.message(), "pairing code rejected");
    assert_eq!(PairError::UnknownToken.message(), "unknown pairing token");
}

#[test]
fn tokens_spell_their_bytes() {
    let mut bytes = [0u8; 32];
    bytes[0] = 0x01;
    bytes[1] = 0xaf;
    bytes[31] = 0xff;
    let token = token_from_bytes(&bytes);
    assert!(token.starts_with("01af00"));
    assert!(token.ends_with("00ff"));
    assert_eq!(token.len(), 64);
}

#[test]
fn the_first_token_with_a_hash_counts() {
    let mut booth = PairingBooth::new();
    booth.record_hash("h".into(), "AAAA-AAAA".into());
    booth.record_hash("h".into(), "BBBB-BBBB".into());
    booth.tokens[0].capabilities = vec![];
    assert_eq!(
        booth.authorize_hash("h", Capability::Lease),
        Err(PairError::MissingCapability(Capability::Lease))
    );
    assert_eq!(
        booth.authorize_hash("other", Capability::Lease),
        Err(PairError::UnknownToken)
    );
}

#[test]
fn a_code_is_never_drawn_twice_in_a_row() {
    let indices = [0, 1, 2, 3, 31, 30, 23, 24];
    assert_eq!(next_code("AAAA-AAAA", &indices), "ABCD-98Z2");
    assert_eq!(next_code("ABCD-98Z2", &indices), "BBCD-98Z2");
    assert_eq!(next_code("abcd98z2", &indices), "BBCD-98Z2");
    let last = [31, 0, 0, 0, 0, 0, 0, 0];
    assert_eq!(next_code("9AAA-AAAA", &last), "AAAA-AAAA");
}
