use mue_engine::hexstr::{decode_pubkey_from_hex, encode_hex, is_bitstring, is_hex64, WalletParseError};
use mue_engine::pki::{pk_eq, PubKey};
use mue_engine::session::WitnessProof;
use mue_engine::submit::{
    validate_mine_request, validate_witness_request, MineReq, ProofJson, RequestError, WitnessReq,
};

fn hex64(fill: char) -> String {
    let mut s = String::from("0x");
    for _ in 0..64 {
        s.push(fill);
    }
    s
}

fn wallet_hex() -> String {
    // 32 bytes: 0x01 repeated.
    "01".repeat(32)
}

#[test]
fn identity_round_trips_through_hex() {
    let pk = PubKey::new([1u8; 32]);
    let encoded = encode_hex(pk.as_bytes());
    assert_eq!(encoded, wallet_hex());
    let decoded = decode_pubkey_from_hex(&encoded).unwrap();
    assert!(pk_eq(&decoded, &pk));
    let with_prefix = decode_pubkey_from_hex(&format!("0x{encoded}")).unwrap();
    assert!(pk_eq(&with_prefix, &pk));
}

#[test]
fn display_form_is_prefixed_lowercase_hex() {
    let mut bytes = [0u8; 32];
    bytes[0] = 0xde;
    bytes[1] = 0xad;
    bytes[31] = 0x0f;
    let pk = PubKey::new(bytes);
    let shown = pk.display_string();
    assert!(shown.starts_with("kaspa:dead"));
    assert!(shown.ends_with("0f"));
    assert_eq!(shown.len(), "kaspa:".len() + 64);
}

#[test]
fn wallet_hex_errors_are_distinguished() {
    assert_eq!(
        decode_pubkey_from_hex("zz").unwrap_err(),
        WalletParseError::InvalidHex
    );
    assert_eq!(
        decode_pubkey_from_hex("0x123").unwrap_err(),
        WalletParseError::InvalidHex
    );
    assert_eq!(
        decode_pubkey_from_hex("0a0b").unwrap_err(),
        WalletParseError::TooShort
    );
}

#[test]
fn longer_wallets_keep_their_first_32_bytes() {
    let mut long = wallet_hex();
    long.push_str("ffff");
    let pk = decode_pubkey_from_hex(&long).unwrap();
    assert_eq!(pk.as_bytes(), &[1u8; 32]);
}

#[test]
fn hex64_and_bitstring_validation() {
    assert!(is_hex64(&hex64('a')));
    assert!(is_hex64(&hex64('0')));
    assert!(!is_hex64(&hex64('g')));
    assert!(!is_hex64("0xabc"));
    assert!(!is_hex64(&hex64('a')[2..]));
    assert!(is_bitstring("0101"));
    assert!(is_bitstring(""));
    assert!(!is_bitstring("0102"));
}

#[test]
fn mine_request_validation() {
    let ok = MineReq {
        wallet: wallet_hex(),
        mu_level: 20,
        block_height: 123,
    };
    let (pk, ev) = validate_mine_request(&ok).unwrap();
    assert_eq!(pk.as_bytes(), &[1u8; 32]);
    assert_eq!(ev.mu_level, 20);
    assert!(!ev.is_witness);
    assert_eq!(ev.block_height, 123);
    assert!(matches!(ev.witness_proof, WitnessProof::Missing));

    let bad_level = MineReq {
        wallet: wallet_hex(),
        mu_level: 65,
        block_height: 0,
    };
    assert_eq!(
        validate_mine_request(&bad_level).unwrap_err(),
        RequestError::InvalidMuLevel
    );

    let bad_wallet = MineReq {
        wallet: "nothex".into(),
        mu_level: 20,
        block_height: 0,
    };
    assert_eq!(
        validate_mine_request(&bad_wallet).unwrap_err(),
        RequestError::InvalidWalletHex
    );

    let short_wallet = MineReq {
        wallet: "0badc0de".into(),
        mu_level: 20,
        block_height: 0,
    };
    assert_eq!(
        validate_mine_request(&short_wallet).unwrap_err(),
        RequestError::WalletTooShort
    );
}

#[test]
fn witness_request_validation() {
    let good = WitnessReq {
        wallet: wallet_hex(),
        mu_level: 16,
        proof: ProofJson {
            siblings: vec![hex64('a'), hex64('b')],
            path: "01".into(),
        },
    };
    let (pk, ev) = validate_witness_request(&good).unwrap();
    assert_eq!(pk.as_bytes(), &[1u8; 32]);
    assert!(ev.is_witness);
    assert_eq!(ev.mu_level, 16);
    assert_eq!(ev.block_height, 0);

    let empty_siblings = WitnessReq {
        wallet: wallet_hex(),
        mu_level: 16,
        proof: ProofJson {
            siblings: vec![],
            path: "01".into(),
        },
    };
    assert_eq!(
        validate_witness_request(&empty_siblings).unwrap_err(),
        RequestError::InvalidSiblings
    );

    let bad_sibling = WitnessReq {
        wallet: wallet_hex(),
        mu_level: 16,
        proof: ProofJson {
            siblings: vec![hex64('g')],
            path: "01".into(),
        },
    };
    assert_eq!(
        validate_witness_request(&bad_sibling).unwrap_err(),
        RequestError::InvalidSiblings
    );

    let bad_path = WitnessReq {
        wallet: wallet_hex(),
        mu_level: 16,
        proof: ProofJson {
            siblings: vec![hex64('a')],
            path: "012".into(),
        },
    };
    assert_eq!(
        validate_witness_request(&bad_path).unwrap_err(),
        RequestError::InvalidPath
    );

    let bad_level = WitnessReq {
        wallet: wallet_hex(),
        mu_level: 0,
        proof: ProofJson {
            siblings: vec![hex64('a')],
            path: "0".into(),
        },
    };
    assert_eq!(
        validate_witness_request(&bad_level).unwrap_err(),
        RequestError::InvalidMuLevel
    );
}
