use cosmos_auth::{
    AccountId, AnyMsg, BaseAccount, BaseAccountMsg, ModuleAccount, ModuleAccountMsg, ParseError,
    PublicKey,
};

const SECP256K1_URL: &str = "/cosmos.crypto.secp256k1.PubKey";
const ED25519_URL: &str = "/cosmos.crypto.ed25519.PubKey";

#[test]
fn base_account_wire_round_trip() {
    let msg = BaseAccountMsg {
        address: "cosmos1abcdefghijklmnopqrstuvwxyz0123456789ab".to_string(),
        pub_key: None,
        account_number: 12,
        sequence: 3,
    };
    let account = BaseAccount::try_from(msg.clone()).unwrap();
    assert_eq!(account.account_number, 12);
    assert_eq!(account.sequence, 3);
    assert!(account.pubkey.is_none());
    let re_encoded = BaseAccountMsg::from(account);
    assert_eq!(re_encoded, msg);
}

#[test]
fn base_account_domain_round_trip() {
    let address = AccountId::parse("cosmos1qypqxpq9qcrsszg2pvxq6rs0zqg3yyc5lzv7xu").unwrap();
    let account = BaseAccount {
        address,
        pubkey: Some(PublicKey::Secp256k1(vec![2u8; 33])),
        account_number: 42,
        sequence: 7,
    };
    let decoded = BaseAccount::try_from(BaseAccountMsg::from(account.clone())).unwrap();
    assert_eq!(decoded, account);
}

#[test]
fn base_account_domain_round_trip_ed25519() {
    let address = AccountId::parse("osmo1xyzxyzxyzxyzxyzxyz").unwrap();
    let account = BaseAccount {
        address,
        pubkey: Some(PublicKey::Ed25519(vec![9u8; 32])),
        account_number: 0,
        sequence: 0,
    };
    let decoded = BaseAccount::try_from(BaseAccountMsg::from(account.clone())).unwrap();
    assert_eq!(decoded, account);
}

#[test]
fn module_account_round_trip_permissions_order() {
    let account = ModuleAccount {
        base_account: None,
        name: "bonded_tokens_pool".to_string(),
        permissions: vec!["minter".to_string()],
    };
    let msg = ModuleAccountMsg::from(account.clone());
    assert_eq!(msg.name, "bonded_tokens_pool");
    assert_eq!(msg.permissions, vec!["minter".to_string()]);
    let back = ModuleAccount::try_from(msg).unwrap();
    assert_eq!(back, account);
    assert_eq!(back.permissions, vec!["minter".to_string()]);
}

#[test]
fn module_account_with_base_round_trips() {
    let address = AccountId::parse("cosmos1qypqxpq9qcrsszg2pvxq6rs0zqg3yyc5lzv7xu").unwrap();
    let base = BaseAccount {
        address,
        pubkey: Some(PublicKey::Ed25519(vec![4u8; 32])),
        account_number: 5,
        sequence: 11,
    };
    let account = ModuleAccount {
        base_account: Some(base),
        name: "staking".to_string(),
        permissions: vec!["burner".to_string(), "minter".to_string()],
    };
    let back = ModuleAccount::try_from(ModuleAccountMsg::from(account.clone())).unwrap();
    assert_eq!(back, account);
}

#[test]
fn permissions_preserved_verbatim_with_duplicates() {
    let perms = vec![
        "burner".to_string(),
        "minter".to_string(),
        "burner".to_string(),
    ];
    let account = ModuleAccount {
        base_account: None,
        name: "distribution".to_string(),
        permissions: perms.clone(),
    };
    let back = ModuleAccount::try_from(ModuleAccountMsg::from(account)).unwrap();
    assert_eq!(back.permissions, perms);
}

#[test]
fn empty_address_fails_identifier_parse() {
    let msg = BaseAccountMsg {
        address: String::new(),
        pub_key: None,
        account_number: 0,
        sequence: 0,
    };
    assert_eq!(BaseAccount::try_from(msg), Err(ParseError::IdentifierParse));
}

#[test]
fn secp256k1_length_mismatch_fails_key_decode() {
    let msg = BaseAccountMsg {
        address: "cosmos1abcdefghijklmnopqrstuvwxyz0123456789ab".to_string(),
        pub_key: Some(AnyMsg {
            type_url: SECP256K1_URL.to_string(),
            value: vec![1u8; 32],
        }),
        account_number: 1,
        sequence: 1,
    };
    assert_eq!(BaseAccount::try_from(msg), Err(ParseError::KeyDecode));
}

#[test]
fn ed25519_length_mismatch_fails_key_decode() {
    let msg = AnyMsg {
        type_url: ED25519_URL.to_string(),
        value: vec![1u8; 33],
    };
    assert_eq!(PublicKey::try_from(msg), Err(ParseError::KeyDecode));
}

#[test]
fn unknown_key_tag_fails_key_decode() {
    let msg = AnyMsg {
        type_url: "/cosmos.crypto.sr25519.PubKey".to_string(),
        value: vec![1u8; 32],
    };
    assert_eq!(PublicKey::try_from(msg), Err(ParseError::KeyDecode));
}

#[test]
fn secp256k1_key_decodes() {
    let msg = AnyMsg {
        type_url: SECP256K1_URL.to_string(),
        value: vec![3u8; 33],
    };
    assert_eq!(
        PublicKey::try_from(msg),
        Ok(PublicKey::Secp256k1(vec![3u8; 33]))
    );
}

#[test]
fn ed25519_key_decodes() {
    let msg = AnyMsg {
        type_url: ED25519_URL.to_string(),
        value: vec![5u8; 32],
    };
    assert_eq!(PublicKey::try_from(msg), Ok(PublicKey::Ed25519(vec![5u8; 32])));
}

#[test]
fn key_encodes_to_canonical_tag() {
    let encoded = AnyMsg::from(PublicKey::Secp256k1(vec![8u8; 33]));
    assert_eq!(encoded.type_url, SECP256K1_URL);
    assert_eq!(encoded.value, vec![8u8; 33]);
    let encoded = AnyMsg::from(PublicKey::Ed25519(vec![6u8; 32]));
    assert_eq!(encoded.type_url, ED25519_URL);
    assert_eq!(encoded.value, vec![6u8; 32]);
}

#[test]
fn nested_error_propagates_unchanged() {
    // Data part shorter than six characters: malformed address.
    let bad = BaseAccountMsg {
        address: "cosmos1short".to_string(),
        pub_key: None,
        account_number: 0,
        sequence: 0,
    };
    let alone = BaseAccount::try_from(bad.clone());
    let nested = ModuleAccount::try_from(ModuleAccountMsg {
        base_account: Some(bad),
        name: "gov".to_string(),
        permissions: vec![],
    });
    assert_eq!(nested.unwrap_err(), alone.unwrap_err());
}

#[test]
fn nested_key_error_propagates_unchanged() {
    let bad = BaseAccountMsg {
        address: "cosmos1abcdefghijklmnopqrstuvwxyz0123456789ab".to_string(),
        pub_key: Some(AnyMsg {
            type_url: ED25519_URL.to_string(),
            value: vec![0u8; 31],
        }),
        account_number: 2,
        sequence: 9,
    };
    let alone = BaseAccount::try_from(bad.clone());
    let nested = ModuleAccount::try_from(ModuleAccountMsg {
        base_account: Some(bad),
        name: "mint".to_string(),
        permissions: vec!["minter".to_string()],
    });
    assert_eq!(alone, Err(ParseError::KeyDecode));
    assert_eq!(nested.unwrap_err(), alone.unwrap_err());
}

#[test]
fn address_without_separator_fails() {
    assert_eq!(
        AccountId::parse("cosmosabcdefgh"),
        Err(ParseError::IdentifierParse)
    );
}

#[test]
fn address_with_uppercase_prefix_fails() {
    assert_eq!(
        AccountId::parse("Cosmos1abcdefgh"),
        Err(ParseError::IdentifierParse)
    );
}

#[test]
fn address_with_empty_prefix_fails() {
    assert_eq!(
        AccountId::parse("1abcdefgh"),
        Err(ParseError::IdentifierParse)
    );
}

#[test]
fn address_data_too_short_fails() {
    assert_eq!(
        AccountId::parse("cosmos1abcde"),
        Err(ParseError::IdentifierParse)
    );
}

#[test]
fn address_data_long_enough_parses() {
    assert!(AccountId::parse("cosmos1abcdef").is_ok());
}

#[test]
fn address_too_long_fails() {
    let text = format!("cosmos1{}", "a".repeat(84));
    assert_eq!(text.chars().count(), 91);
    assert_eq!(
        AccountId::parse(&text),
        Err(ParseError::IdentifierParse)
    );
}

#[test]
fn address_at_length_limit_parses() {
    let text = format!("cosmos1{}", "a".repeat(83));
    assert_eq!(text.chars().count(), 90);
    assert!(AccountId::parse(&text).is_ok());
}

#[test]
fn address_with_invalid_data_char_fails() {
    assert_eq!(
        AccountId::parse("cosmos1abc_def"),
        Err(ParseError::IdentifierParse)
    );
}

#[test]
fn address_canonical_text_preserved() {
    let text = "juno1mnopqrstuvwxyz234567";
    let id = AccountId::parse(text).unwrap();
    assert_eq!(id.to_text(), text);
}

#[test]
fn address_splits_at_first_separator() {
    // The data part may itself contain the separator character.
    let text = "cosmos1abc123xyz";
    let id = AccountId::parse(text).unwrap();
    assert_eq!(id.to_text(), text);
}
