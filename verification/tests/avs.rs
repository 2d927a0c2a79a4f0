use lgn_worker::avs::{
    check_deregistration, check_registration, expiry_timestamp, main_key_source, password_source,
    salt, MainKeySource, PasswordSource, PublicKey, RegistrationError, DEFAULT_EXPIRY_SECONDS,
};

#[test]
fn public_key_hex() {
    let mut x = [0u8; 32];
    x[31] = 1;
    let k = PublicKey { x, y: [0xab; 32] };
    let expected = format!("{}01{}", "0".repeat(62), "ab".repeat(32));
    assert_eq!(k.to_hex(), expected);
    assert_eq!(k.to_hex().len(), 128);
}

#[test]
fn signature_expiry() {
    assert_eq!(DEFAULT_EXPIRY_SECONDS, 300);
    assert_eq!(expiry_timestamp(1_700_000_000), 1_700_000_300);
    assert_eq!(expiry_timestamp(0), 300);
}

#[test]
fn salts_are_32_bytes() {
    let a = salt();
    let b = salt();
    assert_eq!(a.len(), 32);
    // Two draws of 256 random bits agree with negligible probability.
    assert_ne!(a, b);
}

#[test]
fn password_sources() {
    match password_source(Some("secret".to_string())) {
        PasswordSource::Environment(p) => assert_eq!(p, "secret"),
        other => panic!("unexpected {:?}", other),
    }
    assert!(matches!(
        password_source(Some(String::new())),
        PasswordSource::Prompt
    ));
    assert!(matches!(password_source(None), PasswordSource::Prompt));
}

#[test]
fn registration_checks_in_order() {
    assert_eq!(check_registration(true, true, false), Ok(()));
    assert_eq!(
        check_registration(false, false, true),
        Err(RegistrationError::NotOperator)
    );
    assert_eq!(
        check_registration(true, false, true),
        Err(RegistrationError::NotWhitelisted)
    );
    assert_eq!(
        check_registration(true, true, true),
        Err(RegistrationError::AlreadyRegistered)
    );
    assert_eq!(check_deregistration(true), Ok(()));
    assert_eq!(
        check_deregistration(false),
        Err(RegistrationError::NotOperator)
    );
}

#[test]
fn main_key_sources() {
    match main_key_source(Some("0x01".to_string())) {
        MainKeySource::PrivateKey(k) => assert_eq!(k, "0x01"),
        other => panic!("unexpected {:?}", other),
    }
    assert!(matches!(
        main_key_source(Some(String::new())),
        MainKeySource::PrivateKey(_)
    ));
    assert!(matches!(main_key_source(None), MainKeySource::Keystore));
}
