use apple_account::account::{label_2fa_headers, split_token, AppleAccount};
use apple_account::error::{AccountError, EntryKind, SpdUse};
use apple_account::plist_tree::{PlistDictionary, PlistValue};
use apple_account::privacy::{can_censor, censor_email};
use apple_account::types::{LoginState, TrustedNumber};

fn with_spd(spd: PlistDictionary) -> AppleAccount {
    let mut account = AppleAccount::new("user@example.com", false);
    account.spd = Some(spd);
    account
}

#[test]
fn new_account_needs_a_login() {
    let account = AppleAccount::builder("user@example.com").build(true);
    assert_eq!(account.email, "user@example.com");
    assert!(account.debug);
    assert!(account.spd.is_none());
    assert!(account.trusted_phone_numbers.is_none());
    assert!(account.last_error.is_none());
    assert!(matches!(account.login_state, LoginState::NeedsLogin));
    assert_eq!(account.to_string(), "Apple Account: user@example.com (NeedsLogin)");
}

#[test]
fn display_shows_the_name_once_it_is_known() {
    let spd = PlistDictionary::new()
        .with("fn", PlistValue::text("Ada"))
        .with("ln", PlistValue::text("Lovelace"));
    let mut account = with_spd(spd);
    account.login_state = LoginState::NeedsSMS2FAVerification(12);
    assert_eq!(
        account.to_string(),
        "Apple Account: Ada Lovelace user@example.com (NeedsSMS2FAVerification(12))"
    );
    assert_eq!(account.get_name().unwrap(), ("Ada".to_string(), "Lovelace".to_string()));
}

#[test]
fn every_state_has_its_name() {
    assert_eq!(LoginState::NeedsDevice2FA.debug_text(), "NeedsDevice2FA");
    assert_eq!(
        LoginState::NeedsDevice2FAVerification.debug_text(),
        format!("{:?}", LoginState::NeedsDevice2FAVerification)
    );
    assert_eq!(LoginState::NeedsSMS2FA(0).debug_text(), "NeedsSMS2FA(0)");
    assert_eq!(LoginState::NeedsSMS2FA(4294967295).debug_text(), "NeedsSMS2FA(4294967295)");
    assert_eq!(LoginState::NeedsUnknown2FA.debug_text(), "NeedsUnknown2FA");
    let step = LoginState::NeedsExtraStep("a\n\"b\"".to_string());
    assert_eq!(step.debug_text(), format!("{:?}", step));
    assert_eq!(step.clone().debug_text(), "NeedsExtraStep(\"a\\n\\\"b\\\"\")");
}

#[test]
fn name_needs_account_data() {
    let account = AppleAccount::new("user@example.com", false);
    let error = account.get_name().unwrap_err();
    assert!(matches!(error, AccountError::SpdUnavailable(SpdUse::Name)));
    assert_eq!(error.message(), "SPD not available, cannot get name");

    let account = with_spd(PlistDictionary::new().with("fn", PlistValue::text("Ada")));
    let error = account.get_name().unwrap_err();
    assert!(matches!(&error, AccountError::MissingEntry(EntryKind::Text, key) if key == "ln"));
    assert_eq!(error.message(), "No string in plist under ln");
}

#[test]
fn pet_is_read_from_the_tokens() {
    let account = AppleAccount::new("user@example.com", false);
    assert_eq!(
        account.get_pet().unwrap_err().message(),
        "SPD not available, cannot get pet"
    );
    let account = with_spd(PlistDictionary::new().with("t", PlistValue::text("no dictionary")));
    assert_eq!(account.get_pet().unwrap_err().message(), "No dictionary in plist under t");
    let token = PlistDictionary::new().with("token", PlistValue::text("pet"));
    let tokens =
        PlistDictionary::new().with("com.apple.gs.idms.pet", PlistValue::dictionary(token));
    let account = with_spd(PlistDictionary::new().with("t", PlistValue::dictionary(tokens)));
    assert_eq!(account.get_pet().unwrap(), "pet");
}

#[test]
fn numbers_are_selected_by_id() {
    let mut account = AppleAccount::new("user@example.com", false);
    assert!(matches!(account.select_number(0), Err(AccountError::NumberNotFound)));
    let mut second = TrustedNumber::default();
    second.id = 7;
    account.trusted_phone_numbers = Some(vec![TrustedNumber::default(), second]);
    assert!(matches!(account.select_number(0), Ok(LoginState::NeedsSMS2FA(0))));
    assert!(matches!(account.select_number(7), Ok(LoginState::NeedsSMS2FA(7))));
    assert!(matches!(account.select_number(1), Err(AccountError::NumberNotFound)));
}

#[test]
fn two_factor_headers_name_the_account() {
    let spd = PlistDictionary::new()
        .with("adsid", PlistValue::text("000123"))
        .with("GsIdmsToken", PlistValue::text("tok"));
    let headers = with_spd(spd).build_2fa_headers("17106176").unwrap();
    assert_eq!(
        headers,
        vec![
            ("X-Apple-Identity-Token".to_string(), "MDAwMTIzOnRvaw==".to_string()),
            ("X-Apple-I-MD-RINFO".to_string(), "17106176".to_string()),
        ]
    );
}

#[test]
fn two_factor_headers_need_their_parts() {
    let account = AppleAccount::new("user@example.com", false);
    assert_eq!(
        account.build_2fa_headers("1").unwrap_err().message(),
        "SPD data not available, cannot build 2FA headers"
    );
    let account = with_spd(PlistDictionary::new());
    assert_eq!(
        account.build_2fa_headers("1").unwrap_err().message(),
        "No string in plist under adsid"
    );
    let account = with_spd(PlistDictionary::new().with("adsid", PlistValue::text("1")));
    assert_eq!(
        account.build_2fa_headers("1").unwrap_err().message(),
        "No string in plist under GsIdmsToken"
    );
}

#[test]
fn control_characters_fit_no_header() {
    assert!(label_2fa_headers("id".to_string(), "a\tb \u{e9}").is_ok());
    for bad in ["a\nb", "\r", "\u{7f}", "\u{0}"] {
        let error = label_2fa_headers("id".to_string(), bad).unwrap_err();
        assert!(matches!(error, AccountError::InvalidHeaderValue));
        assert_eq!(error.message(), "failed to parse header value");
        assert!(label_2fa_headers(bad.to_string(), "1").is_err());
    }
}

#[test]
fn session_keys_are_keyed_codes() {
    let code = AppleAccount::create_session_key(b"Jefe", "what do ya want for nothing?");
    assert_eq!(
        hex::encode(code),
        "5bdcc146bf60754e6a042426089575c75a003f089d2739839dec58b964ec3843"
    );
}

#[test]
fn token_frames_are_split() {
    let mut data = b"XYZ".to_vec();
    data.extend(0..16u8);
    data.extend([9u8; 20]);
    let (nonce, sealed) = split_token(&data).unwrap();
    assert_eq!(nonce, (0..16u8).collect::<Vec<u8>>().as_slice());
    assert_eq!(sealed, &[9u8; 20]);
}

#[test]
fn malformed_token_frames_are_refused() {
    let error = split_token(&[0x58; 34]).unwrap_err();
    assert!(matches!(error, AccountError::TokenTooShort(34)));
    assert_eq!(error.message(), "Encrypted token is too short to be valid (only 34 bytes)");
    let mut data = vec![0u8; 35];
    data[0] = b'A';
    data[1] = b'B';
    data[2] = 0xff;
    let error = split_token(&data).unwrap_err();
    assert_eq!(error.message(), "Encrypted token is in an unknown format: AB\u{fffd}");
    assert!(matches!(error, AccountError::UnknownTokenFormat(header) if header == vec![b'A', b'B', 0xff]));
    let mut data = b"XYZ".to_vec();
    data.extend([0u8; 32]);
    assert!(split_token(&data).is_ok());
    let error = AppleAccount::decrypt_gcm(&data, &[0; 31]).unwrap_err();
    assert_eq!(error.message(), "Session key is not the correct length: 31 bytes");
    let error = AppleAccount::decrypt_gcm(&data, &[0; 32]).unwrap_err();
    assert_eq!(error.message(), "Failed to decrypt gcm: aead::Error");
}

#[test]
fn addresses_are_censored() {
    assert_eq!(censor_email("user@example.com", false), "u***r@example.com");
    assert_eq!(censor_email("ab@example.com", false), "a***@example.com");
    assert_eq!(censor_email("a@b@c", false), "a***@b@c");
    assert_eq!(censor_email("nobody", false), "***");
    assert_eq!(censor_email("", false), "***");
    assert_eq!(censor_email("user@example.com", true), "user@example.com");
    assert_eq!(censor_email("a\u{e9}b@x", false), "a***b@x");
}

#[test]
fn censored_addresses_hide_the_middle() {
    assert_eq!(
        censor_email("u12345r@example.com", false),
        censor_email("user@example.com", false)
    );
}

#[test]
fn some_addresses_cannot_be_censored() {
    assert!(can_censor("user@example.com"));
    assert!(can_censor("nobody"));
    assert!(can_censor("ab@x"));
    assert!(!can_censor("@example.com"));
    assert!(!can_censor("\u{e9}@x"));
    assert!(!can_censor("a\u{e9}@x"));
    assert!(can_censor("a\u{e9}b@x"));
    assert_eq!(censor_email("@x", true), "@x");
}
