use aes_gcm::{AeadInOut, KeyInit};
use apple_account::account::AppleAccount;
use apple_account::error::{AccountError, PlistSource};
use apple_account::plist_tree::{PlistDictionary, PlistValue};
use apple_account::token::{make_token_request, qualify, read_app_token, Credentials};

const KEY: [u8; 32] = [b'k'; 32];

fn account() -> AppleAccount {
    let mut account = AppleAccount::new("user@example.com", false);
    account.spd = Some(
        PlistDictionary::new()
            .with("adsid", PlistValue::text("000123"))
            .with("GsIdmsToken", PlistValue::text("tok"))
            .with("sk", PlistValue::Data(KEY.to_vec()))
            .with("c", PlistValue::Data(vec![1, 2, 3])),
    );
    account
}

fn cpd() -> PlistDictionary {
    PlistDictionary::new().with("loc", PlistValue::text("en_US"))
}

fn seal(plaintext: &[u8]) -> Vec<u8> {
    type Cipher = aes_gcm::AesGcm<aes::Aes256, aes::cipher::consts::U16>;
    let nonce = [5u8; 16];
    let cipher = Cipher::new(&aes_gcm::Key::<Cipher>::try_from(&KEY[..]).unwrap());
    let mut buffer = plaintext.to_vec();
    cipher
        .encrypt_in_place(
            &aes_gcm::Nonce::<aes::cipher::consts::U16>::try_from(&nonce[..]).unwrap(),
            b"XYZ",
            &mut buffer,
        )
        .unwrap();
    let mut frame = b"XYZ".to_vec();
    frame.extend(nonce);
    frame.extend(buffer);
    frame
}

fn document(status: i64, app: &str) -> plist::Dictionary {
    let mut entry = plist::Dictionary::new();
    entry.insert("token".to_string(), plist::Value::String("the token".to_string()));
    entry.insert("duration".to_string(), plist::Value::Integer(31536000.into()));
    entry.insert("expiry".to_string(), plist::Value::Integer((-1).into()));
    let mut tokens = plist::Dictionary::new();
    tokens.insert(app.to_string(), plist::Value::Dictionary(entry));
    let mut document = plist::Dictionary::new();
    document.insert("status-code".to_string(), plist::Value::Integer(status.into()));
    document.insert("t".to_string(), plist::Value::Dictionary(tokens));
    document
}

fn reply(document: plist::Dictionary) -> PlistDictionary {
    let mut bytes: Vec<u8> = Vec::new();
    plist::Value::Dictionary(document).to_writer_xml(&mut bytes).unwrap();
    PlistDictionary::new().with("et", PlistValue::Data(seal(&bytes)))
}

#[test]
fn application_names_are_completed() {
    assert_eq!(qualify("xcode.auth"), "com.apple.gs.xcode.auth");
    assert_eq!(qualify("com.apple.gs.xcode.auth"), "com.apple.gs.xcode.auth");
    assert_eq!(qualify("x.com.apple.gs.y"), "x.com.apple.gs.y");
    assert_eq!(qualify(""), "com.apple.gs.");
    assert_eq!(qualify(&qualify("com.apple.gs")), "com.apple.gs.com.apple.gs");
}

#[test]
fn token_request_shows_the_credentials() {
    let request = account().app_token_request("xcode.auth", cpd()).unwrap();
    assert_eq!(request.get_dict("Header").unwrap().get_str("Version").unwrap(), "1.0.1");
    let body = request.get_dict("Request").unwrap();
    let keys: Vec<&str> = body.entries.iter().map(|entry| entry.0.as_str()).collect();
    assert_eq!(keys, vec!["app", "c", "checksum", "cpd", "o", "u", "t"]);
    match body.get("app") {
        Some(PlistValue::Array(items)) => {
            assert_eq!(items.len(), 1);
            assert!(
                matches!(&items[0], PlistValue::String(name) if name == "com.apple.gs.xcode.auth")
            );
        }
        other => panic!("unexpected {:?}", other),
    }
    assert_eq!(body.get_data("c").unwrap(), &[1, 2, 3]);
    assert_eq!(
        hex::encode(body.get_data("checksum").unwrap()),
        "b24caa8d60949bdb955d78de3979cafd0181934e0480e55d484a418549b9f964"
    );
    assert_eq!(body.get_dict("cpd").unwrap().get_str("loc").unwrap(), "en_US");
    assert_eq!(body.get_str("o").unwrap(), "apptokens");
    assert_eq!(body.get_str("u").unwrap(), "000123");
    assert_eq!(body.get_str("t").unwrap(), "tok");
}

#[test]
fn token_request_carries_the_checksum() {
    let credentials = Credentials {
        adsid: "1".to_string(),
        auth_token: "2".to_string(),
        session_key: vec![],
        cookie: vec![],
    };
    let request = make_token_request(&credentials, "app", vec![8, 9], cpd());
    let body = request.get_dict("Request").unwrap();
    assert_eq!(body.get_data("checksum").unwrap(), &[8, 9]);
}

#[test]
fn token_request_needs_credentials() {
    let account = AppleAccount::new("user@example.com", false);
    assert_eq!(
        account.app_token_request("x", cpd()).unwrap_err().message(),
        "SPD data not available, cannot get app token"
    );
    let names = ["adsid", "GsIdmsToken", "sk", "c"];
    let kinds = ["string", "string", "data", "data"];
    for missing in 0..4 {
        let mut account = self::account();
        account.spd.as_mut().unwrap().entries.remove(missing);
        let message = account.app_token_request("x", cpd()).unwrap_err().message();
        assert_eq!(message, format!("No {} in plist under {}", kinds[missing], names[missing]));
        assert!(account.get_app_token("x", &PlistDictionary::new()).is_err());
    }
}

#[test]
fn token_is_read_from_the_reply() {
    let reply = reply(document(200, "com.apple.gs.xcode.auth"));
    let token = account().get_app_token("xcode.auth", &reply).unwrap();
    assert_eq!(token.token, "the token");
    assert_eq!(token.duration, 31536000);
    assert_eq!(token.expiry, 18446744073709551615);
    assert_eq!(token.clone().token, "the token");
}

#[test]
fn token_needs_success() {
    let reply = reply(document(401, "com.apple.gs.x"));
    let error = account().get_app_token("x", &reply).unwrap_err();
    assert!(matches!(error, AccountError::AppTokenStatus(401)));
    assert_eq!(error.message(), "App token request failed with status code 401");
    let list = PlistDictionary::new().with("status-code", PlistValue::Integer(i64::MIN));
    assert_eq!(
        read_app_token(&list, "x").unwrap_err().message(),
        "App token request failed with status code -9223372036854775808"
    );
}

#[test]
fn token_must_be_for_the_application() {
    let reply = reply(document(200, "com.apple.gs.y"));
    assert_eq!(
        account().get_app_token("x", &reply).unwrap_err().message(),
        "No dictionary in plist under com.apple.gs.x"
    );
}

#[test]
fn incomplete_tokens_are_refused() {
    let names = ["token", "duration", "expiry"];
    let kinds = ["string", "integer", "integer"];
    for missing in 0..3 {
        let mut entry = PlistDictionary::new()
            .with("token", PlistValue::text("t"))
            .with("duration", PlistValue::Integer(1))
            .with("expiry", PlistValue::Integer(2));
        entry.entries.remove(missing);
        let tokens = PlistDictionary::new().with("x", PlistValue::dictionary(entry));
        let list = PlistDictionary::new()
            .with("status-code", PlistValue::Integer(200))
            .with("t", PlistValue::dictionary(tokens));
        let message = read_app_token(&list, "x").unwrap_err().message();
        assert_eq!(message, format!("No {} in plist under {}", kinds[missing], names[missing]));
    }
}

#[test]
fn replies_must_hold_a_sealed_document() {
    assert_eq!(
        account().get_app_token("x", &PlistDictionary::new()).unwrap_err().message(),
        "No data in plist under et"
    );
    let reply = PlistDictionary::new().with("et", PlistValue::Data(seal(b"no list")));
    let error = account().get_app_token("x", &reply).unwrap_err();
    assert!(matches!(error, AccountError::MalformedPlist(PlistSource::AppToken)));
    assert_eq!(error.message(), "Failed to parse decrypted app token plist");
}

#[test]
fn sealed_tokens_are_decrypted() {
    let frame = seal(b"plain text");
    assert_eq!(AppleAccount::decrypt_gcm(&frame, &KEY).unwrap(), b"plain text");
    let mut broken = frame.clone();
    let last = broken.len() - 1;
    broken[last] ^= 1;
    assert!(matches!(
        AppleAccount::decrypt_gcm(&broken, &KEY),
        Err(AccountError::TokenDecryption)
    ));
}

#[test]
fn changed_headers_and_tags_are_refused() {
    let frame = seal(b"plain text");
    assert_eq!(frame.len(), 35 + 10);
    for position in (0..3).chain(frame.len() - 16..frame.len()) {
        let mut changed = frame.clone();
        changed[position] ^= 0x40;
        assert!(AppleAccount::decrypt_gcm(&changed, &KEY).is_err());
    }
    assert_eq!(AppleAccount::decrypt_gcm(&seal(b""), &KEY).unwrap(), b"");
}
