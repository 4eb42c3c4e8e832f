use apple_account::account::AppleAccount;
use apple_account::error::{AccountError, PlistSource};
use apple_account::exchange::{
    derive_password, make_init_request, prepare_digest, read_status, LoginChallenge,
    PendingExchange, Protocol,
};
use apple_account::plist_tree::{parse_plist, PlistDictionary, PlistValue};
use apple_account::types::LoginState;
use cbc::cipher::{BlockModeEncrypt, KeyIvInit};

type Client = srp::Client<srp::groups::G2048, sha2::Sha256>;
type Server = srp::Server<srp::groups::G2048, sha2::Sha256>;

const EMAIL: &str = "user@example.com";
const SALT: &[u8] = b"some salt";
const SERVER_SECRET: [u8; 32] = [7; 32];

fn cpd() -> PlistDictionary {
    PlistDictionary::new().with("loc", PlistValue::text("en_US"))
}

fn reply_with(server_public: Vec<u8>, protocol: &str) -> PlistDictionary {
    PlistDictionary::new()
        .with("s", PlistValue::Data(SALT.to_vec()))
        .with("B", PlistValue::Data(server_public))
        .with("i", PlistValue::Integer(20))
        .with("c", PlistValue::text("cookie"))
        .with("sp", PlistValue::text(protocol))
}

/// Runs an exchange up to the client's proof. Gives the account, the pending exchange, and the
/// server's proof and key.
fn run_exchange(protocol: &str) -> (AppleAccount, PendingExchange, Vec<u8>, Vec<u8>) {
    let account = AppleAccount::new(EMAIL, false);
    let (secret, request) = account.begin_exchange(cpd());
    let body = request.get_dict("Request").unwrap();
    assert_eq!(body.get_str("u").unwrap(), EMAIL);
    assert_eq!(body.get_str("o").unwrap(), "init");
    let client_public = body.get_data("A2k").unwrap().to_vec();

    let registration = LoginChallenge::parse(&reply_with(vec![1], protocol)).unwrap();
    let password = derive_password("secret password", &registration);
    let verifier =
        Client::new_with_options(false).compute_verifier(EMAIL.as_bytes(), &password, SALT);
    let server = Server::new();
    let server_public = server.compute_public_ephemeral(&SERVER_SECRET, &verifier);

    let challenge = LoginChallenge::parse(&reply_with(server_public, protocol)).unwrap();
    let (pending, request) =
        account.answer_challenge(secret, "secret password", challenge, cpd()).unwrap();
    let body = request.get_dict("Request").unwrap();
    assert_eq!(body.get_str("o").unwrap(), "complete");
    assert_eq!(body.get_str("c").unwrap(), "cookie");
    assert_eq!(body.get_str("u").unwrap(), EMAIL);
    assert_eq!(body.get_dict("cpd").unwrap().get_str("loc").unwrap(), "en_US");
    assert_eq!(request.get_dict("Header").unwrap().get_str("Version").unwrap(), "1.0.1");

    let session = server
        .process_reply(EMAIL.as_bytes(), SALT, &SERVER_SECRET, &verifier, &client_public)
        .unwrap();
    assert!(session.verify_client(body.get_data("M1").unwrap()).is_ok());
    assert_eq!(pending.key, session.key());
    (account, pending, session.proof().to_vec(), session.key().to_vec())
}

fn encrypt(key: &[u8], plaintext: &[u8]) -> Vec<u8> {
    let data_key = AppleAccount::create_session_key(key, "extra data key:");
    let data_iv = AppleAccount::create_session_key(key, "extra data iv:");
    cbc::Encryptor::<aes::Aes256>::new_from_slices(&data_key, &data_iv[..16])
        .unwrap()
        .encrypt_padded_vec::<aes::cipher::block_padding::Pkcs7>(plaintext)
}

fn spd_document() -> Vec<u8> {
    let mut spd = plist::Dictionary::new();
    spd.insert("fn".to_string(), plist::Value::String("Ada".to_string()));
    spd.insert("ln".to_string(), plist::Value::String("Lovelace".to_string()));
    let mut bytes: Vec<u8> = Vec::new();
    plist::Value::Dictionary(spd).to_writer_xml(&mut bytes).unwrap();
    bytes
}

fn status(au: &str) -> PlistValue {
    PlistValue::dictionary(PlistDictionary::new().with("au", PlistValue::text(au)))
}

#[test]
fn exchange_with_a_server_brings_the_account_data() {
    for protocol in ["s2k", "s2k_fo"] {
        let (mut account, pending, server_proof, key) = run_exchange(protocol);
        let reply = PlistDictionary::new()
            .with("M2", PlistValue::Data(server_proof))
            .with("spd", PlistValue::Data(encrypt(&key, &spd_document())))
            .with("Status", status("trustedDeviceSecondaryAuth"));
        let state = account.finish_exchange(&pending, &reply).unwrap();
        assert!(matches!(state, LoginState::NeedsDevice2FA));
        assert_eq!(account.get_name().unwrap(), ("Ada".to_string(), "Lovelace".to_string()));
        assert!(matches!(account.login_state, LoginState::NeedsLogin));
    }
}

#[test]
fn wrong_server_proof_changes_nothing() {
    let (mut account, pending, mut server_proof, key) = run_exchange("s2k");
    server_proof[0] ^= 1;
    let reply = PlistDictionary::new()
        .with("M2", PlistValue::Data(server_proof))
        .with("spd", PlistValue::Data(encrypt(&key, &spd_document())))
        .with("Status", status("repair"));
    let error = account.finish_exchange(&pending, &reply).unwrap_err();
    assert!(matches!(error, AccountError::ServerProofMismatch));
    assert_eq!(
        error.message(),
        "Negotiation failed, server proof mismatch: bad_record_mac: incorrect 'server' proof"
    );
    assert!(account.spd.is_none());
}

#[test]
fn each_missing_part_of_the_last_reply_is_named() {
    let (mut account, pending, server_proof, key) = run_exchange("s2k");
    let reply = PlistDictionary::new();
    assert_eq!(
        account.finish_exchange(&pending, &reply).unwrap_err().message(),
        "No data in plist under M2"
    );
    let reply = PlistDictionary::new().with("M2", PlistValue::Data(server_proof.clone()));
    assert_eq!(
        account.finish_exchange(&pending, &reply).unwrap_err().message(),
        "No data in plist under spd"
    );
    let reply = PlistDictionary::new()
        .with("M2", PlistValue::Data(server_proof.clone()))
        .with("spd", PlistValue::Data(vec![1, 2, 3]));
    let error = account.finish_exchange(&pending, &reply).unwrap_err();
    assert!(matches!(error, AccountError::SpdDecryption));
    assert_eq!(error.message(), "Failed to decrypt SPD from login response");
    let reply = PlistDictionary::new()
        .with("M2", PlistValue::Data(server_proof.clone()))
        .with("spd", PlistValue::Data(encrypt(&key, b"no property list")));
    let error = account.finish_exchange(&pending, &reply).unwrap_err();
    assert!(matches!(error, AccountError::MalformedPlist(PlistSource::Spd)));
    assert_eq!(error.message(), "Failed to parse decrypted SPD plist");
    assert!(account.spd.is_none());
    let reply = PlistDictionary::new()
        .with("M2", PlistValue::Data(server_proof))
        .with("spd", PlistValue::Data(encrypt(&key, &spd_document())));
    assert_eq!(
        account.finish_exchange(&pending, &reply).unwrap_err().message(),
        "No dictionary in plist under Status"
    );
    assert!(account.spd.is_some());
}

#[test]
fn status_tells_the_next_state() {
    let state = |au: &str| read_status(&PlistDictionary::new().with("au", PlistValue::text(au)));
    assert!(matches!(state("trustedDeviceSecondaryAuth"), LoginState::NeedsDevice2FA));
    assert!(matches!(state("secondaryAuth"), LoginState::NeedsSMS2FA(1)));
    assert!(matches!(state("repair"), LoginState::LoggedIn));
    assert!(matches!(state("other"), LoginState::NeedsExtraStep(step) if step == "other"));
    assert!(matches!(read_status(&PlistDictionary::new()), LoginState::LoggedIn));
    let number = PlistDictionary::new().with("au", PlistValue::Integer(3));
    assert!(matches!(read_status(&number), LoginState::LoggedIn));
}

#[test]
fn opening_request_offers_what_is_taken() {
    let request = make_init_request(EMAIL, vec![1, 2], cpd());
    let keys: Vec<&str> = request.entries.iter().map(|entry| entry.0.as_str()).collect();
    assert_eq!(keys, vec!["Header", "Request"]);
    let body = request.get_dict("Request").unwrap();
    let keys: Vec<&str> = body.entries.iter().map(|entry| entry.0.as_str()).collect();
    assert_eq!(keys, vec!["A2k", "cpd", "o", "ps", "u"]);
    assert_eq!(body.get_data("A2k").unwrap(), &[1, 2]);
    let offered = match body.get("ps") {
        Some(PlistValue::Array(items)) => items,
        other => panic!("unexpected {:?}", other),
    };
    assert_eq!(offered.len(), 2);
    for item in offered {
        match item {
            PlistValue::String(name) => {
                assert!(LoginChallenge::parse(&reply_with(vec![1], name)).is_ok());
            }
            other => panic!("unexpected {:?}", other),
        }
    }
}

#[test]
fn challenge_is_read_from_the_reply() {
    let challenge = LoginChallenge::parse(&reply_with(vec![5], "s2k_fo")).unwrap();
    assert_eq!(challenge.salt, SALT);
    assert_eq!(challenge.server_public, vec![5]);
    assert_eq!(challenge.iterations, 20);
    assert_eq!(challenge.cookie, "cookie");
    assert_eq!(challenge.protocol, Protocol::S2kFo);
}

#[test]
fn incomplete_challenges_are_refused_in_order() {
    let full = ["s", "B", "i", "c", "sp"];
    for missing in 0..5 {
        let mut reply = reply_with(vec![5], "s2k");
        reply.entries.retain(|entry| entry.0 != full[missing]);
        let message = LoginChallenge::parse(&reply).unwrap_err().message();
        let kind = ["data", "data", "integer", "string", "string"][missing];
        assert_eq!(message, format!("No {} in plist under {}", kind, full[missing]));
    }
    let message = LoginChallenge::parse(&PlistDictionary::new()).unwrap_err().message();
    assert_eq!(message, "No data in plist under s");
}

#[test]
fn unknown_protocols_are_refused() {
    let error = LoginChallenge::parse(&reply_with(vec![5], "s2k_xx")).unwrap_err();
    assert!(matches!(&error, AccountError::UnsupportedProtocol(name) if name == "s2k_xx"));
    assert_eq!(error.message(), "Unsupported SRP protocol selected: s2k_xx");
}

#[test]
fn illegal_server_values_are_refused() {
    let account = AppleAccount::new(EMAIL, false);
    let empty = LoginChallenge::parse(&reply_with(vec![], "s2k")).unwrap();
    assert!(account.answer_challenge([3; 32], "password", empty, cpd()).is_err());
    let challenge = LoginChallenge::parse(&reply_with(vec![0; 256], "s2k")).unwrap();
    let error = account.answer_challenge([3; 32], "password", challenge, cpd()).unwrap_err();
    assert!(matches!(error, AccountError::IllegalServerKey));
    assert_eq!(error.message(), "Failed to compute SRP proof");
}

#[test]
fn passwords_are_derived_by_protocol() {
    let challenge = |protocol: Protocol, iterations: i64| LoginChallenge {
        salt: b"salt".to_vec(),
        server_public: vec![1],
        iterations,
        cookie: String::new(),
        protocol,
    };
    assert_eq!(
        hex::encode(derive_password("password", &challenge(Protocol::S2k, 1000))),
        "bcf2419af19758a976f4908f0cb534e4b572b9f9b54c2206184052d7b6e878b6"
    );
    assert_eq!(
        hex::encode(derive_password("password", &challenge(Protocol::S2kFo, 1000))),
        "66f7693a7310205a00b3d0634242209a2d4c687187a13e284d295f1c489ee3bf"
    );
    assert_eq!(
        derive_password("password", &challenge(Protocol::S2k, 4294967296 + 1000)),
        derive_password("password", &challenge(Protocol::S2k, 1000))
    );
}

#[test]
fn digests_enter_as_bytes_or_as_text() {
    assert_eq!(prepare_digest(vec![0x0a, 0xff], Protocol::S2k), vec![0x0a, 0xff]);
    assert_eq!(prepare_digest(vec![0x0a, 0xff], Protocol::S2kFo), b"0aff".to_vec());
}

#[test]
fn account_data_is_decrypted() {
    let key = [9u8; 32];
    let sealed = encrypt(&key, b"plain text of any length");
    assert_eq!(AppleAccount::decrypt_cbc(&key, &sealed).unwrap(), b"plain text of any length");
    assert!(AppleAccount::decrypt_cbc(&key, &sealed[..sealed.len() - 1]).is_err());
    assert!(AppleAccount::decrypt_cbc(&key, &[]).is_err());
}

#[test]
fn property_lists_are_read() {
    let document = br#"<?xml version="1.0" encoding="UTF-8"?>
<plist version="1.0"><dict>
<key>a</key><string>text</string>
<key>b</key><integer>-5</integer>
<key>c</key><data>AQI=</data>
<key>d</key><array><string>x</string><true/></array>
<key>e</key><dict><key>f</key><integer>18446744073709551615</integer></dict>
</dict></plist>"#;
    let list = parse_plist(document).unwrap();
    assert_eq!(list.get_str("a").unwrap(), "text");
    assert_eq!(list.get_signed_integer("b").unwrap(), -5);
    assert_eq!(list.get_data("c").unwrap(), &[1, 2]);
    match list.get("d") {
        Some(PlistValue::Array(items)) => {
            assert!(matches!(&items[0], PlistValue::String(text) if text == "x"));
            assert!(matches!(&items[1], PlistValue::Opaque(plist::Value::Boolean(true))));
        }
        other => panic!("unexpected {:?}", other),
    }
    assert!(list.get_dict("e").unwrap().get_signed_integer("f").is_err());
    assert!(list.get("g").is_none());
    assert!(parse_plist(b"nothing of the kind").is_none());
    assert!(parse_plist(b"<plist version=\"1.0\"><string>x</string></plist>").is_none());
}

#[test]
fn account_data_of_every_length_is_read() {
    let key = [9u8; 32];
    for length in 0..40usize {
        let message: Vec<u8> = (0..length).map(|i| (i as u8) ^ 16).collect();
        let sealed = encrypt(&key, &message);
        assert_eq!(sealed.len() - length, 16 - length % 16);
        assert_eq!(AppleAccount::decrypt_cbc(&key, &sealed).unwrap(), message);
    }
}

#[test]
fn wrong_padding_is_refused() {
    let key = [9u8; 32];
    let data_key = AppleAccount::create_session_key(&key, "extra data key:");
    let data_iv = AppleAccount::create_session_key(&key, "extra data iv:");
    for (last, before) in [(0u8, 0u8), (17, 17), (2, 1), (255, 255)] {
        let mut block = [before; 16];
        block[15] = last;
        let sealed = cbc::Encryptor::<aes::Aes256>::new_from_slices(&data_key, &data_iv[..16])
            .unwrap()
            .encrypt_padded_vec::<aes::cipher::block_padding::NoPadding>(&block);
        assert_eq!(sealed.len(), 16);
        assert!(matches!(
            AppleAccount::decrypt_cbc(&key, &sealed),
            Err(AccountError::SpdDecryption)
        ));
    }
}
