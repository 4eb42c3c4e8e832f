use apple_account::account::AppleAccount;
use apple_account::error::{AccountError, PlistSource};
use apple_account::json_tree::parse_json;
use apple_account::sms::{
    read_service_error, sms_code_body, sms_send_body, trusted_number_documents, weigh_send_reply,
};
use apple_account::types::{
    SmsChallengeResponse, SmsSecurityCode, SmsSendOutcome, TrustedNumber,
};

fn number(id: u32) -> TrustedNumber {
    let mut number = TrustedNumber::default();
    number.id = id;
    number
}

fn challenge() -> SmsChallengeResponse {
    SmsChallengeResponse {
        mode: "sms".to_string(),
        challenge_type: "verification".to_string(),
        authentication_type: "hsa2".to_string(),
        trusted_phone_numbers: vec![number(4)],
        trusted_phone_number: number(4),
        security_code: SmsSecurityCode {
            length: 6,
            too_many_codes_sent: false,
            too_many_codes_validated: false,
            security_code_locked: false,
            security_code_cooldown: false,
        },
        no_trusted_devices: false,
    }
}

const ERRORS: &str = r#"{"serviceErrors":[{"code":"-28248","title":"T","message":"M"},{"code":"2"}]}"#;

#[test]
fn success_means_sent_whatever_the_body() {
    for status in [200, 204, 299] {
        let outcome =
            AppleAccount::classify_sms_send_response(status, ERRORS, Some(challenge())).unwrap();
        assert!(matches!(outcome, SmsSendOutcome::Sent));
    }
    assert!(AppleAccount::classify_sms_send_response(199, "", None).is_err());
    assert!(AppleAccount::classify_sms_send_response(300, "", None).is_err());
}

#[test]
fn service_error_comes_before_the_challenge() {
    let outcome =
        AppleAccount::classify_sms_send_response(412, ERRORS, Some(challenge())).unwrap();
    match outcome {
        SmsSendOutcome::ServiceError(error) => {
            assert_eq!(error.code, "-28248");
            assert_eq!(error.line(), "T - M");
        }
        other => panic!("unexpected {:?}", other),
    }
}

#[test]
fn open_challenge_counts_as_active() {
    let outcome = weigh_send_reply(412, "{}", None, Some(challenge())).unwrap();
    assert!(matches!(outcome, SmsSendOutcome::ActiveChallenge { actual_number_id: 4 }));
    assert!(weigh_send_reply(423, "{}", None, Some(challenge())).is_err());
    assert!(weigh_send_reply(412, "{}", None, None).is_err());
}

#[test]
fn closed_challenges_are_errors() {
    let mut closed = vec![challenge(); 9];
    closed[0].mode = "voice".to_string();
    closed[1].challenge_type = "other".to_string();
    closed[2].authentication_type = "sa".to_string();
    closed[3].trusted_phone_numbers = vec![];
    closed[4].security_code.length = 4;
    closed[5].security_code.too_many_codes_sent = true;
    closed[6].security_code.too_many_codes_validated = true;
    closed[7].security_code.security_code_locked = true;
    closed[8].security_code.security_code_cooldown = true;
    for challenge in closed {
        let error = AppleAccount::classify_sms_send_response(412, "body", Some(challenge))
            .unwrap_err();
        assert!(matches!(&error, AccountError::SmsSendStatus(412, text) if text == "body"));
        assert_eq!(error.message(), "SMS 2FA request failed with http status 412: body");
    }
}

#[test]
fn first_service_error_counts() {
    let error = AppleAccount::parse_sms_service_error(ERRORS).unwrap();
    assert_eq!(error.code, "-28248");
    assert_eq!(error.title, "T");
    assert_eq!(error.message, "M");
}

#[test]
fn missing_parts_of_a_service_error_have_defaults() {
    let error =
        AppleAccount::parse_sms_service_error(r#"{"serviceErrors":[{"code":7}]}"#).unwrap();
    assert_eq!(error.code, "unknown");
    assert_eq!(error.title, "No title provided");
    assert_eq!(error.message, "No message provided");
    let error = AppleAccount::parse_sms_service_error(r#"{"serviceErrors":["x"]}"#).unwrap();
    assert_eq!(error.code, "unknown");
}

#[test]
fn other_documents_hold_no_service_error() {
    for text in [
        "",
        "no json",
        "[]",
        "{}",
        r#"{"serviceErrors":[]}"#,
        r#"{"serviceErrors":{"code":"1"}}"#,
        r#"{"serviceErrors":null}"#,
    ] {
        assert!(AppleAccount::parse_sms_service_error(text).is_none());
    }
    let document = parse_json(ERRORS).unwrap();
    assert!(read_service_error(&document).is_some());
}

#[test]
fn rejected_codes_carry_their_error_or_status() {
    let error = AppleAccount::parse_sms_error(ERRORS.to_string(), 400).unwrap();
    assert_eq!(error.code, "-28248");
    let error = AppleAccount::parse_sms_error("oops".to_string(), 500).unwrap_err();
    assert_eq!(
        error.message(),
        "SMS 2FA code submission failed with http status 500: oops"
    );
    let verdict = AppleAccount::classify_sms_code_response(200, ERRORS.to_string()).unwrap();
    assert!(verdict.is_none());
    let verdict = AppleAccount::classify_sms_code_response(400, ERRORS.to_string()).unwrap();
    assert_eq!(verdict.unwrap().title, "T");
    let error = AppleAccount::classify_sms_code_response(500, "oops".to_string()).unwrap_err();
    assert!(matches!(error, AccountError::SmsCodeStatus(500, _)));
}

#[test]
fn request_bodies_are_json() {
    assert_eq!(sms_send_body(7), r#"{"mode":"sms","phoneNumber":{"id":7}}"#);
    assert_eq!(
        sms_code_body("12\"34", 4294967295),
        r#"{"mode":"sms","phoneNumber":{"id":4294967295},"securityCode":{"code":"12\"34"}}"#
    );
}

#[test]
fn number_documents_are_found() {
    let documents = trusted_number_documents(
        r#"{"trustedPhoneNumbers": [ {"id": 1} ], "phoneNumber": {"id": 2.50}}"#,
    );
    assert_eq!(documents.listed.as_deref(), Some(r#"[{"id":1}]"#));
    assert_eq!(documents.single.as_deref(), Some(r#"{"id":2.5}"#));
    let documents = trusted_number_documents("{}");
    assert!(documents.listed.is_none());
    assert!(documents.single.is_none());
    let documents = trusted_number_documents("no json");
    assert!(documents.listed.is_none());
}

#[test]
fn listed_numbers_come_before_the_single_one() {
    let listed = Some(vec![number(1), number(2)]);
    let numbers = AppleAccount::get_trusted_numbers(200, "", listed, Some(number(3))).unwrap();
    assert_eq!(numbers.len(), 2);
    let numbers =
        AppleAccount::get_trusted_numbers(200, "", Some(vec![]), Some(number(3))).unwrap();
    assert_eq!(numbers.len(), 1);
    assert_eq!(numbers[0].id, 3);
    let numbers = AppleAccount::get_trusted_numbers(423, "", None, Some(number(5))).unwrap();
    assert_eq!(numbers[0].id, 5);
}

#[test]
fn no_numbers_are_an_error() {
    let error = AppleAccount::get_trusted_numbers(401, "denied", Some(vec![]), None).unwrap_err();
    assert!(matches!(&error, AccountError::NumbersUnavailable(401, text) if text == "denied"));
    assert_eq!(error.message(), "Failed to retrieve trusted phone numbers (status 401): denied");
}

#[test]
fn device_replies_are_property_lists() {
    let reply = AppleAccount::parse_device_reply(
        "<plist version=\"1.0\"><dict><key>ec</key><integer>0</integer></dict></plist>",
    )
    .unwrap();
    assert_eq!(reply.get_signed_integer("ec").unwrap(), 0);
    let error = AppleAccount::parse_device_reply("<html>").unwrap_err();
    assert!(matches!(error, AccountError::MalformedPlist(PlistSource::DeviceReply)));
    assert_eq!(error.message(), "Failed to parse trusted device response plist");
}
