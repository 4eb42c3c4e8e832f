//! Codes by text message: what is sent to the service, and what its replies mean.

use crate::account;
use crate::account::AppleAccount;
use crate::error;
use crate::error::{AccountError, ErrorModel, PlistSource};
use crate::json_tree;
use crate::json_tree::{
    json_member, json_number, json_object, json_string, parse_json, read_json, write_json,
    JsonModel, JsonValue,
};
use crate::login;
use crate::plist_tree;
use crate::plist_tree::{parse_plist, EntriesModel, PlistDictionary};
use crate::text;
use crate::text::same_text;
use crate::types;
use crate::types::{
    SMSTwoFactorError, SmsChallengeResponse, SmsErrorModel, SmsOutcomeModel, SmsSendOutcome,
    TrustedNumber, TrustedNumberModel,
};
use vstd::prelude::*;
use vstd::utf8::*;

verus! {

/// A status that reports success.
pub open spec fn is_success(status: u16) -> bool {
    200 <= status < 300
}

/// The text of a member, or another text where there is none.
pub open spec fn text_or(value: JsonModel, key: Seq<char>, other: Seq<char>) -> Seq<char> {
    match value.member(key) {
        Some(JsonModel::String(text)) => text,
        _ => other,
    }
}

/// The first of the service errors in a document.
pub open spec fn service_error_in(document: JsonModel) -> Option<SmsErrorModel> {
    match document.member("serviceErrors"@) {
        Some(list) => match list.first() {
            Some(first) => Some(
                SmsErrorModel {
                    code: text_or(first, "code"@, "unknown"@),
                    title: text_or(first, "title"@, "No title provided"@),
                    message: text_or(first, "message"@, "No message provided"@),
                },
            ),
            None => None,
        },
        None => None,
    }
}

/// The first of the service errors in a text, where it is a JSON document.
pub open spec fn reported_error(text: Seq<char>) -> Option<SmsErrorModel> {
    match json_tree::parsed_json(text) {
        Some(document) => service_error_in(document),
        None => None,
    }
}

/// A challenge that still takes a code by text message: six digits, neither locked nor overused.
pub open spec fn is_open(challenge: SmsChallengeResponse) -> bool {
    &&& challenge.mode@ == "sms"@
    &&& challenge.challenge_type@ == "verification"@
    &&& challenge.authentication_type@ == "hsa2"@
    &&& challenge.trusted_phone_numbers@.len() > 0
    &&& challenge.security_code.length == 6
    &&& !challenge.security_code.too_many_codes_sent
    &&& !challenge.security_code.too_many_codes_validated
    &&& !challenge.security_code.security_code_locked
    &&& !challenge.security_code.security_code_cooldown
}

/// What a reply to a send request means, given the service error and the challenge that it holds.
pub open spec fn send_outcome(
    status: u16,
    text: Seq<char>,
    reported: Option<SmsErrorModel>,
    challenge: Option<SmsChallengeResponse>,
) -> Result<SmsOutcomeModel, ErrorModel> {
    if is_success(status) {
        Ok(SmsOutcomeModel::Sent)
    } else if reported is Some {
        Ok(SmsOutcomeModel::ServiceError(reported->0))
    } else if status == 412 && challenge is Some && is_open(challenge->0) {
        Ok(SmsOutcomeModel::ActiveChallenge(challenge->0.trusted_phone_number.id))
    } else {
        Err(ErrorModel::SmsSendStatus(status, text))
    }
}

/// What is sent to ask for a code by text message.
pub open spec fn send_body(id: u32) -> JsonModel {
    JsonModel::Object(
        json_tree::members(seq![("phoneNumber"@, phone_body(id)), ("mode"@, JsonModel::String("sms"@))]),
    )
}

/// What is sent to submit a code from a text message.
pub open spec fn code_body(code: Seq<char>, id: u32) -> JsonModel {
    JsonModel::Object(
        json_tree::members(
            seq![
                (
                    "securityCode"@,
                    JsonModel::Object(
                        json_tree::members(seq![("code"@, JsonModel::String(code))]),
                    ),
                ),
                ("phoneNumber"@, phone_body(id)),
                ("mode"@, JsonModel::String("sms"@)),
            ],
        ),
    )
}

/// How a request names a number.
pub open spec fn phone_body(id: u32) -> JsonModel {
    JsonModel::Object(
        json_tree::members(seq![("id"@, JsonModel::Number(text::decimal(id as nat)))]),
    )
}

/// The keys of the request bodies differ.
pub proof fn lemma_body_keys_differ()
    ensures
        "securityCode"@ != "phoneNumber"@,
        "securityCode"@ != "mode"@,
        "phoneNumber"@ != "mode"@,
{
    reveal_strlit("securityCode");
    reveal_strlit("phoneNumber");
    reveal_strlit("mode");
    assert("securityCode"@.len() != "phoneNumber"@.len());
    assert("securityCode"@.len() != "mode"@.len());
    assert("phoneNumber"@.len() != "mode"@.len());
}

fn make_phone_body(id: u32) -> (value: serde_json::Value)
    ensures
        json_tree::outside_json(value) == phone_body(id),
{
    let mut entries: Vec<(String, serde_json::Value)> = Vec::new();
    entries.push(("id".to_owned(), json_number(id)));
    assert(json_tree::outside_entry_models(entries@) =~= seq![
        ("id"@, JsonModel::Number(text::decimal(id as nat))),
    ]);
    json_object(entries)
}

/// The text that asks for a code by text message to number `id`.
pub fn sms_send_body(id: u32) -> (body: String)
    ensures
        body@ == json_tree::json_text(send_body(id)),
{
    let mut entries: Vec<(String, serde_json::Value)> = Vec::new();
    entries.push(("phoneNumber".to_owned(), make_phone_body(id)));
    entries.push(("mode".to_owned(), json_string("sms".to_owned())));
    assert(json_tree::outside_entry_models(entries@) =~= seq![
        ("phoneNumber"@, phone_body(id)),
        ("mode"@, JsonModel::String("sms"@)),
    ]);
    proof {
        lemma_body_keys_differ();
    }
    write_json(&json_object(entries))
}

/// The text that submits a code from a text message to number `id`.
pub fn sms_code_body(code: &str, id: u32) -> (body: String)
    ensures
        body@ == json_tree::json_text(code_body(code@, id)),
{
    let mut inner: Vec<(String, serde_json::Value)> = Vec::new();
    inner.push(("code".to_owned(), json_string(code.to_owned())));
    assert(json_tree::outside_entry_models(inner@) =~= seq![("code"@, JsonModel::String(code@))]);
    let mut entries: Vec<(String, serde_json::Value)> = Vec::new();
    entries.push(("securityCode".to_owned(), json_object(inner)));
    entries.push(("phoneNumber".to_owned(), make_phone_body(id)));
    entries.push(("mode".to_owned(), json_string("sms".to_owned())));
    assert(json_tree::outside_entry_models(entries@) =~= seq![
        (
            "securityCode"@,
            JsonModel::Object(json_tree::members(seq![("code"@, JsonModel::String(code@))])),
        ),
        ("phoneNumber"@, phone_body(id)),
        ("mode"@, JsonModel::String("sms"@)),
    ]);
    proof {
        lemma_body_keys_differ();
    }
    write_json(&json_object(entries))
}

fn member_text_or(value: &JsonValue, key: &str, other: &str) -> (res: String)
    ensures
        res@ == text_or(value@, key@, other@),
{
    match value.get(key) {
        Some(member) => match member.as_str() {
            Some(text) => text.to_owned(),
            None => other.to_owned(),
        },
        None => other.to_owned(),
    }
}

/// Reads the first of the service errors in a document.
pub fn read_service_error(document: &JsonValue) -> (error: Option<SMSTwoFactorError>)
    ensures
        login::optional_error(error) == service_error_in(document@),
{
    let first = document.get("serviceErrors")?.first()?;
    Some(
        SMSTwoFactorError {
            code: member_text_or(first, "code", "unknown"),
            title: member_text_or(first, "title", "No title provided"),
            message: member_text_or(first, "message", "No message provided"),
        },
    )
}

fn challenge_is_open(challenge: &SmsChallengeResponse) -> (res: bool)
    ensures
        res == is_open(*challenge),
{
    same_text(challenge.mode.as_str(), "sms") && same_text(
        challenge.challenge_type.as_str(),
        "verification",
    ) && same_text(challenge.authentication_type.as_str(), "hsa2")
        && challenge.trusted_phone_numbers.len() > 0 && challenge.security_code.length == 6
        && !challenge.security_code.too_many_codes_sent
        && !challenge.security_code.too_many_codes_validated
        && !challenge.security_code.security_code_locked
        && !challenge.security_code.security_code_cooldown
}

/// Weighs a reply to a send request by the service error and the challenge that it holds.
pub fn weigh_send_reply(
    status: u16,
    text: &str,
    reported: Option<SMSTwoFactorError>,
    challenge: Option<SmsChallengeResponse>,
) -> (outcome: Result<SmsSendOutcome, AccountError>)
    ensures
        error::outcome(outcome) == send_outcome(
            status,
            text@,
            login::optional_error(reported),
            challenge,
        ),
{
    if status >= 200 && status < 300 {
        return Ok(SmsSendOutcome::Sent);
    }
    if let Some(error) = reported {
        return Ok(SmsSendOutcome::ServiceError(error));
    }
    if let Some(challenge) = challenge {
        if status == 412 && challenge_is_open(&challenge) {
            return Ok(
                SmsSendOutcome::ActiveChallenge {
                    actual_number_id: challenge.trusted_phone_number.id,
                },
            );
        }
    }
    Err(AccountError::SmsSendStatus(status, text.to_owned()))
}

/// What a reply to a submitted code means: nothing is held against it, or the service error.
pub open spec fn code_verdict(status: u16, text: Seq<char>, reported: Option<SmsErrorModel>) -> Result<
    Option<SmsErrorModel>,
    ErrorModel,
> {
    if is_success(status) {
        Ok(None)
    } else if reported is Some {
        Ok(reported)
    } else {
        Err(ErrorModel::SmsCodeStatus(status, text))
    }
}

/// The parts of the reply on trusted numbers that may hold them, each as JSON text.
#[derive(Debug)]
pub struct NumberDocuments {
    pub listed: Option<String>,
    pub single: Option<String>,
}

/// The text of a member of the document in a text.
pub open spec fn member_document(text: Seq<char>, key: Seq<char>) -> Option<Seq<char>> {
    match json_tree::parsed_json(text) {
        Some(document) => match document.member(key) {
            Some(member) => Some(json_tree::json_text(member)),
            None => None,
        },
        None => None,
    }
}

/// Finds the parts of a reply that may hold the trusted numbers.
pub fn trusted_number_documents(text: &str) -> (documents: NumberDocuments)
    ensures
        types::optional_text(documents.listed) == member_document(text@, "trustedPhoneNumbers"@),
        types::optional_text(documents.single) == member_document(text@, "phoneNumber"@),
{
    match read_json(text) {
        Ok(document) => {
            let listed = match json_member(&document, "trustedPhoneNumbers") {
                Some(member) => Some(write_json(&member)),
                None => None,
            };
            let single = match json_member(&document, "phoneNumber") {
                Some(member) => Some(write_json(&member)),
                None => None,
            };
            NumberDocuments { listed, single }
        },
        Err(_) => NumberDocuments { listed: None, single: None },
    }
}

/// The trusted numbers of a reply: the list where it has one that is not empty, else the single
/// number.
pub open spec fn trusted_numbers(
    status: u16,
    text: Seq<char>,
    listed: Option<Seq<TrustedNumberModel>>,
    single: Option<TrustedNumberModel>,
) -> Result<Seq<TrustedNumberModel>, ErrorModel> {
    if listed is Some && listed->0.len() > 0 {
        Ok(listed->0)
    } else if single is Some {
        Ok(seq![single->0])
    } else {
        Err(ErrorModel::NumbersUnavailable(status, text))
    }
}

/// The model of an optional number.
pub open spec fn optional_number(number: Option<TrustedNumber>) -> Option<TrustedNumberModel> {
    match number {
        Some(number) => Some(number@),
        None => None,
    }
}

/// The property list in a reply from a trusted device check.
pub open spec fn device_reply(text: Seq<char>) -> Result<EntriesModel, ErrorModel> {
    match plist_tree::parsed_plist(encode_utf8(text)) {
        Some(reply) => Ok(reply),
        None => Err(ErrorModel::MalformedPlist(PlistSource::DeviceReply)),
    }
}

impl AppleAccount {
    /// The first of the service errors in a reply.
    pub fn parse_sms_service_error(text: &str) -> (error: Option<SMSTwoFactorError>)
        ensures
            login::optional_error(error) == reported_error(text@),
    {
        let document = parse_json(text)?;
        read_service_error(&document)
    }

    /// The first of the service errors in a reply that did not report success.
    pub fn parse_sms_error(text: String, status: u16) -> (error: Result<
        SMSTwoFactorError,
        AccountError,
    >)
        ensures
            match reported_error(text@) {
                Some(reported) => error is Ok && error->Ok_0@ == reported,
                None => error is Err && error->Err_0@ == ErrorModel::SmsCodeStatus(status, text@),
            },
    {
        match AppleAccount::parse_sms_service_error(text.as_str()) {
            Some(error) => Ok(error),
            None => Err(AccountError::SmsCodeStatus(status, text)),
        }
    }

    /// Classifies a reply to a send request, given the challenge that it holds, if it holds one.
    pub fn classify_sms_send_response(
        status: u16,
        text: &str,
        challenge: Option<SmsChallengeResponse>,
    ) -> (outcome: Result<SmsSendOutcome, AccountError>)
        ensures
            error::outcome(outcome) == send_outcome(
                status,
                text@,
                reported_error(text@),
                challenge,
            ),
    {
        let reported = AppleAccount::parse_sms_service_error(text);
        weigh_send_reply(status, text, reported, challenge)
    }

    /// Classifies a reply to a submitted code.
    pub fn classify_sms_code_response(status: u16, text: String) -> (verdict: Result<
        Option<SMSTwoFactorError>,
        AccountError,
    >)
        ensures
            match verdict {
                Ok(rejection) => code_verdict(status, text@, reported_error(text@)) == Ok::<
                    Option<SmsErrorModel>,
                    ErrorModel,
                >(login::optional_error(rejection)),
                Err(error) => code_verdict(status, text@, reported_error(text@)) == Err::<
                    Option<SmsErrorModel>,
                    ErrorModel,
                >(error@),
            },
    {
        if status >= 200 && status < 300 {
            return Ok(None);
        }
        let error = AppleAccount::parse_sms_error(text, status)?;
        Ok(Some(error))
    }

    /// Chooses the trusted numbers from what the parts of a reply hold.
    pub fn get_trusted_numbers(
        status: u16,
        text: &str,
        listed: Option<Vec<TrustedNumber>>,
        single: Option<TrustedNumber>,
    ) -> (numbers: Result<Vec<TrustedNumber>, AccountError>)
        ensures
            match numbers {
                Ok(numbers) => trusted_numbers(
                    status,
                    text@,
                    account::optional_numbers(listed),
                    optional_number(single),
                ) == Ok::<Seq<TrustedNumberModel>, ErrorModel>(types::number_models(numbers@)),
                Err(error) => trusted_numbers(
                    status,
                    text@,
                    account::optional_numbers(listed),
                    optional_number(single),
                ) == Err::<Seq<TrustedNumberModel>, ErrorModel>(error@),
            },
    {
        if let Some(numbers) = listed {
            if numbers.len() > 0 {
                return Ok(numbers);
            }
        }
        match single {
            Some(number) => {
                let ghost model = number@;
                let mut numbers: Vec<TrustedNumber> = Vec::new();
                numbers.push(number);
                assert(types::number_models(numbers@) =~= seq![model]);
                Ok(numbers)
            },
            None => Err(AccountError::NumbersUnavailable(status, text.to_owned())),
        }
    }

    /// Reads the reply to a code from a trusted device.
    pub fn parse_device_reply(text: &str) -> (reply: Result<PlistDictionary, AccountError>)
        ensures
            error::outcome(reply) == device_reply(text@),
    {
        match parse_plist(text.as_bytes()) {
            Some(reply) => Ok(reply),
            None => Err(AccountError::MalformedPlist(PlistSource::DeviceReply)),
        }
    }
}

} // verus!
