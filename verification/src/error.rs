//! What can go wrong, and how it is said.

use crate::text;
use crate::text::{decimal_text, lossy_text, signed_decimal_text};
use crate::types;
use crate::types::{CauseModel, LoginState, LoginStateModel, SMSTwoFactorError, SideloadError,
    SmsErrorModel};
use vstd::prelude::*;
use vstd::string::*;

verus! {

/// What the account data was wanted for when it was missing.
#[derive(Debug, Clone, Copy)]
pub enum SpdUse {
    Name,
    Pet,
    Headers,
    AppToken,
}

/// The kind of property list entry that was wanted.
#[derive(Debug, Clone, Copy)]
pub enum EntryKind {
    Text,
    Data,
    Integer,
    Dictionary,
}

/// Which document was no property list.
#[derive(Debug, Clone, Copy)]
pub enum PlistSource {
    DeviceReply,
    Spd,
    AppToken,
}

/// Why a sign-in, a code request or a token request failed.
#[derive(Debug)]
pub enum AccountError {
    AttemptsExhausted(LoginState),
    NoCodeProvided,
    AdditionalAuthentication(String),
    CannotSubmitCode,
    CannotResendCode,
    NoMethodSelected,
    NumberNotFound,
    UnexpectedEvent,
    SpdUnavailable(SpdUse),
    MissingEntry(EntryKind, String),
    MalformedPlist(PlistSource),
    DeviceCodeRejected(Vec<SideloadError>),
    SmsSendRefused(SMSTwoFactorError),
    SmsSendStatus(u16, String),
    SmsCodeRefused(SMSTwoFactorError),
    SmsCodeStatus(u16, String),
    NumbersUnavailable(u16, String),
    InvalidHeaderValue,
    UnsupportedProtocol(String),
    IllegalServerKey,
    ServerProofMismatch,
    SpdDecryption,
    AppTokenStatus(i64),
    TokenTooShort(usize),
    UnknownTokenFormat(Vec<u8>),
    SessionKeyLength(usize),
    TokenDecryption,
}

/// An `AccountError` over the models of what it holds.
pub enum ErrorModel {
    AttemptsExhausted(LoginStateModel),
    NoCodeProvided,
    AdditionalAuthentication(Seq<char>),
    CannotSubmitCode,
    CannotResendCode,
    NoMethodSelected,
    NumberNotFound,
    UnexpectedEvent,
    SpdUnavailable(SpdUse),
    MissingEntry(EntryKind, Seq<char>),
    MalformedPlist(PlistSource),
    DeviceCodeRejected(Seq<CauseModel>),
    SmsSendRefused(SmsErrorModel),
    SmsSendStatus(u16, Seq<char>),
    SmsCodeRefused(SmsErrorModel),
    SmsCodeStatus(u16, Seq<char>),
    NumbersUnavailable(u16, Seq<char>),
    InvalidHeaderValue,
    UnsupportedProtocol(Seq<char>),
    IllegalServerKey,
    ServerProofMismatch,
    SpdDecryption,
    AppTokenStatus(i64),
    TokenTooShort(nat),
    UnknownTokenFormat(Seq<u8>),
    SessionKeyLength(nat),
    TokenDecryption,
}

impl View for AccountError {
    type V = ErrorModel;

    open spec fn view(&self) -> ErrorModel {
        match self {
            AccountError::AttemptsExhausted(state) => ErrorModel::AttemptsExhausted(state@),
            AccountError::NoCodeProvided => ErrorModel::NoCodeProvided,
            AccountError::AdditionalAuthentication(step) => ErrorModel::AdditionalAuthentication(
                step@,
            ),
            AccountError::CannotSubmitCode => ErrorModel::CannotSubmitCode,
            AccountError::CannotResendCode => ErrorModel::CannotResendCode,
            AccountError::NoMethodSelected => ErrorModel::NoMethodSelected,
            AccountError::NumberNotFound => ErrorModel::NumberNotFound,
            AccountError::UnexpectedEvent => ErrorModel::UnexpectedEvent,
            AccountError::SpdUnavailable(purpose) => ErrorModel::SpdUnavailable(*purpose),
            AccountError::MissingEntry(kind, key) => ErrorModel::MissingEntry(*kind, key@),
            AccountError::MalformedPlist(source) => ErrorModel::MalformedPlist(*source),
            AccountError::DeviceCodeRejected(causes) => ErrorModel::DeviceCodeRejected(
                types::cause_models(causes@),
            ),
            AccountError::SmsSendRefused(error) => ErrorModel::SmsSendRefused(error@),
            AccountError::SmsSendStatus(status, body) => ErrorModel::SmsSendStatus(*status, body@),
            AccountError::SmsCodeRefused(error) => ErrorModel::SmsCodeRefused(error@),
            AccountError::SmsCodeStatus(status, body) => ErrorModel::SmsCodeStatus(*status, body@),
            AccountError::NumbersUnavailable(status, body) => ErrorModel::NumbersUnavailable(
                *status,
                body@,
            ),
            AccountError::InvalidHeaderValue => ErrorModel::InvalidHeaderValue,
            AccountError::UnsupportedProtocol(name) => ErrorModel::UnsupportedProtocol(name@),
            AccountError::IllegalServerKey => ErrorModel::IllegalServerKey,
            AccountError::ServerProofMismatch => ErrorModel::ServerProofMismatch,
            AccountError::SpdDecryption => ErrorModel::SpdDecryption,
            AccountError::AppTokenStatus(status) => ErrorModel::AppTokenStatus(*status),
            AccountError::TokenTooShort(length) => ErrorModel::TokenTooShort(*length as nat),
            AccountError::UnknownTokenFormat(header) => ErrorModel::UnknownTokenFormat(header@),
            AccountError::SessionKeyLength(length) => ErrorModel::SessionKeyLength(*length as nat),
            AccountError::TokenDecryption => ErrorModel::TokenDecryption,
        }
    }
}

/// A result over the models of what it holds.
pub open spec fn outcome<T: View>(result: Result<T, AccountError>) -> Result<T::V, ErrorModel> {
    match result {
        Ok(value) => Ok(value@),
        Err(error) => Err(error@),
    }
}

/// An error of the text message service in one line: its title, a dash and its message.
pub open spec fn service_line(error: SmsErrorModel) -> Seq<char> {
    error.title + " - "@ + error.message
}

/// A code with a service line behind it.
pub open spec fn refusal_text(start: Seq<char>, error: SmsErrorModel) -> Seq<char> {
    start + error.code + "): "@ + service_line(error)
}

/// A start, a status and what the server sent.
pub open spec fn status_text(start: Seq<char>, status: u16, separator: Seq<char>, body: Seq<char>) -> Seq<
    char,
> {
    start + text::decimal(status as nat) + separator + body
}

/// The message of an error.
pub open spec fn error_text(error: ErrorModel) -> Seq<char> {
    match error {
        ErrorModel::AttemptsExhausted(state) =>
            "Couldn't login after 15 attempts, aborting (current state: "@ + types::state_text(
            state,
        ) + ")"@,
        ErrorModel::NoCodeProvided => "No 2FA code provided, aborting"@,
        ErrorModel::AdditionalAuthentication(step) => "Additional authentication required: "@
            + step,
        ErrorModel::CannotSubmitCode =>
            "Cannot submit code without knowing which method to use"@,
        ErrorModel::CannotResendCode =>
            "Cannot resend code without knowing which method to use"@,
        ErrorModel::NoMethodSelected => "No 2FA method selected, aborting"@,
        ErrorModel::NumberNotFound =>
            "Selected trusted number ID not found in trusted numbers"@,
        ErrorModel::UnexpectedEvent => "The reply does not answer the pending step"@,
        ErrorModel::SpdUnavailable(SpdUse::Name) => "SPD not available, cannot get name"@,
        ErrorModel::SpdUnavailable(SpdUse::Pet) => "SPD not available, cannot get pet"@,
        ErrorModel::SpdUnavailable(SpdUse::Headers) =>
            "SPD data not available, cannot build 2FA headers"@,
        ErrorModel::SpdUnavailable(SpdUse::AppToken) =>
            "SPD data not available, cannot get app token"@,
        ErrorModel::MissingEntry(EntryKind::Text, key) => "No string in plist under "@ + key,
        ErrorModel::MissingEntry(EntryKind::Data, key) => "No data in plist under "@ + key,
        ErrorModel::MissingEntry(EntryKind::Integer, key) => "No integer in plist under "@ + key,
        ErrorModel::MissingEntry(EntryKind::Dictionary, key) => "No dictionary in plist under "@
            + key,
        ErrorModel::MalformedPlist(PlistSource::DeviceReply) =>
            "Failed to parse trusted device response plist"@,
        ErrorModel::MalformedPlist(PlistSource::Spd) => "Failed to parse decrypted SPD plist"@,
        ErrorModel::MalformedPlist(PlistSource::AppToken) =>
            "Failed to parse decrypted app token plist"@,
        ErrorModel::DeviceCodeRejected(_) => "Trusted device 2FA rejected"@,
        ErrorModel::SmsSendRefused(error) => refusal_text(
            "SMS 2FA request failed (code "@,
            error,
        ),
        ErrorModel::SmsSendStatus(status, body) => status_text(
            "SMS 2FA request failed with http status "@,
            status,
            ": "@,
            body,
        ),
        ErrorModel::SmsCodeRefused(error) => refusal_text(
            "SMS 2FA code submission failed (code "@,
            error,
        ),
        ErrorModel::SmsCodeStatus(status, body) => status_text(
            "SMS 2FA code submission failed with http status "@,
            status,
            ": "@,
            body,
        ),
        ErrorModel::NumbersUnavailable(status, body) => status_text(
            "Failed to retrieve trusted phone numbers (status "@,
            status,
            "): "@,
            body,
        ),
        ErrorModel::InvalidHeaderValue => "failed to parse header value"@,
        ErrorModel::UnsupportedProtocol(name) => "Unsupported SRP protocol selected: "@ + name,
        ErrorModel::IllegalServerKey => "Failed to compute SRP proof"@,
        ErrorModel::ServerProofMismatch =>
            "Negotiation failed, server proof mismatch: bad_record_mac: incorrect 'server' proof"@,
        ErrorModel::SpdDecryption => "Failed to decrypt SPD from login response"@,
        ErrorModel::AppTokenStatus(status) => "App token request failed with status code "@
            + text::signed_decimal(status as int),
        ErrorModel::TokenTooShort(length) =>
            "Encrypted token is too short to be valid (only "@ + text::decimal(length)
            + " bytes)"@,
        ErrorModel::UnknownTokenFormat(header) => "Encrypted token is in an unknown format: "@
            + text::utf8_lossy(header),
        ErrorModel::SessionKeyLength(length) => "Session key is not the correct length: "@
            + text::decimal(length) + " bytes"@,
        ErrorModel::TokenDecryption => "Failed to decrypt gcm: aead::Error"@,
    }
}

impl SMSTwoFactorError {
    /// The error in one line.
    pub fn line(&self) -> (res: String)
        ensures
            res@ == service_line(self@),
    {
        self.title.clone().concat(" - ").concat(self.message.as_str())
    }
}

fn refusal(start: &str, error: &SMSTwoFactorError) -> (res: String)
    ensures
        res@ == refusal_text(start@, error@),
{
    let line = error.line();
    start.to_owned().concat(error.code.as_str()).concat("): ").concat(line.as_str())
}

fn status_line(start: &str, status: u16, separator: &str, body: &str) -> (res: String)
    ensures
        res@ == status_text(start@, status, separator@, body@),
{
    let number = decimal_text(status as u64);
    start.to_owned().concat(number.as_str()).concat(separator).concat(body)
}

impl AccountError {
    /// The message of the error.
    pub fn message(&self) -> (res: String)
        ensures
            res@ == error_text(self@),
    {
        match self {
            AccountError::AttemptsExhausted(state) => {
                let name = state.debug_text();
                "Couldn't login after 15 attempts, aborting (current state: ".to_owned().concat(
                    name.as_str(),
                ).concat(")")
            },
            AccountError::NoCodeProvided => "No 2FA code provided, aborting".to_owned(),
            AccountError::AdditionalAuthentication(step) =>
                "Additional authentication required: ".to_owned().concat(step.as_str()),
            AccountError::CannotSubmitCode =>
                "Cannot submit code without knowing which method to use".to_owned(),
            AccountError::CannotResendCode =>
                "Cannot resend code without knowing which method to use".to_owned(),
            AccountError::NoMethodSelected => "No 2FA method selected, aborting".to_owned(),
            AccountError::NumberNotFound =>
                "Selected trusted number ID not found in trusted numbers".to_owned(),
            AccountError::UnexpectedEvent =>
                "The reply does not answer the pending step".to_owned(),
            AccountError::SpdUnavailable(purpose) => match purpose {
                SpdUse::Name => "SPD not available, cannot get name".to_owned(),
                SpdUse::Pet => "SPD not available, cannot get pet".to_owned(),
                SpdUse::Headers => "SPD data not available, cannot build 2FA headers".to_owned(),
                SpdUse::AppToken => "SPD data not available, cannot get app token".to_owned(),
            },
            AccountError::MissingEntry(kind, key) => match kind {
                EntryKind::Text => "No string in plist under ".to_owned().concat(key.as_str()),
                EntryKind::Data => "No data in plist under ".to_owned().concat(key.as_str()),
                EntryKind::Integer => "No integer in plist under ".to_owned().concat(
                    key.as_str(),
                ),
                EntryKind::Dictionary => "No dictionary in plist under ".to_owned().concat(
                    key.as_str(),
                ),
            },
            AccountError::MalformedPlist(source) => match source {
                PlistSource::DeviceReply =>
                    "Failed to parse trusted device response plist".to_owned(),
                PlistSource::Spd => "Failed to parse decrypted SPD plist".to_owned(),
                PlistSource::AppToken => "Failed to parse decrypted app token plist".to_owned(),
            },
            AccountError::DeviceCodeRejected(_) => "Trusted device 2FA rejected".to_owned(),
            AccountError::SmsSendRefused(error) => refusal(
                "SMS 2FA request failed (code ",
                error,
            ),
            AccountError::SmsSendStatus(status, body) => status_line(
                "SMS 2FA request failed with http status ",
                *status,
                ": ",
                body.as_str(),
            ),
            AccountError::SmsCodeRefused(error) => refusal(
                "SMS 2FA code submission failed (code ",
                error,
            ),
            AccountError::SmsCodeStatus(status, body) => status_line(
                "SMS 2FA code submission failed with http status ",
                *status,
                ": ",
                body.as_str(),
            ),
            AccountError::NumbersUnavailable(status, body) => status_line(
                "Failed to retrieve trusted phone numbers (status ",
                *status,
                "): ",
                body.as_str(),
            ),
            AccountError::InvalidHeaderValue => "failed to parse header value".to_owned(),
            AccountError::UnsupportedProtocol(name) =>
                "Unsupported SRP protocol selected: ".to_owned().concat(name.as_str()),
            AccountError::IllegalServerKey => "Failed to compute SRP proof".to_owned(),
            AccountError::ServerProofMismatch =>
                "Negotiation failed, server proof mismatch: bad_record_mac: incorrect 'server' proof".to_owned(),
            AccountError::SpdDecryption => "Failed to decrypt SPD from login response".to_owned(),
            AccountError::AppTokenStatus(status) => {
                let number = signed_decimal_text(*status);
                "App token request failed with status code ".to_owned().concat(number.as_str())
            },
            AccountError::TokenTooShort(length) => {
                let number = decimal_text(*length as u64);
                "Encrypted token is too short to be valid (only ".to_owned().concat(
                    number.as_str(),
                ).concat(" bytes)")
            },
            AccountError::UnknownTokenFormat(header) => {
                let name = lossy_text(header.as_slice());
                "Encrypted token is in an unknown format: ".to_owned().concat(name.as_str())
            },
            AccountError::SessionKeyLength(length) => {
                let number = decimal_text(*length as u64);
                "Session key is not the correct length: ".to_owned().concat(
                    number.as_str(),
                ).concat(" bytes")
            },
            AccountError::TokenDecryption => "Failed to decrypt gcm: aead::Error".to_owned(),
        }
    }
}

} // verus!
