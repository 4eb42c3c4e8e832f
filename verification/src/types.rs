//! The values that a sign-in passes around.

use crate::text;
use crate::text::{decimal_text, quoted};
use vstd::prelude::*;
use vstd::string::*;

verus! {

/// How far a sign-in has come.
#[derive(Debug)]
pub enum LoginState {
    LoggedIn,
    NeedsDevice2FA,
    NeedsDevice2FAVerification,
    NeedsSMS2FA(u32),
    NeedsSMS2FAVerification(u32),
    NeedsUnknown2FA,
    NeedsExtraStep(String),
    NeedsLogin,
}

/// A `LoginState` with its text as a sequence of characters.
pub enum LoginStateModel {
    LoggedIn,
    NeedsDevice2FA,
    NeedsDevice2FAVerification,
    NeedsSMS2FA(u32),
    NeedsSMS2FAVerification(u32),
    NeedsUnknown2FA,
    NeedsExtraStep(Seq<char>),
    NeedsLogin,
}

impl View for LoginState {
    type V = LoginStateModel;

    open spec fn view(&self) -> LoginStateModel {
        match self {
            LoginState::LoggedIn => LoginStateModel::LoggedIn,
            LoginState::NeedsDevice2FA => LoginStateModel::NeedsDevice2FA,
            LoginState::NeedsDevice2FAVerification => LoginStateModel::NeedsDevice2FAVerification,
            LoginState::NeedsSMS2FA(id) => LoginStateModel::NeedsSMS2FA(*id),
            LoginState::NeedsSMS2FAVerification(id) => LoginStateModel::NeedsSMS2FAVerification(
                *id,
            ),
            LoginState::NeedsUnknown2FA => LoginStateModel::NeedsUnknown2FA,
            LoginState::NeedsExtraStep(step) => LoginStateModel::NeedsExtraStep(step@),
            LoginState::NeedsLogin => LoginStateModel::NeedsLogin,
        }
    }
}

impl Clone for LoginState {
    fn clone(&self) -> (copy: Self)
        ensures
            copy@ == self@,
    {
        match self {
            LoginState::LoggedIn => LoginState::LoggedIn,
            LoginState::NeedsDevice2FA => LoginState::NeedsDevice2FA,
            LoginState::NeedsDevice2FAVerification => LoginState::NeedsDevice2FAVerification,
            LoginState::NeedsSMS2FA(id) => LoginState::NeedsSMS2FA(*id),
            LoginState::NeedsSMS2FAVerification(id) => LoginState::NeedsSMS2FAVerification(*id),
            LoginState::NeedsUnknown2FA => LoginState::NeedsUnknown2FA,
            LoginState::NeedsExtraStep(step) => LoginState::NeedsExtraStep(step.clone()),
            LoginState::NeedsLogin => LoginState::NeedsLogin,
        }
    }
}

/// The name of a state as a developer sees it, with what it holds in parentheses.
pub open spec fn state_text(state: LoginStateModel) -> Seq<char> {
    match state {
        LoginStateModel::LoggedIn => "LoggedIn"@,
        LoginStateModel::NeedsDevice2FA => "NeedsDevice2FA"@,
        LoginStateModel::NeedsDevice2FAVerification => "NeedsDevice2FAVerification"@,
        LoginStateModel::NeedsSMS2FA(id) => "NeedsSMS2FA("@ + text::decimal(id as nat) + ")"@,
        LoginStateModel::NeedsSMS2FAVerification(id) => "NeedsSMS2FAVerification("@
            + text::decimal(id as nat) + ")"@,
        LoginStateModel::NeedsUnknown2FA => "NeedsUnknown2FA"@,
        LoginStateModel::NeedsExtraStep(step) => "NeedsExtraStep("@ + text::debug_quoted(step)
            + ")"@,
        LoginStateModel::NeedsLogin => "NeedsLogin"@,
    }
}

impl LoginState {
    /// The state as its `Debug` form prints it.
    pub fn debug_text(&self) -> (res: String)
        ensures
            res@ == state_text(self@),
    {
        match self {
            LoginState::LoggedIn => "LoggedIn".to_owned(),
            LoginState::NeedsDevice2FA => "NeedsDevice2FA".to_owned(),
            LoginState::NeedsDevice2FAVerification => "NeedsDevice2FAVerification".to_owned(),
            LoginState::NeedsSMS2FA(id) => {
                let number = decimal_text(*id as u64);
                "NeedsSMS2FA(".to_owned().concat(number.as_str()).concat(")")
            },
            LoginState::NeedsSMS2FAVerification(id) => {
                let number = decimal_text(*id as u64);
                "NeedsSMS2FAVerification(".to_owned().concat(number.as_str()).concat(")")
            },
            LoginState::NeedsUnknown2FA => "NeedsUnknown2FA".to_owned(),
            LoginState::NeedsExtraStep(step) => {
                let name = quoted(step.as_str());
                "NeedsExtraStep(".to_owned().concat(name.as_str()).concat(")")
            },
            LoginState::NeedsLogin => "NeedsLogin".to_owned(),
        }
    }
}

/// A phone number that may receive codes.
#[derive(Debug)]
pub struct TrustedNumber {
    pub number_with_dial_code: String,
    pub last_two_digits: String,
    pub push_mode: String,
    pub id: u32,
}

/// A `TrustedNumber` with its texts as sequences of characters.
pub struct TrustedNumberModel {
    pub number_with_dial_code: Seq<char>,
    pub last_two_digits: Seq<char>,
    pub push_mode: Seq<char>,
    pub id: u32,
}

impl View for TrustedNumber {
    type V = TrustedNumberModel;

    open spec fn view(&self) -> TrustedNumberModel {
        TrustedNumberModel {
            number_with_dial_code: self.number_with_dial_code@,
            last_two_digits: self.last_two_digits@,
            push_mode: self.push_mode@,
            id: self.id,
        }
    }
}

impl Clone for TrustedNumber {
    fn clone(&self) -> (copy: Self)
        ensures
            copy@ == self@,
    {
        TrustedNumber {
            number_with_dial_code: self.number_with_dial_code.clone(),
            last_two_digits: self.last_two_digits.clone(),
            push_mode: self.push_mode.clone(),
            id: self.id,
        }
    }
}

impl Default for TrustedNumber {
    fn default() -> (number: Self)
        ensures
            number@ == (TrustedNumberModel {
                number_with_dial_code: Seq::empty(),
                last_two_digits: Seq::empty(),
                push_mode: Seq::empty(),
                id: 0,
            }),
    {
        TrustedNumber {
            number_with_dial_code: String::new(),
            last_two_digits: String::new(),
            push_mode: String::new(),
            id: 0,
        }
    }
}

/// The models of a list of numbers.
pub open spec fn number_models(numbers: Seq<TrustedNumber>) -> Seq<TrustedNumberModel> {
    numbers.map_values(|number: TrustedNumber| number@)
}

/// Copies a list of numbers.
pub fn copy_numbers(numbers: &Vec<TrustedNumber>) -> (copy: Vec<TrustedNumber>)
    ensures
        number_models(copy@) == number_models(numbers@),
{
    let mut copy: Vec<TrustedNumber> = Vec::new();
    let mut i: usize = 0;
    while i < numbers.len()
        invariant
            i <= numbers@.len(),
            copy@.len() == i,
            forall|j: int| 0 <= j < i ==> (#[trigger] copy@[j])@ == numbers@[j]@,
        decreases numbers@.len() - i,
    {
        copy.push(numbers[i].clone());
        i = i + 1;
    }
    assert(number_models(copy@) =~= number_models(numbers@));
    copy
}

/// The characters of an optional text.
pub open spec fn optional_text(text: Option<String>) -> Option<Seq<char>> {
    match text {
        Some(text) => Some(text@),
        None => None,
    }
}

/// What the user is asked when a second factor is needed.
#[derive(Debug, Clone)]
pub struct TwoFactorCallbackParams {
    pub last_error: Option<String>,
    /// Nothing is known about what will work: offer every way and let the user choose.
    pub unknown: bool,
    pub sms: bool,
    pub numbers: Vec<TrustedNumber>,
    pub selected_number_id: Option<u32>,
}

/// A `TwoFactorCallbackParams` over the models of what it holds.
pub struct ParamsModel {
    pub last_error: Option<Seq<char>>,
    pub unknown: bool,
    pub sms: bool,
    pub numbers: Seq<TrustedNumberModel>,
    pub selected_number_id: Option<u32>,
}

impl View for TwoFactorCallbackParams {
    type V = ParamsModel;

    open spec fn view(&self) -> ParamsModel {
        ParamsModel {
            last_error: optional_text(self.last_error),
            unknown: self.unknown,
            sms: self.sms,
            numbers: number_models(self.numbers@),
            selected_number_id: self.selected_number_id,
        }
    }
}

/// What the user answers.
#[derive(Debug, Clone)]
pub enum TwoFactorCallbackResponse {
    SubmitCode(String),
    SendSms(u32),
    SendToDevices,
    ResendCode,
    Abort,
}

/// A `TwoFactorCallbackResponse` with its text as a sequence of characters.
pub enum ResponseModel {
    SubmitCode(Seq<char>),
    SendSms(u32),
    SendToDevices,
    ResendCode,
    Abort,
}

impl View for TwoFactorCallbackResponse {
    type V = ResponseModel;

    open spec fn view(&self) -> ResponseModel {
        match self {
            TwoFactorCallbackResponse::SubmitCode(code) => ResponseModel::SubmitCode(code@),
            TwoFactorCallbackResponse::SendSms(id) => ResponseModel::SendSms(*id),
            TwoFactorCallbackResponse::SendToDevices => ResponseModel::SendToDevices,
            TwoFactorCallbackResponse::ResendCode => ResponseModel::ResendCode,
            TwoFactorCallbackResponse::Abort => ResponseModel::Abort,
        }
    }
}

/// The error that the text message service reports.
#[derive(Debug)]
pub struct SMSTwoFactorError {
    pub code: String,
    pub title: String,
    pub message: String,
}

/// An `SMSTwoFactorError` with its texts as sequences of characters.
pub struct SmsErrorModel {
    pub code: Seq<char>,
    pub title: Seq<char>,
    pub message: Seq<char>,
}

impl View for SMSTwoFactorError {
    type V = SmsErrorModel;

    open spec fn view(&self) -> SmsErrorModel {
        SmsErrorModel { code: self.code@, title: self.title@, message: self.message@ }
    }
}

impl Clone for SMSTwoFactorError {
    fn clone(&self) -> (copy: Self)
        ensures
            copy@ == self@,
    {
        SMSTwoFactorError {
            code: self.code.clone(),
            title: self.title.clone(),
            message: self.message.clone(),
        }
    }
}

/// What came of a request to send a code by text message.
#[derive(Debug, Clone)]
pub enum SmsSendOutcome {
    Sent,
    ActiveChallenge { actual_number_id: u32 },
    ServiceError(SMSTwoFactorError),
}

/// An `SmsSendOutcome` over the model of its error.
pub enum SmsOutcomeModel {
    Sent,
    ActiveChallenge(u32),
    ServiceError(SmsErrorModel),
}

impl View for SmsSendOutcome {
    type V = SmsOutcomeModel;

    open spec fn view(&self) -> SmsOutcomeModel {
        match self {
            SmsSendOutcome::Sent => SmsOutcomeModel::Sent,
            SmsSendOutcome::ActiveChallenge { actual_number_id } =>
                SmsOutcomeModel::ActiveChallenge(*actual_number_id),
            SmsSendOutcome::ServiceError(error) => SmsOutcomeModel::ServiceError(error@),
        }
    }
}

/// The state of the code that a challenge asks for.
#[derive(Debug, Clone)]
pub struct SmsSecurityCode {
    pub length: u8,
    pub too_many_codes_sent: bool,
    pub too_many_codes_validated: bool,
    pub security_code_locked: bool,
    pub security_code_cooldown: bool,
}

/// The challenge that the service describes when it refuses to send another code.
#[derive(Debug, Clone)]
pub struct SmsChallengeResponse {
    pub mode: String,
    pub challenge_type: String,
    pub authentication_type: String,
    pub trusted_phone_numbers: Vec<TrustedNumber>,
    pub trusted_phone_number: TrustedNumber,
    pub security_code: SmsSecurityCode,
    pub no_trusted_devices: bool,
}

/// One cause in the report that a rejected reply leads to.
#[derive(Debug, Clone)]
pub enum SideloadError {
    AuthWithMessage(i64, String),
    Other(String),
}

/// A `SideloadError` with its text as a sequence of characters.
pub enum CauseModel {
    AuthWithMessage(i64, Seq<char>),
    Other(Seq<char>),
}

impl View for SideloadError {
    type V = CauseModel;

    open spec fn view(&self) -> CauseModel {
        match self {
            SideloadError::AuthWithMessage(code, message) => CauseModel::AuthWithMessage(
                *code,
                message@,
            ),
            SideloadError::Other(message) => CauseModel::Other(message@),
        }
    }
}

/// The models of a list of causes.
pub open spec fn cause_models(causes: Seq<SideloadError>) -> Seq<CauseModel> {
    causes.map_values(|cause: SideloadError| cause@)
}

/// A token for one application.
#[derive(Debug)]
pub struct AppToken {
    pub token: String,
    pub duration: u64,
    pub expiry: u64,
}

/// An `AppToken` with its text as a sequence of characters.
pub struct AppTokenModel {
    pub token: Seq<char>,
    pub duration: u64,
    pub expiry: u64,
}

impl View for AppToken {
    type V = AppTokenModel;

    open spec fn view(&self) -> AppTokenModel {
        AppTokenModel { token: self.token@, duration: self.duration, expiry: self.expiry }
    }
}

impl Clone for AppToken {
    fn clone(&self) -> (copy: Self)
        ensures
            copy@ == self@,
    {
        AppToken { token: self.token.clone(), duration: self.duration, expiry: self.expiry }
    }
}

} // verus!
