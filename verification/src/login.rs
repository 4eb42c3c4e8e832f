//! Signing in, as a machine that says what to do next and is told what came of it.

use crate::account;
use crate::account::{AccountModel, AppleAccount};
use crate::error;
use crate::error::{AccountError, ErrorModel};
use crate::text;
use crate::text::{same_text, signed_decimal_text};
use crate::types;
use crate::types::{
    copy_numbers, CauseModel, LoginState, LoginStateModel, ParamsModel, ResponseModel,
    SMSTwoFactorError, SideloadError, SmsErrorModel, SmsOutcomeModel, SmsSendOutcome,
    TrustedNumber, TrustedNumberModel, TwoFactorCallbackParams, TwoFactorCallbackResponse,
};
use vstd::prelude::*;
use vstd::string::*;

verus! {

/// How many rounds a sign-in may take.
pub const MAX_ATTEMPTS: u32 = 15;

/// What a sign-in waits for.
#[derive(Debug, Clone, Copy, PartialEq, Eq, Structural)]
pub enum Awaited {
    Authentication,
    TrustedNumbers,
    DeviceCodeSending,
    SmsSending,
    UserResponse,
    DeviceCodeCheck,
    SmsCodeCheck,
    Nothing,
}

/// A sign-in under way: the rounds that it has begun and what it waits for.
#[derive(Debug, Clone, Copy)]
pub struct LoginSession {
    pub attempts: u32,
    pub awaiting: Awaited,
}

/// What has to be done next.
#[derive(Debug)]
pub enum LoginAction {
    /// Exchange proofs of the password with the server.
    Authenticate,
    FetchTrustedNumbers,
    SendDeviceCode,
    SendSms(u32),
    AskUser(TwoFactorCallbackParams),
    SubmitDeviceCode(String),
    SubmitSmsCode(String, u32),
    /// Nothing: the account is signed in.
    Finish,
}

/// A `LoginAction` over the models of what it holds.
pub enum ActionModel {
    Authenticate,
    FetchTrustedNumbers,
    SendDeviceCode,
    SendSms(u32),
    AskUser(ParamsModel),
    SubmitDeviceCode(Seq<char>),
    SubmitSmsCode(Seq<char>, u32),
    Finish,
}

impl View for LoginAction {
    type V = ActionModel;

    open spec fn view(&self) -> ActionModel {
        match self {
            LoginAction::Authenticate => ActionModel::Authenticate,
            LoginAction::FetchTrustedNumbers => ActionModel::FetchTrustedNumbers,
            LoginAction::SendDeviceCode => ActionModel::SendDeviceCode,
            LoginAction::SendSms(id) => ActionModel::SendSms(*id),
            LoginAction::AskUser(params) => ActionModel::AskUser(params@),
            LoginAction::SubmitDeviceCode(code) => ActionModel::SubmitDeviceCode(code@),
            LoginAction::SubmitSmsCode(code, id) => ActionModel::SubmitSmsCode(code@, *id),
            LoginAction::Finish => ActionModel::Finish,
        }
    }
}

/// What came of an action.
#[derive(Debug)]
pub enum LoginEvent {
    Authenticated(LoginState),
    TrustedNumbers(Vec<TrustedNumber>),
    DeviceCodeSent,
    SmsSent(SmsSendOutcome),
    UserResponse(TwoFactorCallbackResponse),
    /// The reply to a code from a trusted device, or the causes of its rejection.
    DeviceCodeChecked(Result<(), Vec<SideloadError>>),
    /// The reply to a code from a text message, or what the service reports against it.
    SmsCodeChecked(Option<SMSTwoFactorError>),
}

/// A `LoginEvent` over the models of what it holds.
pub enum EventModel {
    Authenticated(LoginStateModel),
    TrustedNumbers(Seq<TrustedNumberModel>),
    DeviceCodeSent,
    SmsSent(SmsOutcomeModel),
    UserResponse(ResponseModel),
    DeviceCodeChecked(Result<(), Seq<CauseModel>>),
    SmsCodeChecked(Option<SmsErrorModel>),
}

/// The verdict on a code from a trusted device over the models of its causes.
pub open spec fn verdict_model(checked: Result<(), Vec<SideloadError>>) -> Result<
    (),
    Seq<CauseModel>,
> {
    match checked {
        Ok(_) => Ok(()),
        Err(causes) => Err(types::cause_models(causes@)),
    }
}

/// The model of an optional error of the text message service.
pub open spec fn optional_error(error: Option<SMSTwoFactorError>) -> Option<SmsErrorModel> {
    match error {
        Some(error) => Some(error@),
        None => None,
    }
}

impl View for LoginEvent {
    type V = EventModel;

    open spec fn view(&self) -> EventModel {
        match self {
            LoginEvent::Authenticated(state) => EventModel::Authenticated(state@),
            LoginEvent::TrustedNumbers(numbers) => EventModel::TrustedNumbers(
                types::number_models(numbers@),
            ),
            LoginEvent::DeviceCodeSent => EventModel::DeviceCodeSent,
            LoginEvent::SmsSent(outcome) => EventModel::SmsSent(outcome@),
            LoginEvent::UserResponse(response) => EventModel::UserResponse(response@),
            LoginEvent::DeviceCodeChecked(checked) => EventModel::DeviceCodeChecked(
                verdict_model(*checked),
            ),
            LoginEvent::SmsCodeChecked(rejection) => EventModel::SmsCodeChecked(
                optional_error(*rejection),
            ),
        }
    }
}

/// The account and the session behind a step, and what the step says to do.
pub struct StepModel {
    pub account: AccountModel,
    pub session: LoginSession,
    pub result: Result<ActionModel, ErrorModel>,
}

/// An account in another state.
pub open spec fn in_state(account: AccountModel, state: LoginStateModel) -> AccountModel {
    AccountModel { login_state: state, ..account }
}

/// An account with another note for the user.
pub open spec fn with_note(account: AccountModel, note: Option<Seq<char>>) -> AccountModel {
    AccountModel { last_error: note, ..account }
}

/// A step after which the sign-in waits for the outcome of an action.
pub open spec fn pending(
    account: AccountModel,
    attempts: u32,
    awaiting: Awaited,
    action: ActionModel,
) -> StepModel {
    StepModel { account, session: LoginSession { attempts, awaiting }, result: Ok(action) }
}

/// A step that ends the sign-in with an error.
pub open spec fn failed(account: AccountModel, attempts: u32, error: ErrorModel) -> StepModel {
    StepModel {
        account,
        session: LoginSession { attempts, awaiting: Awaited::Nothing },
        result: Err(error),
    }
}

/// The question to the user that fits the state of an account.
pub open spec fn question(account: AccountModel) -> ParamsModel {
    ParamsModel {
        last_error: account.last_error,
        unknown: account.login_state is NeedsUnknown2FA,
        sms: account.login_state is NeedsSMS2FAVerification,
        numbers: match account.numbers {
            Some(numbers) => numbers,
            None => Seq::empty(),
        },
        selected_number_id: match account.login_state {
            LoginStateModel::NeedsSMS2FAVerification(id) => Some(id),
            _ => None,
        },
    }
}

/// What a new round does in the state that the account is in.
pub open spec fn new_round(account: AccountModel, attempts: u32) -> StepModel {
    if attempts >= MAX_ATTEMPTS {
        failed(account, attempts, ErrorModel::AttemptsExhausted(account.login_state))
    } else {
        let begun = (attempts + 1) as u32;
        match account.login_state {
            LoginStateModel::LoggedIn => pending(
                account,
                begun,
                Awaited::Nothing,
                ActionModel::Finish,
            ),
            LoginStateModel::NeedsDevice2FA => if account.numbers is None {
                pending(account, begun, Awaited::TrustedNumbers, ActionModel::FetchTrustedNumbers)
            } else {
                pending(account, begun, Awaited::DeviceCodeSending, ActionModel::SendDeviceCode)
            },
            LoginStateModel::NeedsSMS2FA(id) => if account.numbers is None {
                pending(account, begun, Awaited::TrustedNumbers, ActionModel::FetchTrustedNumbers)
            } else {
                pending(account, begun, Awaited::SmsSending, ActionModel::SendSms(id))
            },
            LoginStateModel::NeedsDevice2FAVerification
            | LoginStateModel::NeedsSMS2FAVerification(_)
            | LoginStateModel::NeedsUnknown2FA => pending(
                account,
                begun,
                Awaited::UserResponse,
                ActionModel::AskUser(question(account)),
            ),
            LoginStateModel::NeedsExtraStep(step) => if account::account_pet(account.spd) is Err {
                failed(account, begun, ErrorModel::AdditionalAuthentication(step))
            } else if begun >= MAX_ATTEMPTS {
                failed(
                    in_state(account, LoginStateModel::LoggedIn),
                    begun,
                    ErrorModel::AttemptsExhausted(LoginStateModel::LoggedIn),
                )
            } else {
                pending(
                    in_state(account, LoginStateModel::LoggedIn),
                    (begun + 1) as u32,
                    Awaited::Nothing,
                    ActionModel::Finish,
                )
            },
            LoginStateModel::NeedsLogin => pending(
                account,
                begun,
                Awaited::Authentication,
                ActionModel::Authenticate,
            ),
        }
    }
}

/// The round that follows on what an action came to.
pub open spec fn next_round(
    account: AccountModel,
    attempts: u32,
    state: Result<LoginStateModel, ErrorModel>,
) -> StepModel {
    match state {
        Ok(state) => new_round(in_state(account, state), attempts),
        Err(error) => failed(account, attempts, error),
    }
}

/// What follows on the answer to a question. The note that came with the question is gone.
pub open spec fn answered(
    account: AccountModel,
    attempts: u32,
    response: ResponseModel,
) -> StepModel {
    let account = with_note(account, None);
    match (account.login_state, response) {
        (LoginStateModel::NeedsDevice2FAVerification, ResponseModel::SubmitCode(code)) => pending(
            account,
            attempts,
            Awaited::DeviceCodeCheck,
            ActionModel::SubmitDeviceCode(code),
        ),
        (LoginStateModel::NeedsSMS2FAVerification(id), ResponseModel::SubmitCode(code)) => pending(
            account,
            attempts,
            Awaited::SmsCodeCheck,
            ActionModel::SubmitSmsCode(code, id),
        ),
        (_, ResponseModel::SubmitCode(_)) => failed(account, attempts, ErrorModel::CannotSubmitCode),
        (_, ResponseModel::SendSms(id)) => next_round(
            account,
            attempts,
            account::number_choice(account.numbers, id),
        ),
        (_, ResponseModel::SendToDevices) => next_round(
            account,
            attempts,
            Ok(LoginStateModel::NeedsDevice2FA),
        ),
        (LoginStateModel::NeedsDevice2FAVerification, ResponseModel::ResendCode) => next_round(
            account,
            attempts,
            Ok(LoginStateModel::NeedsDevice2FA),
        ),
        (LoginStateModel::NeedsSMS2FAVerification(id), ResponseModel::ResendCode) => next_round(
            account,
            attempts,
            Ok(LoginStateModel::NeedsSMS2FA(id)),
        ),
        (_, ResponseModel::ResendCode) => failed(account, attempts, ErrorModel::CannotResendCode),
        (LoginStateModel::NeedsUnknown2FA, ResponseModel::Abort) => failed(
            account,
            attempts,
            ErrorModel::NoMethodSelected,
        ),
        (_, ResponseModel::Abort) => failed(account, attempts, ErrorModel::NoCodeProvided),
    }
}

/// The message of the first cause that calls the code incorrect.
pub open spec fn incorrect_code(causes: Seq<CauseModel>) -> Option<Seq<char>>
    decreases causes.len(),
{
    if causes.len() == 0 {
        None
    } else {
        match causes[0] {
            CauseModel::AuthWithMessage(code, message) if code == -21669 => Some(message),
            _ => incorrect_code(causes.skip(1)),
        }
    }
}

/// What the verdict on a code from a trusted device makes of an account, and the state it leads to.
pub open spec fn device_verdict(
    account: AccountModel,
    checked: Result<(), Seq<CauseModel>>,
) -> (AccountModel, Result<LoginStateModel, ErrorModel>) {
    match checked {
        Ok(_) => (account, Ok(LoginStateModel::NeedsLogin)),
        Err(causes) => match incorrect_code(causes) {
            Some(message) => (
                with_note(account, Some(text::signed_decimal(-21669) + " - "@ + message)),
                Ok(LoginStateModel::NeedsDevice2FAVerification),
            ),
            None => (account, Err(ErrorModel::DeviceCodeRejected(causes))),
        },
    }
}

/// What the outcome of a text message request makes of an account, and the state it leads to.
pub open spec fn sms_sent(account: AccountModel, id: u32, outcome: SmsOutcomeModel) -> (
    AccountModel,
    Result<LoginStateModel, ErrorModel>,
) {
    match outcome {
        SmsOutcomeModel::Sent => (account, Ok(LoginStateModel::NeedsSMS2FAVerification(id))),
        SmsOutcomeModel::ActiveChallenge(actual) => (
            account,
            Ok(LoginStateModel::NeedsSMS2FAVerification(actual)),
        ),
        SmsOutcomeModel::ServiceError(error) => if error.code == "-28248"@ {
            (
                with_note(account, Some(error::service_line(error))),
                Ok(LoginStateModel::NeedsUnknown2FA),
            )
        } else if error.code == "-22979"@ || error.code == "-22981"@ {
            (
                with_note(account, Some(error::service_line(error))),
                Ok(LoginStateModel::NeedsSMS2FAVerification(id)),
            )
        } else {
            (account, Err(ErrorModel::SmsSendRefused(error)))
        },
    }
}

/// What the verdict on a code from a text message makes of an account, and the state it leads to.
pub open spec fn sms_verdict(account: AccountModel, id: u32, rejection: Option<SmsErrorModel>) -> (
    AccountModel,
    Result<LoginStateModel, ErrorModel>,
) {
    match rejection {
        None => (account, Ok(LoginStateModel::NeedsLogin)),
        Some(error) => if error.code == "-21669"@ {
            (
                with_note(account, Some(error::service_line(error))),
                Ok(LoginStateModel::NeedsSMS2FAVerification(id)),
            )
        } else {
            (account, Err(ErrorModel::SmsCodeRefused(error)))
        },
    }
}

/// What a session does with an event. An event that it does not wait for changes nothing.
pub open spec fn step(account: AccountModel, session: LoginSession, event: EventModel) -> StepModel {
    let attempts = session.attempts;
    match (session.awaiting, event, account.login_state) {
        (Awaited::Authentication, EventModel::Authenticated(state), _) => next_round(
            account,
            attempts,
            Ok(state),
        ),
        (
            Awaited::TrustedNumbers,
            EventModel::TrustedNumbers(numbers),
            LoginStateModel::NeedsDevice2FA,
        ) => pending(
            AccountModel { numbers: Some(numbers), ..account },
            attempts,
            Awaited::DeviceCodeSending,
            ActionModel::SendDeviceCode,
        ),
        (
            Awaited::TrustedNumbers,
            EventModel::TrustedNumbers(numbers),
            LoginStateModel::NeedsSMS2FA(id),
        ) => pending(
            AccountModel { numbers: Some(numbers), ..account },
            attempts,
            Awaited::SmsSending,
            ActionModel::SendSms(id),
        ),
        (Awaited::DeviceCodeSending, EventModel::DeviceCodeSent, _) => next_round(
            account,
            attempts,
            Ok(LoginStateModel::NeedsDevice2FAVerification),
        ),
        (Awaited::SmsSending, EventModel::SmsSent(outcome), LoginStateModel::NeedsSMS2FA(id)) => {
            let (told, state) = sms_sent(account, id, outcome);
            next_round(told, attempts, state)
        },
        (
            Awaited::UserResponse,
            EventModel::UserResponse(response),
            LoginStateModel::NeedsDevice2FAVerification
            | LoginStateModel::NeedsSMS2FAVerification(_)
            | LoginStateModel::NeedsUnknown2FA,
        ) => answered(account, attempts, response),
        (Awaited::DeviceCodeCheck, EventModel::DeviceCodeChecked(checked), _) => {
            let (told, state) = device_verdict(account, checked);
            next_round(told, attempts, state)
        },
        (
            Awaited::SmsCodeCheck,
            EventModel::SmsCodeChecked(rejection),
            LoginStateModel::NeedsSMS2FAVerification(id),
        ) => {
            let (told, state) = sms_verdict(account, id, rejection);
            next_round(told, attempts, state)
        },
        _ => StepModel { account, session, result: Err(ErrorModel::UnexpectedEvent) },
    }
}

/// A session that has just been started.
pub open spec fn started() -> LoginSession {
    LoginSession { attempts: 0, awaiting: Awaited::Authentication }
}

impl AppleAccount {
    /// Starts to sign in: a session, and the action that it begins with.
    pub fn login(&self) -> (start: (LoginSession, LoginAction))
        ensures
            start.0 == started(),
            start.1@ == ActionModel::Authenticate,
    {
        let session = LoginSession { attempts: 0, awaiting: Awaited::Authentication };
        (session, LoginAction::Authenticate)
    }

    /// The question to the user that fits the state of the account.
    fn two_factor_params(&self) -> (params: TwoFactorCallbackParams)
        ensures
            params@ == question(self@),
    {
        let numbers = match &self.trusted_phone_numbers {
            Some(numbers) => copy_numbers(numbers),
            None => {
                let none: Vec<TrustedNumber> = Vec::new();
                assert(types::number_models(none@) =~= Seq::empty());
                none
            },
        };
        let last_error = match &self.last_error {
            Some(note) => Some(note.clone()),
            None => None,
        };
        match &self.login_state {
            LoginState::NeedsSMS2FAVerification(id) => TwoFactorCallbackParams {
                last_error,
                unknown: false,
                sms: true,
                numbers,
                selected_number_id: Some(*id),
            },
            LoginState::NeedsUnknown2FA => TwoFactorCallbackParams {
                last_error,
                unknown: true,
                sms: false,
                numbers,
                selected_number_id: None,
            },
            _ => TwoFactorCallbackParams {
                last_error,
                unknown: false,
                sms: false,
                numbers,
                selected_number_id: None,
            },
        }
    }

    /// Begins a round.
    fn begin_round(&mut self, session: &mut LoginSession) -> (action: Result<
        LoginAction,
        AccountError,
    >)
        ensures
            (StepModel {
                account: final(self)@,
                session: *final(session),
                result: error::outcome(action),
            }) == new_round(old(self)@, old(session).attempts),
    {
        session.awaiting = Awaited::Nothing;
        if session.attempts >= MAX_ATTEMPTS {
            return Err(AccountError::AttemptsExhausted(self.login_state.clone()));
        }
        session.attempts = session.attempts + 1;
        match self.login_state.clone() {
            LoginState::LoggedIn => Ok(LoginAction::Finish),
            LoginState::NeedsDevice2FA => {
                if self.trusted_phone_numbers.is_none() {
                    session.awaiting = Awaited::TrustedNumbers;
                    Ok(LoginAction::FetchTrustedNumbers)
                } else {
                    session.awaiting = Awaited::DeviceCodeSending;
                    Ok(LoginAction::SendDeviceCode)
                }
            },
            LoginState::NeedsSMS2FA(id) => {
                if self.trusted_phone_numbers.is_none() {
                    session.awaiting = Awaited::TrustedNumbers;
                    Ok(LoginAction::FetchTrustedNumbers)
                } else {
                    session.awaiting = Awaited::SmsSending;
                    Ok(LoginAction::SendSms(id))
                }
            },
            LoginState::NeedsDevice2FAVerification
            | LoginState::NeedsSMS2FAVerification(_)
            | LoginState::NeedsUnknown2FA => {
                session.awaiting = Awaited::UserResponse;
                Ok(LoginAction::AskUser(self.two_factor_params()))
            },
            LoginState::NeedsExtraStep(step) => {
                if self.get_pet().is_err() {
                    return Err(AccountError::AdditionalAuthentication(step));
                }
                self.login_state = LoginState::LoggedIn;
                if session.attempts >= MAX_ATTEMPTS {
                    return Err(AccountError::AttemptsExhausted(LoginState::LoggedIn));
                }
                session.attempts = session.attempts + 1;
                Ok(LoginAction::Finish)
            },
            LoginState::NeedsLogin => {
                session.awaiting = Awaited::Authentication;
                Ok(LoginAction::Authenticate)
            },
        }
    }

    /// Begins the round that follows on what an action came to.
    fn continue_with(
        &mut self,
        session: &mut LoginSession,
        state: Result<LoginState, AccountError>,
    ) -> (action: Result<LoginAction, AccountError>)
        ensures
            (StepModel {
                account: final(self)@,
                session: *final(session),
                result: error::outcome(action),
            }) == next_round(old(self)@, old(session).attempts, error::outcome(state)),
    {
        match state {
            Ok(state) => {
                self.login_state = state;
                self.begin_round(session)
            },
            Err(error) => {
                session.awaiting = Awaited::Nothing;
                Err(error)
            },
        }
    }

    /// Follows the answer to a question.
    fn follow_response(
        &mut self,
        session: &mut LoginSession,
        response: TwoFactorCallbackResponse,
    ) -> (action: Result<LoginAction, AccountError>)
        ensures
            (StepModel {
                account: final(self)@,
                session: *final(session),
                result: error::outcome(action),
            }) == answered(old(self)@, old(session).attempts, response@),
    {
        self.last_error = None;
        match response {
            TwoFactorCallbackResponse::SubmitCode(code) => match &self.login_state {
                LoginState::NeedsDevice2FAVerification => {
                    session.awaiting = Awaited::DeviceCodeCheck;
                    Ok(LoginAction::SubmitDeviceCode(code))
                },
                LoginState::NeedsSMS2FAVerification(id) => {
                    session.awaiting = Awaited::SmsCodeCheck;
                    Ok(LoginAction::SubmitSmsCode(code, *id))
                },
                _ => {
                    session.awaiting = Awaited::Nothing;
                    Err(AccountError::CannotSubmitCode)
                },
            },
            TwoFactorCallbackResponse::SendSms(selected_number_id) => {
                let state = self.select_number(selected_number_id);
                self.continue_with(session, state)
            },
            TwoFactorCallbackResponse::SendToDevices => {
                self.continue_with(session, Ok(LoginState::NeedsDevice2FA))
            },
            TwoFactorCallbackResponse::ResendCode => {
                let state = match &self.login_state {
                    LoginState::NeedsDevice2FAVerification => Ok(LoginState::NeedsDevice2FA),
                    LoginState::NeedsSMS2FAVerification(id) => Ok(LoginState::NeedsSMS2FA(*id)),
                    _ => Err(AccountError::CannotResendCode),
                };
                self.continue_with(session, state)
            },
            TwoFactorCallbackResponse::Abort => {
                session.awaiting = Awaited::Nothing;
                match &self.login_state {
                    LoginState::NeedsUnknown2FA => Err(AccountError::NoMethodSelected),
                    _ => Err(AccountError::NoCodeProvided),
                }
            },
        }
    }

    /// Takes the verdict on a code from a trusted device. A code that is merely incorrect may be
    /// entered again.
    pub fn verify_trusted_device_2fa(
        &mut self,
        checked: Result<(), Vec<SideloadError>>,
    ) -> (state: Result<LoginState, AccountError>)
        ensures
            (final(self)@, error::outcome(state)) == device_verdict(
                old(self)@,
                verdict_model(checked),
            ),
    {
        match checked {
            Ok(_) => Ok(LoginState::NeedsLogin),
            Err(causes) => match find_incorrect_code(&causes) {
                Some(message) => {
                    let note = signed_decimal_text(-21669).concat(" - ").concat(message);
                    self.last_error = Some(note);
                    Ok(LoginState::NeedsDevice2FAVerification)
                },
                None => Err(AccountError::DeviceCodeRejected(causes)),
            },
        }
    }

    /// Takes the outcome of a request to send a code by text message to number `id`.
    pub fn send_sms_2fa(&mut self, id: u32, outcome: SmsSendOutcome) -> (state: Result<
        LoginState,
        AccountError,
    >)
        ensures
            (final(self)@, error::outcome(state)) == sms_sent(old(self)@, id, outcome@),
    {
        match outcome {
            SmsSendOutcome::Sent => Ok(LoginState::NeedsSMS2FAVerification(id)),
            SmsSendOutcome::ActiveChallenge { actual_number_id } => Ok(
                LoginState::NeedsSMS2FAVerification(actual_number_id),
            ),
            SmsSendOutcome::ServiceError(error) => {
                let code = error.code.as_str();
                if same_text(code, "-28248") {
                    self.last_error = Some(error.line());
                    Ok(LoginState::NeedsUnknown2FA)
                } else if same_text(code, "-22979") || same_text(code, "-22981") {
                    self.last_error = Some(error.line());
                    Ok(LoginState::NeedsSMS2FAVerification(id))
                } else {
                    Err(AccountError::SmsSendRefused(error))
                }
            },
        }
    }

    /// Takes the verdict on a code from a text message to number `id`. A code that is merely
    /// incorrect may be entered again.
    pub fn verify_sms_2fa(&mut self, id: u32, rejection: Option<SMSTwoFactorError>) -> (state:
        Result<LoginState, AccountError>)
        ensures
            (final(self)@, error::outcome(state)) == sms_verdict(
                old(self)@,
                id,
                optional_error(rejection),
            ),
    {
        match rejection {
            None => Ok(LoginState::NeedsLogin),
            Some(error) => {
                if same_text(error.code.as_str(), "-21669") {
                    self.last_error = Some(error.line());
                    Ok(LoginState::NeedsSMS2FAVerification(id))
                } else {
                    Err(AccountError::SmsCodeRefused(error))
                }
            },
        }
    }

    /// Takes the numbers that may receive codes, and sends the code that is due.
    fn take_numbers(&mut self, session: &mut LoginSession, numbers: Vec<TrustedNumber>) -> (action:
        Result<LoginAction, AccountError>)
        requires
            old(session).awaiting == Awaited::TrustedNumbers,
        ensures
            (StepModel {
                account: final(self)@,
                session: *final(session),
                result: error::outcome(action),
            }) == step(
                old(self)@,
                *old(session),
                EventModel::TrustedNumbers(types::number_models(numbers@)),
            ),
    {
        match &self.login_state {
            LoginState::NeedsDevice2FA => {
                session.awaiting = Awaited::DeviceCodeSending;
                self.trusted_phone_numbers = Some(numbers);
                Ok(LoginAction::SendDeviceCode)
            },
            LoginState::NeedsSMS2FA(id) => {
                let id = *id;
                session.awaiting = Awaited::SmsSending;
                self.trusted_phone_numbers = Some(numbers);
                Ok(LoginAction::SendSms(id))
            },
            _ => Err(AccountError::UnexpectedEvent),
        }
    }

    /// Goes on with a sign-in: takes what came of the last action and says what to do next.
    pub fn login_step(&mut self, session: &mut LoginSession, event: LoginEvent) -> (action: Result<
        LoginAction,
        AccountError,
    >)
        ensures
            (StepModel {
                account: final(self)@,
                session: *final(session),
                result: error::outcome(action),
            }) == step(old(self)@, *old(session), event@),
    {
        match (session.awaiting, event) {
            (Awaited::Authentication, LoginEvent::Authenticated(state)) => {
                self.continue_with(session, Ok(state))
            },
            (Awaited::TrustedNumbers, LoginEvent::TrustedNumbers(numbers)) => {
                self.take_numbers(session, numbers)
            },
            (Awaited::DeviceCodeSending, LoginEvent::DeviceCodeSent) => {
                self.continue_with(session, Ok(LoginState::NeedsDevice2FAVerification))
            },
            (Awaited::SmsSending, LoginEvent::SmsSent(outcome)) => {
                let id: u32 = match &self.login_state {
                    LoginState::NeedsSMS2FA(id) => *id,
                    _ => return Err(AccountError::UnexpectedEvent),
                };
                let state = self.send_sms_2fa(id, outcome);
                self.continue_with(session, state)
            },
            (Awaited::UserResponse, LoginEvent::UserResponse(response)) => {
                match &self.login_state {
                    LoginState::NeedsDevice2FAVerification
                    | LoginState::NeedsSMS2FAVerification(_)
                    | LoginState::NeedsUnknown2FA => self.follow_response(session, response),
                    _ => Err(AccountError::UnexpectedEvent),
                }
            },
            (Awaited::DeviceCodeCheck, LoginEvent::DeviceCodeChecked(checked)) => {
                let state = self.verify_trusted_device_2fa(checked);
                self.continue_with(session, state)
            },
            (Awaited::SmsCodeCheck, LoginEvent::SmsCodeChecked(rejection)) => {
                let id: u32 = match &self.login_state {
                    LoginState::NeedsSMS2FAVerification(id) => *id,
                    _ => return Err(AccountError::UnexpectedEvent),
                };
                let state = self.verify_sms_2fa(id, rejection);
                self.continue_with(session, state)
            },
            _ => Err(AccountError::UnexpectedEvent),
        }
    }
}

/// The message of the first cause that calls the code incorrect.
fn find_incorrect_code(causes: &Vec<SideloadError>) -> (message: Option<&str>)
    ensures
        match message {
            Some(message) => incorrect_code(types::cause_models(causes@)) == Some(message@),
            None => incorrect_code(types::cause_models(causes@)) is None,
        },
{
    let ghost models = types::cause_models(causes@);
    assert(models.skip(0) =~= models);
    let mut i: usize = 0;
    while i < causes.len()
        invariant
            i <= causes@.len(),
            models == types::cause_models(causes@),
            incorrect_code(models) == incorrect_code(models.skip(i as int)),
        decreases causes@.len() - i,
    {
        assert(models.skip(i as int)[0] == causes@[i as int]@);
        assert(models.skip(i as int).skip(1) =~= models.skip(i + 1));
        if let SideloadError::AuthWithMessage(code, message) = &causes[i] {
            if *code == -21669 {
                return Some(message.as_str());
            }
        }
        i = i + 1;
    }
    None
}

} // verus!
