//! How the models of values tell what the values hold.

use crate::error;
use crate::error::{AccountError, EntryKind, ErrorModel, PlistSource, SpdUse};
use crate::login;
use crate::login::{ActionModel, EventModel, LoginAction, LoginEvent};
use crate::types;
use crate::types::{
    AppToken, CauseModel, LoginState, LoginStateModel, ResponseModel, SMSTwoFactorError,
    SideloadError, SmsOutcomeModel, SmsSendOutcome, TrustedNumber, TwoFactorCallbackParams,
    TwoFactorCallbackResponse,
};
use vstd::prelude::*;

verus! {

/// What the models of the passed values tell is what the values hold.
pub proof fn law_models_tell_what_values_hold(
    number: TrustedNumber,
    token: AppToken,
    error: SMSTwoFactorError,
    params: TwoFactorCallbackParams,
)
    ensures
        number@.id == number.id,
        number@.number_with_dial_code == number.number_with_dial_code@,
        number@.last_two_digits == number.last_two_digits@,
        number@.push_mode == number.push_mode@,
        token@.token == token.token@,
        token@.duration == token.duration,
        token@.expiry == token.expiry,
        error@.code == error.code@,
        error@.title == error.title@,
        error@.message == error.message@,
        params@.unknown == params.unknown,
        params@.sms == params.sms,
        params@.selected_number_id == params.selected_number_id,
        params@.numbers.len() == params.numbers@.len(),
        forall|i: int|
            0 <= i < params.numbers@.len() ==> #[trigger] params@.numbers[i]
                == params.numbers@[i]@,
        params.last_error is Some ==> params@.last_error == Some(params.last_error->0@),
        params.last_error is None ==> params@.last_error is None,
{
}

/// The model of a state is that state, with what it holds.
pub proof fn law_state_models_are_faithful(id: u32, step: String)
    ensures
        LoginState::LoggedIn@ == LoginStateModel::LoggedIn,
        LoginState::NeedsDevice2FA@ == LoginStateModel::NeedsDevice2FA,
        LoginState::NeedsDevice2FAVerification@ == LoginStateModel::NeedsDevice2FAVerification,
        LoginState::NeedsSMS2FA(id)@ == LoginStateModel::NeedsSMS2FA(id),
        LoginState::NeedsSMS2FAVerification(id)@ == LoginStateModel::NeedsSMS2FAVerification(id),
        LoginState::NeedsUnknown2FA@ == LoginStateModel::NeedsUnknown2FA,
        LoginState::NeedsExtraStep(step)@ == LoginStateModel::NeedsExtraStep(step@),
        LoginState::NeedsLogin@ == LoginStateModel::NeedsLogin,
{
}

/// The model of an action is that action, with what it holds.
pub proof fn law_action_models_are_faithful(
    code: String,
    id: u32,
    params: TwoFactorCallbackParams,
)
    ensures
        LoginAction::Authenticate@ == ActionModel::Authenticate,
        LoginAction::FetchTrustedNumbers@ == ActionModel::FetchTrustedNumbers,
        LoginAction::SendDeviceCode@ == ActionModel::SendDeviceCode,
        LoginAction::SendSms(id)@ == ActionModel::SendSms(id),
        LoginAction::AskUser(params)@ == ActionModel::AskUser(params@),
        LoginAction::SubmitDeviceCode(code)@ == ActionModel::SubmitDeviceCode(code@),
        LoginAction::SubmitSmsCode(code, id)@ == ActionModel::SubmitSmsCode(code@, id),
        LoginAction::Finish@ == ActionModel::Finish,
{
}

/// The model of an answer is that answer, with what it holds.
pub proof fn law_answer_models_are_faithful(code: String, id: u32)
    ensures
        TwoFactorCallbackResponse::SubmitCode(code)@ == ResponseModel::SubmitCode(code@),
        TwoFactorCallbackResponse::SendSms(id)@ == ResponseModel::SendSms(id),
        TwoFactorCallbackResponse::SendToDevices@ == ResponseModel::SendToDevices,
        TwoFactorCallbackResponse::ResendCode@ == ResponseModel::ResendCode,
        TwoFactorCallbackResponse::Abort@ == ResponseModel::Abort,
{
}

/// The model of the outcome of a send request is that outcome, with what it holds.
pub proof fn law_outcome_models_are_faithful(actual_number_id: u32, error: SMSTwoFactorError)
    ensures
        SmsSendOutcome::Sent@ == SmsOutcomeModel::Sent,
        (SmsSendOutcome::ActiveChallenge { actual_number_id })@ == SmsOutcomeModel::ActiveChallenge(
            actual_number_id,
        ),
        SmsSendOutcome::ServiceError(error)@ == SmsOutcomeModel::ServiceError(error@),
        login::optional_error(Some(error)) == Some(error@),
        login::optional_error(None) is None,
{
}

/// The model of an event is that event, with what it holds: all the numbers, and all the causes.
pub proof fn law_event_models_are_faithful(
    state: LoginState,
    numbers: Vec<TrustedNumber>,
    outcome: SmsSendOutcome,
    response: TwoFactorCallbackResponse,
    causes: Vec<SideloadError>,
    rejection: Option<SMSTwoFactorError>,
)
    ensures
        LoginEvent::Authenticated(state)@ == EventModel::Authenticated(state@),
        LoginEvent::DeviceCodeSent@ == EventModel::DeviceCodeSent,
        LoginEvent::SmsSent(outcome)@ == EventModel::SmsSent(outcome@),
        LoginEvent::UserResponse(response)@ == EventModel::UserResponse(response@),
        LoginEvent::SmsCodeChecked(rejection)@ == EventModel::SmsCodeChecked(
            login::optional_error(rejection),
        ),
        LoginEvent::TrustedNumbers(numbers)@ matches EventModel::TrustedNumbers(models)
            && models.len() == numbers@.len() && forall|i: int|
            0 <= i < numbers@.len() ==> #[trigger] models[i] == numbers@[i]@,
        LoginEvent::DeviceCodeChecked(Ok(()))@ matches EventModel::DeviceCodeChecked(Ok(_)),
        LoginEvent::DeviceCodeChecked(Err(causes))@ matches EventModel::DeviceCodeChecked(
            Err(models),
        ) && models.len() == causes@.len() && forall|i: int|
            0 <= i < causes@.len() ==> #[trigger] models[i] == causes@[i]@,
{
}

/// The model of a cause is that cause, with its number and its message.
pub proof fn law_cause_models_are_faithful(code: i64, message: String, causes: Seq<SideloadError>)
    ensures
        SideloadError::AuthWithMessage(code, message)@ == CauseModel::AuthWithMessage(
            code,
            message@,
        ),
        SideloadError::Other(message)@ == CauseModel::Other(message@),
        types::cause_models(causes).len() == causes.len(),
        forall|i: int|
            0 <= i < causes.len() ==> #[trigger] types::cause_models(causes)[i] == causes[i]@,
{
}

/// The model of an error of a sign-in is that error, with what it holds.
pub proof fn law_error_models_are_faithful(
    state: LoginState,
    name: String,
    refusal: SMSTwoFactorError,
    status: u16,
    causes: Vec<SideloadError>,
)
    ensures
        AccountError::AttemptsExhausted(state)@ == ErrorModel::AttemptsExhausted(state@),
        AccountError::NoCodeProvided@ == ErrorModel::NoCodeProvided,
        AccountError::AdditionalAuthentication(name)@ == ErrorModel::AdditionalAuthentication(
            name@,
        ),
        AccountError::CannotSubmitCode@ == ErrorModel::CannotSubmitCode,
        AccountError::CannotResendCode@ == ErrorModel::CannotResendCode,
        AccountError::NoMethodSelected@ == ErrorModel::NoMethodSelected,
        AccountError::NumberNotFound@ == ErrorModel::NumberNotFound,
        AccountError::UnexpectedEvent@ == ErrorModel::UnexpectedEvent,
        AccountError::DeviceCodeRejected(causes)@ == ErrorModel::DeviceCodeRejected(
            types::cause_models(causes@),
        ),
        AccountError::SmsSendRefused(refusal)@ == ErrorModel::SmsSendRefused(refusal@),
        AccountError::SmsSendStatus(status, name)@ == ErrorModel::SmsSendStatus(status, name@),
        AccountError::SmsCodeRefused(refusal)@ == ErrorModel::SmsCodeRefused(refusal@),
        AccountError::SmsCodeStatus(status, name)@ == ErrorModel::SmsCodeStatus(status, name@),
        AccountError::NumbersUnavailable(status, name)@ == ErrorModel::NumbersUnavailable(
            status,
            name@,
        ),
        AccountError::UnsupportedProtocol(name)@ == ErrorModel::UnsupportedProtocol(name@),
        AccountError::IllegalServerKey@ == ErrorModel::IllegalServerKey,
        AccountError::ServerProofMismatch@ == ErrorModel::ServerProofMismatch,
{
}

/// The model of an error on data is that error, with what it holds.
pub proof fn law_data_error_models_are_faithful(
    purpose: SpdUse,
    kind: EntryKind,
    source: PlistSource,
    key: String,
    status: i64,
    length: usize,
    header: Vec<u8>,
)
    ensures
        AccountError::SpdUnavailable(purpose)@ == ErrorModel::SpdUnavailable(purpose),
        AccountError::MissingEntry(kind, key)@ == ErrorModel::MissingEntry(kind, key@),
        AccountError::MalformedPlist(source)@ == ErrorModel::MalformedPlist(source),
        AccountError::InvalidHeaderValue@ == ErrorModel::InvalidHeaderValue,
        AccountError::SpdDecryption@ == ErrorModel::SpdDecryption,
        AccountError::AppTokenStatus(status)@ == ErrorModel::AppTokenStatus(status),
        AccountError::TokenTooShort(length)@ == ErrorModel::TokenTooShort(length as nat),
        AccountError::UnknownTokenFormat(header)@ == ErrorModel::UnknownTokenFormat(header@),
        AccountError::SessionKeyLength(length)@ == ErrorModel::SessionKeyLength(length as nat),
        AccountError::TokenDecryption@ == ErrorModel::TokenDecryption,
{
}

/// A result over models succeeds exactly where the result does, and holds the model of what that
/// holds.
pub proof fn law_result_models_are_faithful<T: View>(value: T, error: AccountError)
    ensures
        error::outcome(Ok::<T, AccountError>(value)) == Ok::<T::V, ErrorModel>(value@),
        error::outcome(Err::<T, AccountError>(error)) == Err::<T::V, ErrorModel>(error@),
{
}

} // verus!
