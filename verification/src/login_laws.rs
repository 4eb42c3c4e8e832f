//! What a single step of a sign-in does: when it takes which action, when it fails, and what it
//! changes.

use crate::account;
use crate::account::AccountModel;
use crate::error::ErrorModel;
use crate::laws;
use crate::login;
use crate::login::{ActionModel, Awaited, EventModel, LoginSession};
use crate::text;
use crate::types::{CauseModel, LoginStateModel, ResponseModel, SmsErrorModel, SmsOutcomeModel};
use vstd::prelude::*;

verus! {

/// Whether a step says to do something.
pub open spec fn says(
    account: AccountModel,
    session: LoginSession,
    event: EventModel,
    action: ActionModel,
) -> bool {
    login::step(account, session, event).result == Ok::<ActionModel, ErrorModel>(action)
}

/// Whether a step fails with an error.
pub open spec fn fails(
    account: AccountModel,
    session: LoginSession,
    event: EventModel,
    error: ErrorModel,
) -> bool {
    login::step(account, session, event).result == Err::<ActionModel, ErrorModel>(error)
}

/// Whether the user answers a question: one is open, and the account is in a state that asks one.
pub open spec fn is_answer(
    account: AccountModel,
    session: LoginSession,
    event: EventModel,
    response: ResponseModel,
) -> bool {
    &&& session.awaiting == Awaited::UserResponse
    &&& event == EventModel::UserResponse(response)
    &&& account.login_state is NeedsDevice2FAVerification
        || account.login_state is NeedsSMS2FAVerification || account.login_state is NeedsUnknown2FA
}

/// Whether a number is among those that the account trusts.
pub open spec fn trusts(account: AccountModel, id: u32) -> bool {
    account.numbers is Some && exists|i: int|
        0 <= i < account.numbers->0.len() && (#[trigger] account.numbers->0[i]).id == id
}

/// Whether the server wants a further proof of some kind.
pub open spec fn server_wants(
    session: LoginSession,
    event: EventModel,
    state: LoginStateModel,
) -> bool {
    session.awaiting == Awaited::Authentication && event == EventModel::Authenticated(state)
}

/// Whether a message to number `id` becomes due: the server wants a code from it, or the user
/// chooses that number or wants another code from it.
pub open spec fn message_is_due(
    account: AccountModel,
    session: LoginSession,
    event: EventModel,
    id: u32,
) -> bool {
    ||| server_wants(session, event, LoginStateModel::NeedsSMS2FA(id))
    ||| is_answer(account, session, event, ResponseModel::SendSms(id)) && trusts(account, id)
    ||| is_answer(account, session, event, ResponseModel::ResendCode) && account.login_state
        == LoginStateModel::NeedsSMS2FAVerification(id)
}

/// Whether a code to the trusted devices becomes due: the server wants one, or the user does.
pub open spec fn device_code_is_due(
    account: AccountModel,
    session: LoginSession,
    event: EventModel,
) -> bool {
    ||| server_wants(session, event, LoginStateModel::NeedsDevice2FA)
    ||| is_answer(account, session, event, ResponseModel::SendToDevices)
    ||| is_answer(account, session, event, ResponseModel::ResendCode)
        && account.login_state is NeedsDevice2FAVerification
}

/// Whether a cause calls a code incorrect.
pub open spec fn calls_incorrect(cause: CauseModel) -> bool {
    cause is AuthWithMessage && cause->AuthWithMessage_0 == -21669
}

/// Whether the cause at position `i` is the first that calls the code incorrect.
pub open spec fn complains_first(causes: Seq<CauseModel>, i: int) -> bool {
    &&& 0 <= i < causes.len()
    &&& calls_incorrect(causes[i])
    &&& forall|j: int| 0 <= j < i ==> !calls_incorrect(#[trigger] causes[j])
}

/// Whether no cause calls the code incorrect.
pub open spec fn none_complains(causes: Seq<CauseModel>) -> bool {
    forall|j: int| 0 <= j < causes.len() ==> !calls_incorrect(#[trigger] causes[j])
}

/// A sign-in starts before its first round, and waits for the server's word on the password.
pub proof fn law_sign_ins_start_with_the_password()
    ensures
        login::started().attempts == 0,
        login::started().awaiting == Awaited::Authentication,
{
}

/// Of the causes of a rejection, the first that calls the code incorrect is the one that counts.
pub proof fn law_first_complaint_counts(causes: Seq<CauseModel>, i: int)
    ensures
        complains_first(causes, i) ==> login::incorrect_code(causes) == Some(
            causes[i]->AuthWithMessage_1,
        ),
        none_complains(causes) ==> login::incorrect_code(causes) is None,
    decreases causes.len(),
{
    if causes.len() > 0 {
        let rest = causes.skip(1);
        law_first_complaint_counts(rest, i - 1);
        assert(forall|j: int| 0 <= j < rest.len() ==> #[trigger] rest[j] == causes[j + 1]);
        if complains_first(causes, i) && i > 0 {
            assert(!calls_incorrect(causes[0]));
            assert(complains_first(rest, i - 1));
        }
        if none_complains(causes) {
            assert(!calls_incorrect(causes[0]));
            assert(none_complains(rest));
        }
    }
}

/// A code from a text message is submitted exactly where the user enters it while one is waited
/// for: as it was entered, and for the number that it was sent to.
pub proof fn law_sms_codes_go_to_their_number(
    account: AccountModel,
    session: LoginSession,
    event: EventModel,
    code: Seq<char>,
    id: u32,
)
    ensures
        says(account, session, event, ActionModel::SubmitSmsCode(code, id)) <==> {
            &&& session.awaiting == Awaited::UserResponse
            &&& event == EventModel::UserResponse(ResponseModel::SubmitCode(code))
            &&& account.login_state == LoginStateModel::NeedsSMS2FAVerification(id)
        },
{
}

/// A code from a trusted device is submitted exactly where the user enters it while one is waited
/// for, and as it was entered.
pub proof fn law_device_codes_are_submitted(
    account: AccountModel,
    session: LoginSession,
    event: EventModel,
    code: Seq<char>,
)
    ensures
        says(account, session, event, ActionModel::SubmitDeviceCode(code)) <==> {
            &&& session.awaiting == Awaited::UserResponse
            &&& event == EventModel::UserResponse(ResponseModel::SubmitCode(code))
            &&& account.login_state is NeedsDevice2FAVerification
        },
{
}

/// The code that the user enters after a message was sent is submitted for the number that the
/// message went to: the one that the user chose, or the one that the service named instead.
pub proof fn law_codes_follow_their_message(
    account: AccountModel,
    session: LoginSession,
    id: u32,
    outcome: SmsOutcomeModel,
    code: Seq<char>,
)
    requires
        is_answer(
            account,
            session,
            EventModel::UserResponse(ResponseModel::SendSms(id)),
            ResponseModel::SendSms(id),
        ),
        trusts(account, id),
        session.attempts < 14,
        !(outcome is ServiceError),
    ensures
        ({
            let chosen = login::step(
                account,
                session,
                EventModel::UserResponse(ResponseModel::SendSms(id)),
            );
            let sent = login::step(chosen.account, chosen.session, EventModel::SmsSent(outcome));
            let receiver = match outcome {
                SmsOutcomeModel::ActiveChallenge(actual) => actual,
                _ => id,
            };
            &&& chosen.result == Ok::<ActionModel, ErrorModel>(ActionModel::SendSms(id))
            &&& sent.result is Ok
            &&& sent.result->Ok_0 is AskUser
            &&& sent.result->Ok_0->AskUser_0.selected_number_id == Some(receiver)
            &&& says(
                sent.account,
                sent.session,
                EventModel::UserResponse(ResponseModel::SubmitCode(code)),
                ActionModel::SubmitSmsCode(code, receiver),
            )
        }),
{
}

/// A code that was incorrect may be entered again, and the next one is submitted for the same
/// number.
pub proof fn law_second_tries_go_to_the_same_number(
    account: AccountModel,
    session: LoginSession,
    first: Seq<char>,
    second: Seq<char>,
    id: u32,
    refusal: SmsErrorModel,
)
    requires
        session.awaiting == Awaited::UserResponse,
        session.attempts < 15,
        account.login_state == LoginStateModel::NeedsSMS2FAVerification(id),
        refusal.code == "-21669"@,
    ensures
        ({
            let tried = login::step(
                account,
                session,
                EventModel::UserResponse(ResponseModel::SubmitCode(first)),
            );
            let refused = login::step(
                tried.account,
                tried.session,
                EventModel::SmsCodeChecked(Some(refusal)),
            );
            says(
                refused.account,
                refused.session,
                EventModel::UserResponse(ResponseModel::SubmitCode(second)),
                ActionModel::SubmitSmsCode(second, id),
            )
        }),
{
}

/// A message is requested exactly where one to that number is due and the trusted numbers are
/// known, or have just become known.
pub proof fn law_messages_are_sent_when_due(
    account: AccountModel,
    session: LoginSession,
    event: EventModel,
    id: u32,
)
    ensures
        says(account, session, event, ActionModel::SendSms(id)) <==> {
            ||| {
                &&& message_is_due(account, session, event, id)
                &&& account.numbers is Some
                &&& session.attempts < 15
            }
            ||| {
                &&& session.awaiting == Awaited::TrustedNumbers
                &&& event is TrustedNumbers
                &&& account.login_state == LoginStateModel::NeedsSMS2FA(id)
            }
        },
{
}

/// A code to the trusted devices is requested exactly where one is due and the trusted numbers are
/// known, or have just become known.
pub proof fn law_device_codes_are_sent_when_due(
    account: AccountModel,
    session: LoginSession,
    event: EventModel,
)
    ensures
        says(account, session, event, ActionModel::SendDeviceCode) <==> {
            ||| {
                &&& device_code_is_due(account, session, event)
                &&& account.numbers is Some
                &&& session.attempts < 15
            }
            ||| {
                &&& session.awaiting == Awaited::TrustedNumbers
                &&& event is TrustedNumbers
                &&& account.login_state is NeedsDevice2FA
            }
        },
{
}

/// The trusted numbers are fetched exactly where a code is due and they are not known yet.
pub proof fn law_numbers_are_fetched_when_needed(
    account: AccountModel,
    session: LoginSession,
    event: EventModel,
)
    ensures
        says(account, session, event, ActionModel::FetchTrustedNumbers) <==> {
            &&& account.numbers is None
            &&& session.attempts < 15
            &&& device_code_is_due(account, session, event) || exists|id: u32| #[trigger]
                message_is_due(account, session, event, id)
        },
{
    let next = login::step(account, session, event);
    if says(account, session, event, ActionModel::FetchTrustedNumbers) {
        if next.account.login_state is NeedsSMS2FA {
            assert(message_is_due(
                account,
                session,
                event,
                next.account.login_state->NeedsSMS2FA_0,
            ));
        }
    }
}

/// The password is shown again exactly where a code was accepted, or the server says so.
pub proof fn law_accepted_codes_lead_back(
    account: AccountModel,
    session: LoginSession,
    event: EventModel,
)
    ensures
        says(account, session, event, ActionModel::Authenticate) <==> {
            &&& session.attempts < 15
            &&& {
                ||| session.awaiting == Awaited::DeviceCodeCheck && event is DeviceCodeChecked
                    && event->DeviceCodeChecked_0 is Ok
                ||| session.awaiting == Awaited::SmsCodeCheck && event
                    == EventModel::SmsCodeChecked(None)
                    && account.login_state is NeedsSMS2FAVerification
                ||| server_wants(session, event, LoginStateModel::NeedsLogin)
            }
        },
{
}

/// A sign-in finishes exactly where the server wants nothing more, or where it wants an unknown
/// further step but the account has its token all the same.
pub proof fn law_sign_in_finishes(account: AccountModel, session: LoginSession, event: EventModel)
    ensures
        says(account, session, event, ActionModel::Finish) <==> {
            ||| session.attempts < 15 && server_wants(session, event, LoginStateModel::LoggedIn)
            ||| {
                &&& session.attempts < 14
                &&& session.awaiting == Awaited::Authentication
                &&& event is Authenticated
                &&& event->Authenticated_0 is NeedsExtraStep
                &&& account::account_pet(account.spd) is Ok
            }
        },
{
}

/// Whether a service error lets a sign-in that has requested a message go on, and in which state.
pub open spec fn state_after_send_error(code: Seq<char>, id: u32) -> Option<LoginStateModel> {
    if code == "-28248"@ {
        Some(LoginStateModel::NeedsUnknown2FA)
    } else if code == "-22979"@ || code == "-22981"@ {
        Some(LoginStateModel::NeedsSMS2FAVerification(id))
    } else {
        None
    }
}

/// Whether a question follows in a state, with a note where there is a new one.
pub open spec fn question_follows(
    account: AccountModel,
    session: LoginSession,
    event: EventModel,
    state: LoginStateModel,
    note: Option<Seq<char>>,
) -> bool {
    let next = login::step(account, session, event);
    &&& next.account.login_state == state
    &&& next.account.last_error == (if note is Some {
        note
    } else {
        account.last_error
    })
    &&& next.result is Ok
    &&& next.result->Ok_0 is AskUser
}

/// A code that was sent to the devices is asked for.
pub proof fn law_sent_device_codes_are_asked_for(account: AccountModel, session: LoginSession)
    requires
        session.awaiting == Awaited::DeviceCodeSending,
        session.attempts < 15,
    ensures
        question_follows(
            account,
            session,
            EventModel::DeviceCodeSent,
            LoginStateModel::NeedsDevice2FAVerification,
            None,
        ),
{
}

/// A code that was sent by text message is asked for: from the number it was requested for, or from
/// the one that the service names instead.
pub proof fn law_sent_messages_are_asked_for(
    account: AccountModel,
    session: LoginSession,
    id: u32,
    actual: u32,
)
    requires
        session.awaiting == Awaited::SmsSending,
        session.attempts < 15,
        account.login_state == LoginStateModel::NeedsSMS2FA(id),
    ensures
        question_follows(
            account,
            session,
            EventModel::SmsSent(SmsOutcomeModel::Sent),
            LoginStateModel::NeedsSMS2FAVerification(id),
            None,
        ),
        question_follows(
            account,
            session,
            EventModel::SmsSent(SmsOutcomeModel::ActiveChallenge(actual)),
            LoginStateModel::NeedsSMS2FAVerification(actual),
            None,
        ),
{
}

/// Where the service refuses to send a message, the user learns the title and the message of the
/// refusal and may go on if the code of the refusal allows it; with any other code the sign-in
/// fails with that refusal.
pub proof fn law_refused_messages_are_told(
    account: AccountModel,
    session: LoginSession,
    id: u32,
    refusal: SmsErrorModel,
)
    requires
        session.awaiting == Awaited::SmsSending,
        session.attempts < 15,
        account.login_state == LoginStateModel::NeedsSMS2FA(id),
    ensures
        ({
            let event = EventModel::SmsSent(SmsOutcomeModel::ServiceError(refusal));
            match state_after_send_error(refusal.code, id) {
                Some(state) => question_follows(
                    account,
                    session,
                    event,
                    state,
                    Some(refusal.title + " - "@ + refusal.message),
                ),
                None => fails(account, session, event, ErrorModel::SmsSendRefused(refusal)),
            }
        }),
{
}

/// An incorrect code from a text message is told by the title and the message of the refusal and
/// asked for again; any other refusal fails.
pub proof fn law_refused_sms_codes_are_told(
    account: AccountModel,
    session: LoginSession,
    id: u32,
    refusal: SmsErrorModel,
)
    requires
        session.awaiting == Awaited::SmsCodeCheck,
        session.attempts < 15,
        account.login_state == LoginStateModel::NeedsSMS2FAVerification(id),
    ensures
        ({
            let event = EventModel::SmsCodeChecked(Some(refusal));
            if refusal.code == "-21669"@ {
                question_follows(
                    account,
                    session,
                    event,
                    LoginStateModel::NeedsSMS2FAVerification(id),
                    Some(refusal.title + " - "@ + refusal.message),
                )
            } else {
                fails(account, session, event, ErrorModel::SmsCodeRefused(refusal))
            }
        }),
{
}

/// An incorrect code from a trusted device is told by its number and message and asked for again;
/// any other rejection fails with all its causes.
pub proof fn law_rejected_device_codes_are_told(
    account: AccountModel,
    session: LoginSession,
    causes: Seq<CauseModel>,
    i: int,
)
    requires
        session.awaiting == Awaited::DeviceCodeCheck,
        session.attempts < 15,
    ensures
        ({
            let event = EventModel::DeviceCodeChecked(Err(causes));
            &&& complains_first(causes, i) ==> question_follows(
                account,
                session,
                event,
                LoginStateModel::NeedsDevice2FAVerification,
                Some("-21669 - "@ + causes[i]->AuthWithMessage_1),
            )
            &&& none_complains(causes) ==> fails(
                account,
                session,
                event,
                ErrorModel::DeviceCodeRejected(causes),
            )
        }),
{
    let message = causes[i]->AuthWithMessage_1;
    law_first_complaint_counts(causes, i);
    laws::lemma_incorrect_code_text();
    reveal_strlit("-21669 - ");
    reveal_strlit(" - ");
    assert(text::signed_decimal(-21669) + " - "@ + message =~= "-21669 - "@ + message);
}

/// A question comes only after a code was sent, after one was found incorrect, after a message was
/// refused, or where the server says so.
pub proof fn law_questions_have_a_cause(
    account: AccountModel,
    session: LoginSession,
    event: EventModel,
)
    requires
        login::step(account, session, event).result is Ok,
        login::step(account, session, event).result->Ok_0 is AskUser,
    ensures
        session.attempts < 15,
        match event {
            EventModel::Authenticated(state) => session.awaiting == Awaited::Authentication && (
            state is NeedsDevice2FAVerification || state is NeedsSMS2FAVerification
                || state is NeedsUnknown2FA),
            EventModel::DeviceCodeSent => session.awaiting == Awaited::DeviceCodeSending,
            EventModel::SmsSent(_) => session.awaiting == Awaited::SmsSending,
            EventModel::DeviceCodeChecked(Err(_)) => session.awaiting == Awaited::DeviceCodeCheck,
            EventModel::SmsCodeChecked(Some(_)) => session.awaiting == Awaited::SmsCodeCheck,
            _ => false,
        },
{
}

/// A question is of the kind that the state of the account stands for, names the number that a
/// code was sent to, and shows the last error and all trusted numbers.
pub proof fn law_questions_show_what_is_known(
    account: AccountModel,
    session: LoginSession,
    event: EventModel,
)
    requires
        login::step(account, session, event).result is Ok,
        login::step(account, session, event).result->Ok_0 is AskUser,
    ensures
        ({
            let next = login::step(account, session, event);
            let params = next.result->Ok_0->AskUser_0;
            &&& params.last_error == next.account.last_error
            &&& params.numbers == (if next.account.numbers is Some {
                next.account.numbers->0
            } else {
                Seq::empty()
            })
            &&& match next.account.login_state {
                LoginStateModel::NeedsDevice2FAVerification => !params.sms && !params.unknown
                    && params.selected_number_id is None,
                LoginStateModel::NeedsSMS2FAVerification(id) => params.sms && !params.unknown
                    && params.selected_number_id == Some(id),
                LoginStateModel::NeedsUnknown2FA => !params.sms && params.unknown
                    && params.selected_number_id is None,
                _ => false,
            }
        }),
{
}

/// What a session waits for is the outcome of the action that it said to take, or nothing once it
/// has ended. An event that it did not wait for leaves this as it was.
pub proof fn law_sessions_wait_for_the_outcome(
    account: AccountModel,
    session: LoginSession,
    event: EventModel,
)
    ensures
        ({
            let next = login::step(account, session, event);
            next.session.awaiting == match next.result {
                Ok(ActionModel::Authenticate) => Awaited::Authentication,
                Ok(ActionModel::FetchTrustedNumbers) => Awaited::TrustedNumbers,
                Ok(ActionModel::SendDeviceCode) => Awaited::DeviceCodeSending,
                Ok(ActionModel::SendSms(_)) => Awaited::SmsSending,
                Ok(ActionModel::AskUser(_)) => Awaited::UserResponse,
                Ok(ActionModel::SubmitDeviceCode(_)) => Awaited::DeviceCodeCheck,
                Ok(ActionModel::SubmitSmsCode(_, _)) => Awaited::SmsCodeCheck,
                Ok(ActionModel::Finish) => Awaited::Nothing,
                Err(ErrorModel::UnexpectedEvent) => session.awaiting,
                Err(_) => Awaited::Nothing,
            }
        }),
{
}

/// The state of the account fits the action that a step says to take.
pub proof fn law_states_fit_the_action(
    account: AccountModel,
    session: LoginSession,
    event: EventModel,
)
    ensures
        ({
            let next = login::step(account, session, event);
            let state = next.account.login_state;
            match next.result {
                Ok(ActionModel::Authenticate) => state is NeedsLogin,
                Ok(ActionModel::FetchTrustedNumbers) => {
                    ||| state is NeedsDevice2FA && device_code_is_due(account, session, event)
                    ||| state is NeedsSMS2FA && message_is_due(
                        account,
                        session,
                        event,
                        state->NeedsSMS2FA_0,
                    )
                },
                Ok(ActionModel::SendDeviceCode) => state is NeedsDevice2FA,
                Ok(ActionModel::SendSms(id)) => state == LoginStateModel::NeedsSMS2FA(id),
                Ok(ActionModel::AskUser(_)) => event is Authenticated ==> event
                    == EventModel::Authenticated(state),
                Ok(ActionModel::SubmitDeviceCode(_)) => state == account.login_state,
                Ok(ActionModel::SubmitSmsCode(_, _)) => state == account.login_state,
                Ok(ActionModel::Finish) => state is LoggedIn,
                Err(ErrorModel::AttemptsExhausted(last)) => state == last,
                Err(ErrorModel::AdditionalAuthentication(step)) => state
                    == LoginStateModel::NeedsExtraStep(step),
                Err(_) => state == account.login_state,
            }
        }),
{
}

/// A step that begins a round counts it; to submit a code or to take the trusted numbers belongs to
/// the round under way. A sign-in that finishes in spite of a further step has taken one round
/// more.
pub proof fn law_rounds_are_counted(account: AccountModel, session: LoginSession, event: EventModel)
    ensures
        ({
            let next = login::step(account, session, event);
            match next.result {
                Ok(ActionModel::SubmitDeviceCode(_)) | Ok(ActionModel::SubmitSmsCode(_, _)) =>
                    next.session.attempts == session.attempts,
                Ok(ActionModel::Finish) => next.session.attempts == session.attempts + (if event
                    == EventModel::Authenticated(LoginStateModel::LoggedIn) {
                    1int
                } else {
                    2
                }),
                Ok(_) => next.session.attempts == session.attempts + (if event is TrustedNumbers {
                    0int
                } else {
                    1
                }),
                Err(ErrorModel::AdditionalAuthentication(_)) => next.session.attempts
                    == session.attempts + 1,
                Err(ErrorModel::AttemptsExhausted(_)) => next.session.attempts == (
                if session.attempts < 15 {
                    15u32
                } else {
                    session.attempts
                }),
                Err(_) => next.session.attempts == session.attempts,
            }
        }),
{
}

/// What the user is told next changes in three ways only: an answer clears it, and a refusal that
/// the sign-in survives replaces it.
pub proof fn law_notes_come_and_go(account: AccountModel, session: LoginSession, event: EventModel)
    ensures
        ({
            let next = login::step(account, session, event);
            &&& next.result != Err::<ActionModel, ErrorModel>(ErrorModel::UnexpectedEvent)
                && event is UserResponse ==> next.account.last_error is None
            &&& match event {
                EventModel::Authenticated(_)
                | EventModel::TrustedNumbers(_)
                | EventModel::DeviceCodeSent
                | EventModel::SmsSent(SmsOutcomeModel::Sent)
                | EventModel::SmsSent(SmsOutcomeModel::ActiveChallenge(_))
                | EventModel::DeviceCodeChecked(Ok(_))
                | EventModel::SmsCodeChecked(None) => next.account.last_error
                    == account.last_error,
                EventModel::SmsSent(SmsOutcomeModel::ServiceError(error))
                | EventModel::SmsCodeChecked(Some(error)) => {
                    ||| next.account.last_error == account.last_error
                    ||| next.account.last_error == Some(error.title + " - "@ + error.message)
                },
                _ => true,
            }
        }),
{
}

/// A step changes nothing of an account but its state, the note for the user, and the trusted
/// numbers where these are what it was waiting for.
pub proof fn law_steps_touch_nothing_else(
    account: AccountModel,
    session: LoginSession,
    event: EventModel,
)
    ensures
        ({
            let next = login::step(account, session, event);
            &&& next.account.email == account.email
            &&& next.account.spd == account.spd
            &&& next.account.debug == account.debug
            &&& next.account.numbers == (if event is TrustedNumbers && next.result is Ok {
                Some(event->TrustedNumbers_0)
            } else {
                account.numbers
            })
        }),
{
}

/// A number is not found exactly where the user chooses one that is not trusted.
pub proof fn law_untrusted_numbers_are_refused(
    account: AccountModel,
    session: LoginSession,
    event: EventModel,
)
    ensures
        fails(account, session, event, ErrorModel::NumberNotFound) <==> exists|id: u32|
            {
                &&& #[trigger] is_answer(account, session, event, ResponseModel::SendSms(id))
                &&& !trusts(account, id)
            },
{
    if fails(account, session, event, ErrorModel::NumberNotFound) {
        let id = event->UserResponse_0->SendSms_0;
        assert(is_answer(account, session, event, ResponseModel::SendSms(id)));
        assert(!account::is_listed(account.numbers->0, id) || account.numbers is None);
    }
}

/// Codes can neither be submitted nor sent again exactly where no way of verification is known.
pub proof fn law_unknown_ways_take_no_code(
    account: AccountModel,
    session: LoginSession,
    event: EventModel,
)
    ensures
        fails(account, session, event, ErrorModel::CannotSubmitCode) <==> {
            &&& session.awaiting == Awaited::UserResponse
            &&& event is UserResponse
            &&& event->UserResponse_0 is SubmitCode
            &&& account.login_state is NeedsUnknown2FA
        },
        fails(account, session, event, ErrorModel::CannotResendCode) <==> {
            &&& is_answer(account, session, event, ResponseModel::ResendCode)
            &&& account.login_state is NeedsUnknown2FA
        },
{
}

/// A sign-in is aborted exactly where the user aborts it, and the error tells what was missing: a
/// code, or the choice of a way to get one.
pub proof fn law_only_the_user_aborts(
    account: AccountModel,
    session: LoginSession,
    event: EventModel,
)
    ensures
        fails(account, session, event, ErrorModel::NoCodeProvided) <==> {
            &&& is_answer(account, session, event, ResponseModel::Abort)
            &&& !(account.login_state is NeedsUnknown2FA)
        },
        fails(account, session, event, ErrorModel::NoMethodSelected) <==> {
            &&& is_answer(account, session, event, ResponseModel::Abort)
            &&& account.login_state is NeedsUnknown2FA
        },
{
}

/// A further step that the server wants is reported exactly where the account has no token.
pub proof fn law_unknown_steps_are_reported(
    account: AccountModel,
    session: LoginSession,
    event: EventModel,
    step: Seq<char>,
)
    ensures
        fails(account, session, event, ErrorModel::AdditionalAuthentication(step)) <==> {
            &&& server_wants(session, event, LoginStateModel::NeedsExtraStep(step))
            &&& account::account_pet(account.spd) is Err
            &&& session.attempts < 15
        },
{
}

/// A sign-in gives up only once all its rounds are begun.
pub proof fn law_attempts_are_used_up(
    account: AccountModel,
    session: LoginSession,
    event: EventModel,
    state: LoginStateModel,
)
    ensures
        fails(account, session, event, ErrorModel::AttemptsExhausted(state)) ==> {
            ||| session.attempts >= 15
            ||| {
                &&& session.attempts == 14
                &&& state is LoggedIn
                &&& session.awaiting == Awaited::Authentication
                &&& event is Authenticated
                &&& event->Authenticated_0 is NeedsExtraStep
                &&& account::account_pet(account.spd) is Ok
            }
        },
        session.attempts >= 15 && server_wants(session, event, state) ==> fails(
            account,
            session,
            event,
            ErrorModel::AttemptsExhausted(state),
        ),
        session.attempts == 14 && session.awaiting == Awaited::Authentication
            && event is Authenticated && event->Authenticated_0 is NeedsExtraStep
            && account::account_pet(account.spd) is Ok ==> fails(
            account,
            session,
            event,
            ErrorModel::AttemptsExhausted(LoginStateModel::LoggedIn),
        ),
{
}

/// A step fails with no other errors than those of the sign-in itself, and an error that holds what
/// was refused comes with that refusal only.
pub proof fn law_steps_fail_for_their_own_reasons(
    account: AccountModel,
    session: LoginSession,
    event: EventModel,
)
    requires
        login::step(account, session, event).result is Err,
    ensures
        match login::step(account, session, event).result->Err_0 {
            ErrorModel::AttemptsExhausted(_)
            | ErrorModel::NoCodeProvided
            | ErrorModel::AdditionalAuthentication(_)
            | ErrorModel::CannotSubmitCode
            | ErrorModel::CannotResendCode
            | ErrorModel::NoMethodSelected
            | ErrorModel::NumberNotFound
            | ErrorModel::UnexpectedEvent => true,
            ErrorModel::DeviceCodeRejected(causes) => session.awaiting == Awaited::DeviceCodeCheck
                && event == EventModel::DeviceCodeChecked(Err(causes)),
            ErrorModel::SmsSendRefused(error) => session.awaiting == Awaited::SmsSending && event
                == EventModel::SmsSent(SmsOutcomeModel::ServiceError(error)),
            ErrorModel::SmsCodeRefused(error) => session.awaiting == Awaited::SmsCodeCheck && event
                == EventModel::SmsCodeChecked(Some(error)),
            _ => false,
        },
{
}

/// The choice of a number leads to a message to it exactly where it is the id of a trusted number,
/// wherever in the list that stands.
pub proof fn law_chosen_numbers_get_the_message(account: AccountModel, id: u32)
    ensures
        trusts(account, id) ==> account::number_choice(account.numbers, id) == Ok::<
            LoginStateModel,
            ErrorModel,
        >(LoginStateModel::NeedsSMS2FA(id)),
        !trusts(account, id) ==> account::number_choice(account.numbers, id) == Err::<
            LoginStateModel,
            ErrorModel,
        >(ErrorModel::NumberNotFound),
{
}

} // verus!
