//! What holds of a whole sign-in, from its start on.

use crate::account::AccountModel;
use crate::error::ErrorModel;
use crate::exchange;
use crate::laws;
use crate::login;
use crate::login::{ActionModel, Awaited, EventModel, LoginSession, StepModel, MAX_ATTEMPTS};
use crate::login_laws;
use crate::plist_tree;
use crate::plist_tree::EntriesModel;
use crate::sms;
use crate::types::{
    LoginStateModel, ParamsModel, ResponseModel, SmsOutcomeModel, TrustedNumberModel,
};
use vstd::prelude::*;

verus! {

/// Something that comes back to a sign-in.
pub enum Happening {
    /// The end of an exchange of proofs: the account data, or why there is none, and the reply.
    Exchange { spd: Result<EntriesModel, ErrorModel>, reply: EntriesModel },
    /// The reply on trusted numbers, and the numbers that its parts hold.
    Numbers {
        status: u16,
        text: Seq<char>,
        listed: Option<Seq<TrustedNumberModel>>,
        single: Option<TrustedNumberModel>,
    },
    /// Any other event.
    Event(EventModel),
}

/// What a session does with what comes back. An exchange or a reply that fails ends it.
pub open spec fn happen(
    account: AccountModel,
    session: LoginSession,
    happening: Happening,
) -> StepModel {
    match happening {
        Happening::Exchange { spd, reply } => if session.awaiting == Awaited::Authentication {
            let (told, state) = exchange::exchanged(account, spd, reply);
            match state {
                Ok(state) => login::step(told, session, EventModel::Authenticated(state)),
                Err(error) => login::failed(told, session.attempts, error),
            }
        } else {
            StepModel { account, session, result: Err(ErrorModel::UnexpectedEvent) }
        },
        Happening::Numbers { status, text, listed, single } => if session.awaiting
            == Awaited::TrustedNumbers {
            match sms::trusted_numbers(status, text, listed, single) {
                Ok(numbers) => login::step(account, session, EventModel::TrustedNumbers(numbers)),
                Err(error) => login::failed(account, session.attempts, error),
            }
        } else {
            StepModel { account, session, result: Err(ErrorModel::UnexpectedEvent) }
        },
        Happening::Event(event) => login::step(account, session, event),
    }
}

/// Whether the states of the server come from exchanges, and the numbers from replies on them.
pub open spec fn is_sourced(happening: Happening) -> bool {
    match happening {
        Happening::Event(event) => !(event is Authenticated) && !(event is TrustedNumbers),
        _ => true,
    }
}

/// Whether this holds of all that came back.
pub open spec fn all_sourced(happenings: Seq<Happening>) -> bool {
    forall|i: int| 0 <= i < happenings.len() ==> is_sourced(#[trigger] happenings[i])
}

/// A sign-in to an account, after what has come back so far.
pub open spec fn run(account: AccountModel, happenings: Seq<Happening>) -> StepModel
    decreases happenings.len(),
{
    if happenings.len() == 0 {
        StepModel { account, session: login::started(), result: Ok(ActionModel::Authenticate) }
    } else {
        let before = run(account, happenings.drop_last());
        happen(before.account, before.session, happenings.last())
    }
}

/// The number whose text message challenge is open, if any: the one that a message was last
/// requested for, or the one that the service names instead.
pub open spec fn challenged_number(account: AccountModel, happenings: Seq<Happening>) -> Option<u32>
    decreases happenings.len(),
{
    if happenings.len() == 0 {
        None
    } else {
        let before = run(account, happenings.drop_last());
        match (before.session.awaiting, happenings.last(), before.account.login_state) {
            (
                Awaited::SmsSending,
                Happening::Event(EventModel::SmsSent(outcome)),
                LoginStateModel::NeedsSMS2FA(id),
            ) => match outcome {
                SmsOutcomeModel::ActiveChallenge(actual) => Some(actual),
                _ => Some(id),
            },
            _ => challenged_number(account, happenings.drop_last()),
        }
    }
}

/// Whether an action starts something new: a question, a request for a code, or another exchange.
pub open spec fn takes_a_round(result: Result<ActionModel, ErrorModel>) -> bool {
    match result {
        Ok(ActionModel::AskUser(_))
        | Ok(ActionModel::SendDeviceCode)
        | Ok(ActionModel::SendSms(_))
        | Ok(ActionModel::Authenticate) => true,
        _ => false,
    }
}

/// How many such actions a sign-in has taken after its first exchange.
pub open spec fn rounds_taken(account: AccountModel, happenings: Seq<Happening>) -> nat
    decreases happenings.len(),
{
    if happenings.len() == 0 {
        0
    } else {
        rounds_taken(account, happenings.drop_last()) + if takes_a_round(
            run(account, happenings).result,
        ) {
            1nat
        } else {
            0
        }
    }
}

/// What comes back keeps session and account together.
proof fn lemma_happening_keeps_consistency(
    account: AccountModel,
    session: LoginSession,
    happening: Happening,
)
    requires
        laws::consistent(account, session),
    ensures
        laws::consistent(
            happen(account, session, happening).account,
            happen(account, session, happening).session,
        ),
{
    match happening {
        Happening::Exchange { spd, reply } => {
            let (told, state) = exchange::exchanged(account, spd, reply);
            if session.awaiting == Awaited::Authentication && state is Ok {
                let event = EventModel::Authenticated(state->Ok_0);
                laws::law_step_keeps_consistency(told, session, event);
            }
        },
        Happening::Numbers { status, text, listed, single } => {
            let numbers = sms::trusted_numbers(status, text, listed, single);
            if numbers is Ok {
                let event = EventModel::TrustedNumbers(numbers->Ok_0);
                laws::law_step_keeps_consistency(account, session, event);
            }
        },
        Happening::Event(event) => {
            laws::law_step_keeps_consistency(account, session, event);
        },
    }
}

/// Session and account stay together throughout a sign-in.
pub proof fn law_runs_stay_consistent(account: AccountModel, happenings: Seq<Happening>)
    ensures
        laws::consistent(run(account, happenings).account, run(account, happenings).session),
    decreases happenings.len(),
{
    if happenings.len() > 0 {
        let before = run(account, happenings.drop_last());
        law_runs_stay_consistent(account, happenings.drop_last());
        lemma_happening_keeps_consistency(before.account, before.session, happenings.last());
    }
}

/// Whether a session waits for a code or for an answer to a question.
pub open spec fn awaits_user(awaiting: Awaited) -> bool {
    awaiting == Awaited::UserResponse || awaiting == Awaited::DeviceCodeCheck || awaiting
        == Awaited::SmsCodeCheck
}

/// A state of the server waits for no code yet.
proof fn lemma_authentication_asks_nothing(
    account: AccountModel,
    session: LoginSession,
    status: EntriesModel,
)
    requires
        session.awaiting == Awaited::Authentication,
    ensures
        ({
            let event = EventModel::Authenticated(exchange::wanted_state(status));
            let next = login::step(account, session, event);
            &&& !awaits_user(next.session.awaiting)
            &&& next.account.numbers == account.numbers
        }),
{
}

/// Where numbers are known before a code is waited for, an event keeps that so. Only a list of
/// numbers changes what is known.
proof fn lemma_event_keeps_numbers(account: AccountModel, session: LoginSession, event: EventModel)
    requires
        laws::consistent(account, session),
        awaits_user(session.awaiting) ==> account.numbers is Some,
        !(event is Authenticated),
    ensures
        ({
            let next = login::step(account, session, event);
            &&& awaits_user(next.session.awaiting) ==> next.account.numbers is Some
            &&& account.numbers is Some ==> next.account.numbers == account.numbers
            &&& !(event is TrustedNumbers) ==> next.account.numbers == account.numbers
            &&& event matches EventModel::TrustedNumbers(numbers) ==> next.account.numbers
                == account.numbers || next.account.numbers == Some(numbers)
        }),
{
}

/// Whether a session waits for a code from a text message to number `id`.
pub open spec fn awaits_code_for(account: AccountModel, session: LoginSession, id: u32) -> bool {
    awaits_user(session.awaiting) && account.login_state
        == LoginStateModel::NeedsSMS2FAVerification(id)
}

/// An event other than the outcome of a text message request starts to wait for a code from no
/// other number.
proof fn lemma_event_keeps_challenge(
    account: AccountModel,
    session: LoginSession,
    event: EventModel,
    id: u32,
)
    requires
        laws::consistent(account, session),
        !(event is Authenticated),
        awaits_code_for(
            login::step(account, session, event).account,
            login::step(account, session, event).session,
            id,
        ),
    ensures
        match event {
            EventModel::SmsSent(outcome) if session.awaiting == Awaited::SmsSending => id
                == match outcome {
                SmsOutcomeModel::ActiveChallenge(actual) => actual,
                _ => account.login_state->NeedsSMS2FA_0,
            },
            _ => awaits_code_for(account, session, id),
        },
{
}

/// The numbers that a sign-in knows are those that the account had at its start, or else such as
/// it has fetched, and then there is one. They are known whenever a code is waited for, and a code
/// from a text message is waited for from the number with the open challenge.
pub open spec fn is_informed(account: AccountModel, happenings: Seq<Happening>) -> bool {
    let now = run(account, happenings);
    &&& account.numbers is Some ==> now.account.numbers == account.numbers
    &&& account.numbers is None && now.account.numbers is Some ==> now.account.numbers->0.len() > 0
    &&& awaits_user(now.session.awaiting) ==> now.account.numbers is Some
    &&& forall|id: u32| #[trigger]
        awaits_code_for(now.account, now.session, id) ==> challenged_number(account, happenings)
            == Some(id)
}

/// One thing more that comes back leaves a sign-in informed.
proof fn lemma_happening_informs(account: AccountModel, happenings: Seq<Happening>)
    requires
        happenings.len() > 0,
        is_sourced(happenings.last()),
        is_informed(account, happenings.drop_last()),
    ensures
        is_informed(account, happenings),
{
    let before = run(account, happenings.drop_last());
    let now = run(account, happenings);
    law_runs_stay_consistent(account, happenings.drop_last());
    match happenings.last() {
        Happening::Exchange { spd, reply } => {
            let (told, state) = exchange::exchanged(before.account, spd, reply);
            if before.session.awaiting == Awaited::Authentication && state is Ok {
                let status = plist_tree::dictionary_at(reply, "Status"@)->Ok_0;
                lemma_authentication_asks_nothing(told, before.session, status);
            }
        },
        Happening::Numbers { status, text, listed, single } => {
            let numbers = sms::trusted_numbers(status, text, listed, single);
            if before.session.awaiting == Awaited::TrustedNumbers && numbers is Ok {
                let event = EventModel::TrustedNumbers(numbers->Ok_0);
                lemma_event_keeps_numbers(before.account, before.session, event);
                assert(numbers->Ok_0.len() > 0);
                assert forall|id: u32| #[trigger]
                    awaits_code_for(now.account, now.session, id) implies challenged_number(
                    account,
                    happenings,
                ) == Some(id) by {
                    lemma_event_keeps_challenge(before.account, before.session, event, id);
                }
            }
        },
        Happening::Event(event) => {
            lemma_event_keeps_numbers(before.account, before.session, event);
            assert forall|id: u32| #[trigger]
                awaits_code_for(now.account, now.session, id) implies challenged_number(
                account,
                happenings,
            ) == Some(id) by {
                lemma_event_keeps_challenge(before.account, before.session, event, id);
            }
        },
    }
}

/// A sign-in is informed throughout.
pub proof fn law_runs_are_informed(account: AccountModel, happenings: Seq<Happening>)
    requires
        all_sourced(happenings),
    ensures
        is_informed(account, happenings),
    decreases happenings.len(),
{
    if happenings.len() > 0 {
        let earlier = happenings.drop_last();
        assert forall|i: int| 0 <= i < earlier.len() implies is_sourced(#[trigger] earlier[i]) by {
            assert(earlier[i] == happenings[i]);
        }
        assert(is_sourced(happenings[happenings.len() - 1]));
        law_runs_are_informed(account, earlier);
        lemma_happening_informs(account, happenings);
    }
}

/// A question is asked in words that fit the account, and its answer waited for.
proof fn lemma_questions_await(account: AccountModel, session: LoginSession, happening: Happening)
    requires
        happen(account, session, happening).result is Ok,
        happen(account, session, happening).result->Ok_0 is AskUser,
    ensures
        ({
            let next = happen(account, session, happening);
            &&& next.session.awaiting == Awaited::UserResponse
            &&& next.result->Ok_0->AskUser_0 == login::question(next.account)
        }),
{
    match happening {
        Happening::Exchange { spd, reply } => {
            let (told, state) = exchange::exchanged(account, spd, reply);
            lemma_asked_questions(told, session, EventModel::Authenticated(state->Ok_0));
        },
        Happening::Numbers { status, text, listed, single } => {
            let numbers = sms::trusted_numbers(status, text, listed, single);
            lemma_asked_questions(account, session, EventModel::TrustedNumbers(numbers->Ok_0));
        },
        Happening::Event(event) => {
            lemma_asked_questions(account, session, event);
        },
    }
}

proof fn lemma_asked_questions(account: AccountModel, session: LoginSession, event: EventModel)
    requires
        login::step(account, session, event).result is Ok,
        login::step(account, session, event).result->Ok_0 is AskUser,
    ensures
        ({
            let next = login::step(account, session, event);
            &&& next.session.awaiting == Awaited::UserResponse
            &&& next.result->Ok_0->AskUser_0 == login::question(next.account)
        }),
{
}

/// Every question of a sign-in shows the numbers that the account knows, and these are known;
/// where they were fetched for this sign-in, there is at least one. A question is never both about
/// a text message and about an unknown way; it names a number exactly where it is about a text
/// message, and then the one with the open challenge.
pub proof fn law_questions_of_a_run(account: AccountModel, happenings: Seq<Happening>)
    requires
        all_sourced(happenings),
        run(account, happenings).result is Ok,
        run(account, happenings).result->Ok_0 is AskUser,
    ensures
        ({
            let now = run(account, happenings);
            let params = now.result->Ok_0->AskUser_0;
            &&& now.account.numbers == Some(params.numbers)
            &&& account.numbers is Some ==> account.numbers == Some(params.numbers)
            &&& account.numbers is None ==> params.numbers.len() > 0
            &&& !(params.sms && params.unknown)
            &&& params.sms == (params.selected_number_id is Some)
            &&& params.sms ==> params.selected_number_id == challenged_number(account, happenings)
        }),
{
    law_runs_are_informed(account, happenings);
    let before = run(account, happenings.drop_last());
    let now = run(account, happenings);
    lemma_questions_await(before.account, before.session, happenings.last());
    if now.account.login_state is NeedsSMS2FAVerification {
        assert(awaits_code_for(
            now.account,
            now.session,
            now.account.login_state->NeedsSMS2FAVerification_0,
        ));
    }
}

/// The question that was asked last in a sign-in, if any.
pub open spec fn last_question(account: AccountModel, happenings: Seq<Happening>) -> Option<
    ParamsModel,
>
    decreases happenings.len(),
{
    match run(account, happenings).result {
        Ok(ActionModel::AskUser(params)) => Some(params),
        _ => if happenings.len() == 0 {
            None
        } else {
            last_question(account, happenings.drop_last())
        },
    }
}

/// A session that waits for an answer has either just asked or taken no notice of an event.
proof fn lemma_open_questions(account: AccountModel, session: LoginSession, happening: Happening)
    requires
        happen(account, session, happening).session.awaiting == Awaited::UserResponse,
    ensures
        ({
            let next = happen(account, session, happening);
            ||| next.result is Ok && next.result->Ok_0 is AskUser
            ||| {
                &&& !(next.result is Ok)
                &&& next.session == session
                &&& next.account == account
            }
        }),
{
    match happening {
        Happening::Exchange { spd, reply } => {
            let (told, state) = exchange::exchanged(account, spd, reply);
            lemma_open_after_event(told, session, EventModel::Authenticated(state->Ok_0));
        },
        Happening::Numbers { status, text, listed, single } => {
            let numbers = sms::trusted_numbers(status, text, listed, single);
            lemma_open_after_event(account, session, EventModel::TrustedNumbers(numbers->Ok_0));
        },
        Happening::Event(event) => {
            lemma_open_after_event(account, session, event);
        },
    }
}

proof fn lemma_open_after_event(account: AccountModel, session: LoginSession, event: EventModel)
    requires
        login::step(account, session, event).session.awaiting == Awaited::UserResponse,
    ensures
        ({
            let next = login::step(account, session, event);
            ||| next.result is Ok && next.result->Ok_0 is AskUser
            ||| {
                &&& !(next.result is Ok)
                &&& next.session == session
                &&& next.account == account
                &&& session.awaiting == Awaited::UserResponse
            }
        }),
{
}

/// While an answer is waited for, the question that was asked last is the one that fits the
/// account.
pub proof fn law_open_questions_fit_the_account(
    account: AccountModel,
    happenings: Seq<Happening>,
)
    requires
        run(account, happenings).session.awaiting == Awaited::UserResponse,
    ensures
        ({
            let now = run(account, happenings);
            let asked = last_question(account, happenings);
            &&& asked is Some
            &&& asked->0.last_error == now.account.last_error
            &&& asked->0.selected_number_id == match now.account.login_state {
                LoginStateModel::NeedsSMS2FAVerification(id) => Some(id),
                _ => None,
            }
        }),
    decreases happenings.len(),
{
    let before = run(account, happenings.drop_last());
    let now = run(account, happenings);
    lemma_open_questions(before.account, before.session, happenings.last());
    if now.result is Ok {
        lemma_questions_await(before.account, before.session, happenings.last());
    } else {
        law_open_questions_fit_the_account(account, happenings.drop_last());
    }
}

/// A code from a text message is submitted only as the user has just entered it, and for the number
/// with the open challenge, which is the one that the question just answered named.
pub proof fn law_codes_of_a_run_go_to_the_challenged_number(
    account: AccountModel,
    happenings: Seq<Happening>,
    code: Seq<char>,
    id: u32,
)
    requires
        all_sourced(happenings),
        run(account, happenings).result == Ok::<ActionModel, ErrorModel>(
            ActionModel::SubmitSmsCode(code, id),
        ),
    ensures
        happenings.len() > 0,
        happenings.last() == Happening::Event(
            EventModel::UserResponse(ResponseModel::SubmitCode(code)),
        ),
        challenged_number(account, happenings) == Some(id),
        last_question(account, happenings) is Some,
        last_question(account, happenings)->0.sms,
        last_question(account, happenings)->0.selected_number_id == Some(id),
{
    let before = run(account, happenings.drop_last());
    let now = run(account, happenings);
    assert(is_sourced(happenings[happenings.len() - 1]));
    law_runs_are_informed(account, happenings);
    match happenings.last() {
        Happening::Event(event) => {
            login_laws::law_sms_codes_go_to_their_number(
                before.account,
                before.session,
                event,
                code,
                id,
            );
        },
        Happening::Exchange { spd, reply } => {
            let (told, state) = exchange::exchanged(before.account, spd, reply);
            login_laws::law_sms_codes_go_to_their_number(
                told,
                before.session,
                EventModel::Authenticated(state->Ok_0),
                code,
                id,
            );
        },
        Happening::Numbers { status, text, listed, single } => {
            let numbers = sms::trusted_numbers(status, text, listed, single);
            login_laws::law_sms_codes_go_to_their_number(
                before.account,
                before.session,
                EventModel::TrustedNumbers(numbers->Ok_0),
                code,
                id,
            );
        },
    }
    assert(awaits_code_for(now.account, now.session, id));
    law_open_questions_fit_the_account(account, happenings.drop_last());
    law_asked_questions_name_numbers(account, happenings.drop_last());
}

/// A question names a number exactly where it is about a text message.
pub proof fn law_asked_questions_name_numbers(account: AccountModel, happenings: Seq<Happening>)
    requires
        last_question(account, happenings) is Some,
    ensures
        last_question(account, happenings)->0.sms == (last_question(
            account,
            happenings,
        )->0.selected_number_id is Some),
    decreases happenings.len(),
{
    if happenings.len() > 0 {
        let before = run(account, happenings.drop_last());
        let now = run(account, happenings);
        if now.result is Ok && now.result->Ok_0 is AskUser {
            lemma_questions_await(before.account, before.session, happenings.last());
        } else {
            law_asked_questions_name_numbers(account, happenings.drop_last());
        }
    }
}

/// The numbers that a reply lists become those of the account, each at its place, where the session
/// was waiting for them.
pub proof fn law_fetched_numbers_are_kept(
    account: AccountModel,
    session: LoginSession,
    status: u16,
    text: Seq<char>,
    listed: Seq<TrustedNumberModel>,
    single: Option<TrustedNumberModel>,
)
    requires
        laws::consistent(account, session),
        session.awaiting == Awaited::TrustedNumbers,
        listed.len() > 0,
    ensures
        ({
            let happening = Happening::Numbers { status, text, listed: Some(listed), single };
            let numbers = happen(account, session, happening).account.numbers;
            &&& numbers is Some
            &&& numbers->0.len() == listed.len()
            &&& forall|i: int| 0 <= i < listed.len() ==> #[trigger] numbers->0[i] == listed[i]
        }),
{
}

/// A sign-in that finishes leaves the account signed in and with account data.
pub proof fn law_finished_runs_have_data(account: AccountModel, happenings: Seq<Happening>)
    requires
        all_sourced(happenings),
        run(account, happenings).result == Ok::<ActionModel, ErrorModel>(ActionModel::Finish),
    ensures
        run(account, happenings).account.login_state is LoggedIn,
        run(account, happenings).account.spd is Some,
{
    assert(is_sourced(happenings[happenings.len() - 1]));
}

/// One if a session still waits for numbers in its round, else zero.
pub open spec fn round_pending(session: LoginSession) -> int {
    if session.awaiting == Awaited::TrustedNumbers {
        1
    } else {
        0
    }
}

proof fn lemma_event_takes_rounds(account: AccountModel, session: LoginSession, event: EventModel)
    requires
        laws::consistent(account, session),
    ensures
        ({
            let next = login::step(account, session, event);
            (if takes_a_round(next.result) {
                1int
            } else {
                0
            }) + round_pending(next.session) - round_pending(session) <= next.session.attempts
                - session.attempts
        }),
{
}

/// What comes back takes no more rounds than the session counts.
proof fn lemma_happening_takes_rounds(
    account: AccountModel,
    session: LoginSession,
    happening: Happening,
)
    requires
        laws::consistent(account, session),
    ensures
        ({
            let next = happen(account, session, happening);
            (if takes_a_round(next.result) {
                1int
            } else {
                0
            }) + round_pending(next.session) - round_pending(session) <= next.session.attempts
                - session.attempts
        }),
{
    match happening {
        Happening::Exchange { spd, reply } => {
            let (told, state) = exchange::exchanged(account, spd, reply);
            if session.awaiting == Awaited::Authentication && state is Ok {
                lemma_event_takes_rounds(told, session, EventModel::Authenticated(state->Ok_0));
            }
        },
        Happening::Numbers { status, text, listed, single } => {
            let numbers = sms::trusted_numbers(status, text, listed, single);
            if numbers is Ok {
                let event = EventModel::TrustedNumbers(numbers->Ok_0);
                lemma_event_takes_rounds(account, session, event);
            }
        },
        Happening::Event(event) => {
            lemma_event_takes_rounds(account, session, event);
        },
    }
}

/// The questions, the requests for codes and the further exchanges of a sign-in are together no
/// more than its rounds.
pub proof fn law_rounds_are_limited(account: AccountModel, happenings: Seq<Happening>)
    ensures
        rounds_taken(account, happenings) + round_pending(run(account, happenings).session)
            <= run(account, happenings).session.attempts,
        rounds_taken(account, happenings) <= MAX_ATTEMPTS,
    decreases happenings.len(),
{
    law_runs_stay_consistent(account, happenings);
    if happenings.len() > 0 {
        let before = run(account, happenings.drop_last());
        law_runs_stay_consistent(account, happenings.drop_last());
        law_rounds_are_limited(account, happenings.drop_last());
        lemma_happening_takes_rounds(before.account, before.session, happenings.last());
    }
}

} // verus!
