//! What holds of the library as a whole.

use crate::account;
use crate::account::AccountModel;
use crate::crypto;
use crate::error;
use crate::error::ErrorModel;
use crate::exchange;
use crate::exchange::PendingExchange;
use crate::login;
use crate::login::{ActionModel, Awaited, EventModel, LoginSession, MAX_ATTEMPTS};
use crate::plist_tree;
use crate::plist_tree::{EntriesModel, PlistModel};
use crate::privacy;
use crate::text;
use crate::token;
use crate::types::{CauseModel, LoginStateModel, ResponseModel, SmsErrorModel, SmsOutcomeModel};
use vstd::prelude::*;

verus! {

/// Whether an event is of the kind that a session waits for.
pub open spec fn answers(awaiting: Awaited, event: EventModel) -> bool {
    match awaiting {
        Awaited::Authentication => event is Authenticated,
        Awaited::TrustedNumbers => event is TrustedNumbers,
        Awaited::DeviceCodeSending => event is DeviceCodeSent,
        Awaited::SmsSending => event is SmsSent,
        Awaited::UserResponse => event is UserResponse,
        Awaited::DeviceCodeCheck => event is DeviceCodeChecked,
        Awaited::SmsCodeCheck => event is SmsCodeChecked,
        Awaited::Nothing => false,
    }
}

/// Whether a session and an account belong together: the session has not begun too many rounds, and
/// the account is in a state in which one waits for what the session waits for.
pub open spec fn consistent(account: AccountModel, session: LoginSession) -> bool {
    &&& session.attempts <= MAX_ATTEMPTS
    &&& match session.awaiting {
        Awaited::Authentication => true,
        Awaited::TrustedNumbers => account.numbers is None && (account.login_state is NeedsDevice2FA
            || account.login_state is NeedsSMS2FA),
        Awaited::DeviceCodeSending => account.numbers is Some
            && account.login_state is NeedsDevice2FA,
        Awaited::SmsSending => account.numbers is Some && account.login_state is NeedsSMS2FA,
        Awaited::UserResponse => account.login_state is NeedsDevice2FAVerification
            || account.login_state is NeedsSMS2FAVerification
            || account.login_state is NeedsUnknown2FA,
        Awaited::DeviceCodeCheck => account.last_error is None
            && account.login_state is NeedsDevice2FAVerification,
        Awaited::SmsCodeCheck => account.last_error is None
            && account.login_state is NeedsSMS2FAVerification,
        Awaited::Nothing => true,
    }
}

/// A session that has just been started belongs to any account.
pub proof fn law_start_is_consistent(account: AccountModel)
    ensures
        consistent(account, login::started()),
{
}

/// Whatever happens, a session and its account stay together.
pub proof fn law_step_keeps_consistency(
    account: AccountModel,
    session: LoginSession,
    event: EventModel,
)
    requires
        consistent(account, session),
    ensures
        consistent(
            login::step(account, session, event).account,
            login::step(account, session, event).session,
        ),
{
}

/// The event that a session waits for is never refused as unexpected.
pub proof fn law_awaited_event_is_taken(
    account: AccountModel,
    session: LoginSession,
    event: EventModel,
)
    requires
        consistent(account, session),
        answers(session.awaiting, event),
    ensures
        login::step(account, session, event).result != Err::<ActionModel, ErrorModel>(
            ErrorModel::UnexpectedEvent,
        ),
{
}

/// Any other event is refused and changes nothing.
pub proof fn law_other_events_change_nothing(
    account: AccountModel,
    session: LoginSession,
    event: EventModel,
)
    requires
        !answers(session.awaiting, event),
    ensures
        login::step(account, session, event).account == account,
        login::step(account, session, event).session == session,
        login::step(account, session, event).result == Err::<ActionModel, ErrorModel>(
            ErrorModel::UnexpectedEvent,
        ),
{
}

/// How many more events a session can take: two for each round that is left, and those that the
/// present round still waits for.
pub open spec fn events_left(session: LoginSession) -> int {
    2 * (MAX_ATTEMPTS - session.attempts) + match session.awaiting {
        Awaited::TrustedNumbers | Awaited::UserResponse => 2int,
        Awaited::Nothing => 0,
        _ => 1,
    }
}

/// Each event that a session takes brings it closer to its end.
pub proof fn law_each_event_makes_progress(
    account: AccountModel,
    session: LoginSession,
    event: EventModel,
)
    requires
        consistent(account, session),
        answers(session.awaiting, event),
    ensures
        0 <= events_left(login::step(account, session, event).session) < events_left(session),
{
}

/// Whether a session takes all events of a list, one after the other.
pub open spec fn takes_all(
    account: AccountModel,
    session: LoginSession,
    events: Seq<EventModel>,
) -> bool
    decreases events.len(),
{
    events.len() == 0 || {
        let next = login::step(account, session, events[0]);
        answers(session.awaiting, events[0]) && takes_all(
            next.account,
            next.session,
            events.skip(1),
        )
    }
}

/// A session takes no more events than it has left.
pub proof fn law_session_is_bounded(
    account: AccountModel,
    session: LoginSession,
    events: Seq<EventModel>,
)
    requires
        consistent(account, session),
        takes_all(account, session, events),
    ensures
        events.len() <= events_left(session),
    decreases events.len(),
{
    if events.len() > 0 {
        let next = login::step(account, session, events[0]);
        law_step_keeps_consistency(account, session, events[0]);
        law_each_event_makes_progress(account, session, events[0]);
        law_session_is_bounded(next.account, next.session, events.skip(1));
    }
}

/// Every sign-in ends: it takes at most two events for each of its rounds, and one to begin with.
pub proof fn law_every_login_ends(account: AccountModel, events: Seq<EventModel>)
    requires
        takes_all(account, login::started(), events),
    ensures
        events.len() <= 2 * MAX_ATTEMPTS + 1,
{
    law_session_is_bounded(account, login::started(), events);
}

/// A sign-in is said to be finished exactly where a step without error leaves the account signed
/// in.
pub proof fn law_finished_means_logged_in(
    account: AccountModel,
    session: LoginSession,
    event: EventModel,
)
    ensures
        login::step(account, session, event).result == Ok::<ActionModel, ErrorModel>(
            ActionModel::Finish,
        ) <==> {
            &&& login::step(account, session, event).result is Ok
            &&& login::step(account, session, event).account.login_state is LoggedIn
        },
{
}

/// Only the server can finish a sign-in: it asks for nothing more, or for a further step although
/// it has already handed out the password equivalent token.
pub proof fn law_only_authentication_finishes(
    account: AccountModel,
    session: LoginSession,
    event: EventModel,
)
    requires
        login::step(account, session, event).result == Ok::<ActionModel, ErrorModel>(
            ActionModel::Finish,
        ),
    ensures
        session.awaiting == Awaited::Authentication,
        event is Authenticated,
        event->Authenticated_0 is LoggedIn || {
            &&& event->Authenticated_0 is NeedsExtraStep
            &&& account::account_pet(account.spd) is Ok
        },
{
}

/// A sign-in leaves the address of the account, its data and its mode alone.
pub proof fn law_login_keeps_identity(
    account: AccountModel,
    session: LoginSession,
    event: EventModel,
)
    ensures
        login::step(account, session, event).account.email == account.email,
        login::step(account, session, event).account.spd == account.spd,
        login::step(account, session, event).account.debug == account.debug,
{
}

/// The trusted numbers are asked for only while they are unknown, and never replaced once known.
pub proof fn law_numbers_are_fetched_once(
    account: AccountModel,
    session: LoginSession,
    event: EventModel,
)
    requires
        consistent(account, session),
    ensures
        login::step(account, session, event).result == Ok::<ActionModel, ErrorModel>(
            ActionModel::FetchTrustedNumbers,
        ) ==> login::step(account, session, event).account.numbers is None,
        account.numbers is Some ==> login::step(account, session, event).account.numbers
            == account.numbers,
{
}

/// No code is requested before the trusted numbers are known.
pub proof fn law_codes_wait_for_numbers(
    account: AccountModel,
    session: LoginSession,
    event: EventModel,
)
    requires
        consistent(account, session),
        login::step(account, session, event).result is Ok,
        login::step(account, session, event).result->Ok_0 is SendDeviceCode
            || login::step(account, session, event).result->Ok_0 is SendSms,
    ensures
        login::step(account, session, event).account.numbers is Some,
{
}

/// Every question to the user shows the last error, the trusted numbers, and the way of
/// verification that the account's state stands for.
pub proof fn law_questions_tell_the_state(
    account: AccountModel,
    session: LoginSession,
    event: EventModel,
)
    requires
        login::step(account, session, event).result is Ok,
        login::step(account, session, event).result->Ok_0 is AskUser,
    ensures
        ({
            let next = login::step(account, session, event);
            let params = next.result->Ok_0->AskUser_0;
            &&& params.last_error == next.account.last_error
            &&& next.account.numbers is Some ==> params.numbers == next.account.numbers->0
            &&& params.unknown == (next.account.login_state is NeedsUnknown2FA)
            &&& params.sms == (next.account.login_state is NeedsSMS2FAVerification)
            &&& params.sms == (params.selected_number_id is Some)
            &&& params.sms ==> next.account.login_state
                == LoginStateModel::NeedsSMS2FAVerification(params.selected_number_id->0)
        }),
{
}

/// An error is shown once: the answer to the question that showed it clears it.
pub proof fn law_errors_are_shown_once(
    account: AccountModel,
    session: LoginSession,
    response: ResponseModel,
)
    requires
        consistent(account, session),
        session.awaiting == Awaited::UserResponse,
    ensures
        login::step(
            account,
            session,
            EventModel::UserResponse(response),
        ).account.last_error is None,
{
}

/// A user who aborts ends the sign-in with an error.
pub proof fn law_abort_ends_the_login(account: AccountModel, session: LoginSession)
    requires
        consistent(account, session),
        session.awaiting == Awaited::UserResponse,
    ensures
        ({
            let abort = EventModel::UserResponse(ResponseModel::Abort);
            let next = login::step(account, session, abort);
            &&& next.session.awaiting == Awaited::Nothing
            &&& next.result == Err::<ActionModel, ErrorModel>(
                if account.login_state is NeedsUnknown2FA {
                    ErrorModel::NoMethodSelected
                } else {
                    ErrorModel::NoCodeProvided
                },
            )
        }),
{
}

/// The number that the user chose gets a message if it is trusted, and is refused if it is not.
pub proof fn law_chosen_number_is_trusted(account: AccountModel, session: LoginSession, id: u32)
    requires
        consistent(account, session),
        session.awaiting == Awaited::UserResponse,
    ensures
        ({
            let chosen = EventModel::UserResponse(ResponseModel::SendSms(id));
            let trusted = account.numbers is Some && account::is_listed(account.numbers->0, id);
            let result = login::step(account, session, chosen).result;
            &&& trusted && session.attempts < MAX_ATTEMPTS ==> result == Ok::<
                ActionModel,
                ErrorModel,
            >(ActionModel::SendSms(id))
            &&& !trusted ==> result == Err::<ActionModel, ErrorModel>(ErrorModel::NumberNotFound)
        }),
{
}

/// A message is requested only where one is due: the server wants a code from it, or the user asks
/// for one, to a number of choice or once more to the same.
pub proof fn law_messages_are_asked_for(
    account: AccountModel,
    session: LoginSession,
    event: EventModel,
    id: u32,
)
    requires
        login::step(account, session, event).result == Ok::<ActionModel, ErrorModel>(
            ActionModel::SendSms(id),
        ),
    ensures
        match event {
            EventModel::Authenticated(state) => state == LoginStateModel::NeedsSMS2FA(id),
            EventModel::TrustedNumbers(_) => account.login_state == LoginStateModel::NeedsSMS2FA(id),
            EventModel::UserResponse(ResponseModel::SendSms(chosen)) => chosen == id,
            EventModel::UserResponse(ResponseModel::ResendCode) => account.login_state
                == LoginStateModel::NeedsSMS2FAVerification(id),
            _ => false,
        },
{
}

/// The question that follows on an error, with the error shown.
pub open spec fn asks_again(
    account: AccountModel,
    next: login::StepModel,
    note: Seq<char>,
) -> bool {
    &&& next.account == login::with_note(account, Some(note))
    &&& next.session.awaiting == Awaited::UserResponse
    &&& next.result == Ok::<ActionModel, ErrorModel>(
        ActionModel::AskUser(login::question(login::with_note(account, Some(note)))),
    )
}

/// A code from a trusted device that is merely incorrect may be entered again, and the user sees
/// why.
pub proof fn law_incorrect_device_code_is_asked_again(
    account: AccountModel,
    session: LoginSession,
    causes: Seq<CauseModel>,
)
    requires
        consistent(account, session),
        session.awaiting == Awaited::DeviceCodeCheck,
        session.attempts < MAX_ATTEMPTS,
        login::incorrect_code(causes) is Some,
    ensures
        asks_again(
            account,
            login::step(account, session, EventModel::DeviceCodeChecked(Err(causes))),
            "-21669 - "@ + login::incorrect_code(causes)->0,
        ),
{
    lemma_incorrect_code_text();
    reveal_strlit("-21669 - ");
    reveal_strlit(" - ");
    assert(text::signed_decimal(-21669) + " - "@ =~= "-21669 - "@);
    assert(text::signed_decimal(-21669) + " - "@ + login::incorrect_code(causes)->0
        =~= "-21669 - "@ + login::incorrect_code(causes)->0);
}

pub proof fn lemma_incorrect_code_text()
    ensures
        text::signed_decimal(-21669) =~= seq!['-', '2', '1', '6', '6', '9'],
{
    assert(text::decimal(2) =~= seq!['2']);
    assert(text::decimal(21) =~= seq!['2', '1']);
    assert(text::decimal(216) =~= seq!['2', '1', '6']);
    assert(text::decimal(2166) =~= seq!['2', '1', '6', '6']);
    assert(text::decimal(21669) =~= seq!['2', '1', '6', '6', '9']);
}

/// A code from a text message that is merely incorrect may be entered again for the same number,
/// and the user sees why.
pub proof fn law_incorrect_sms_code_is_asked_again(
    account: AccountModel,
    session: LoginSession,
    rejection: SmsErrorModel,
)
    requires
        consistent(account, session),
        session.awaiting == Awaited::SmsCodeCheck,
        session.attempts < MAX_ATTEMPTS,
        rejection.code == "-21669"@,
    ensures
        asks_again(
            account,
            login::step(account, session, EventModel::SmsCodeChecked(Some(rejection))),
            error::service_line(rejection),
        ),
{
}

/// Where the service refuses to send another message, the last code stays good: the user is asked
/// for it, for the same number, and no further message is requested.
pub proof fn law_refused_send_keeps_the_last_code(
    account: AccountModel,
    session: LoginSession,
    refusal: SmsErrorModel,
)
    requires
        consistent(account, session),
        session.awaiting == Awaited::SmsSending,
        session.attempts < MAX_ATTEMPTS,
        refusal.code == "-22979"@ || refusal.code == "-22981"@,
    ensures
        asks_again(
            login::in_state(
                account,
                LoginStateModel::NeedsSMS2FAVerification(account.login_state->NeedsSMS2FA_0),
            ),
            login::step(
                account,
                session,
                EventModel::SmsSent(SmsOutcomeModel::ServiceError(refusal)),
            ),
            error::service_line(refusal),
        ),
{
    reveal_strlit("-28248");
    reveal_strlit("-22979");
    reveal_strlit("-22981");
    assert("-28248"@[2] != "-22979"@[2]);
    assert("-28248"@[2] != "-22981"@[2]);
}

/// A code that was accepted leads to a new authentication, not yet to the end.
pub proof fn law_accepted_code_authenticates_again(account: AccountModel, session: LoginSession)
    requires
        consistent(account, session),
        session.attempts < MAX_ATTEMPTS,
    ensures
        session.awaiting == Awaited::DeviceCodeCheck ==> login::step(
            account,
            session,
            EventModel::DeviceCodeChecked(Ok(())),
        ).result == Ok::<ActionModel, ErrorModel>(ActionModel::Authenticate),
        session.awaiting == Awaited::SmsCodeCheck ==> login::step(
            account,
            session,
            EventModel::SmsCodeChecked(None),
        ).result == Ok::<ActionModel, ErrorModel>(ActionModel::Authenticate),
{
}

/// A session that has begun all its rounds begins no other: what would need one ends it.
pub proof fn law_last_round_is_the_last(
    account: AccountModel,
    session: LoginSession,
    event: EventModel,
)
    requires
        session.attempts >= MAX_ATTEMPTS,
    ensures
        login::step(account, session, event).session.attempts == session.attempts,
        login::step(account, session, event).result is Ok ==> {
            let action = login::step(account, session, event).result->Ok_0;
            action is SendDeviceCode || action is SendSms || action is SubmitDeviceCode
                || action is SubmitSmsCode
        },
{
}

/// Account data is taken only from a server that showed the right proof: an exchange that changes
/// the account ends with the reply holding it.
pub proof fn law_only_a_proven_server_is_believed(
    account: AccountModel,
    pending: PendingExchange,
    reply: EntriesModel,
)
    ensures
        exchange::exchanged(
            account,
            exchange::spd_in(reply, pending.server_proof(), pending.key@),
            reply,
        ).0 != account ==> {
            &&& plist_tree::data_at(reply, "M2"@) is Ok
            &&& pending.server_proof() == Some(plist_tree::data_at(reply, "M2"@)->Ok_0)
        },
{
}

/// After an exchange without error the account has data, and nothing but its data has changed.
pub proof fn law_exchange_brings_data(
    account: AccountModel,
    spd: Result<EntriesModel, ErrorModel>,
    reply: EntriesModel,
)
    requires
        exchange::exchanged(account, spd, reply).1 is Ok,
    ensures
        spd is Ok,
        exchange::exchanged(account, spd, reply).0 == (AccountModel {
            spd: Some(spd->Ok_0),
            ..account
        }),
{
}

/// The protocols that an opening request offers.
pub open spec fn offered_protocols(request: EntriesModel) -> Seq<PlistModel> {
    plist_tree::lookup(
        plist_tree::dictionary_at(request, "Request"@)->Ok_0,
        "ps"@,
    )->0->Array_0
}

/// The client takes exactly the protocols that it offers.
pub proof fn law_offered_protocols_are_taken(
    email: Seq<char>,
    public: Seq<u8>,
    cpd: EntriesModel,
    name: Seq<char>,
)
    ensures
        exchange::named_protocol(name) is Ok <==> offered_protocols(
            exchange::init_request(email, public, cpd),
        ).contains(PlistModel::String(name)),
{
    let request = exchange::init_request(email, public, cpd);
    reveal_strlit("Header");
    reveal_strlit("Request");
    reveal_strlit("A2k");
    reveal_strlit("cpd");
    reveal_strlit("o");
    reveal_strlit("ps");
    assert("Header"@[0] != "Request"@[0]);
    assert(request.skip(1)[0] == request[1]);
    reveal_with_fuel(plist_tree::lookup, 5);
    let body = request[1].1->Dictionary_0;
    assert(plist_tree::lookup(request, "Request"@) == Some(request[1].1));
    assert("A2k"@[0] != "ps"@[0]);
    assert("cpd"@[0] != "ps"@[0]);
    assert("o"@.len() != "ps"@.len());
    assert(body.skip(1)[0] == body[1]);
    assert(body.skip(1).skip(1)[0] == body[2]);
    assert(body.skip(1).skip(1).skip(1)[0] == body[3]);
    assert(plist_tree::lookup(body, "ps"@) == Some(body[3].1));
    let offered = offered_protocols(request);
    assert(offered == seq![PlistModel::String("s2k"@), PlistModel::String("s2k_fo"@)]);
    assert(offered[0] == PlistModel::String("s2k"@));
    assert(offered[1] == PlistModel::String("s2k_fo"@));
}

/// A full application name holds the service's prefix.
pub proof fn law_full_names_hold_the_prefix(app: Seq<char>)
    ensures
        text::contains_text(token::qualified(app), "com.apple.gs."@),
{
    let prefix = "com.apple.gs."@;
    if !text::contains_text(app, prefix) {
        assert((prefix + app).subrange(0, prefix.len() as int) =~= prefix);
        assert(text::occurs_at(prefix + app, prefix, 0));
    }
}

/// To complete a full application name changes nothing.
pub proof fn law_full_names_stay(app: Seq<char>)
    ensures
        token::qualified(token::qualified(app)) == token::qualified(app),
{
    law_full_names_hold_the_prefix(app);
}

/// A token is granted only by a document with status 200, for the application that was asked for.
pub proof fn law_tokens_need_success(spd: Option<EntriesModel>, app: Seq<char>, reply: EntriesModel)
    requires
        token::granted_token(spd, app, reply) is Ok,
    ensures
        ({
            let credentials = token::credentials_in(spd);
            let document = token::token_document(reply, credentials->Ok_0.session_key);
            &&& credentials is Ok
            &&& document is Ok
            &&& plist_tree::integer_at(document->Ok_0, "status-code"@) == Ok::<i64, ErrorModel>(200)
            &&& plist_tree::dictionary_at(
                plist_tree::dictionary_at(document->Ok_0, "t"@)->Ok_0,
                token::qualified(app),
            ) is Ok
        }),
{
}

/// A token frame holds its header, a nonce and a ciphertext with a tag, and nothing else: it is
/// taken apart into the nonce and the ciphertext that it was put together from.
pub proof fn law_frames_are_taken_apart(nonce: Seq<u8>, sealed: Seq<u8>)
    requires
        nonce.len() == 16,
        sealed.len() >= 16,
    ensures
        account::token_frame(account::token_header() + nonce + sealed) == Ok::<
            (Seq<u8>, Seq<u8>),
            ErrorModel,
        >((nonce, sealed)),
{
    let data = account::token_header() + nonce + sealed;
    assert(data.take(3) =~= account::token_header());
    assert(data.subrange(3, 19) =~= nonce);
    assert(data.skip(19) =~= sealed);
}

/// Only such frames are taken apart.
pub proof fn law_only_frames_are_taken_apart(data: Seq<u8>)
    requires
        account::token_frame(data) is Ok,
    ensures
        account::token_frame(data) matches Ok((nonce, sealed)) && {
            &&& nonce.len() == 16
            &&& sealed.len() >= 16
            &&& data == account::token_header() + nonce + sealed
        },
{
    assert(data =~= data.take(3) + data.subrange(3, 19) + data.skip(19));
}

/// The header and the tag of an encrypted token are both checked: a token that can be decrypted can
/// no longer be once one of them is changed.
pub proof fn law_changed_tokens_are_refused(data: Seq<u8>, changed: Seq<u8>, key: Seq<u8>)
    requires
        account::token_plaintext(data, key) is Ok,
        changed.len() == data.len(),
        changed != data,
        forall|i: int| 3 <= i < data.len() - 16 ==> #[trigger] changed[i] == data[i],
    ensures
        account::token_plaintext(changed, key) is Err,
{
    if account::token_plaintext(changed, key) is Ok {
        let sealed = data.skip(19);
        let other = changed.skip(19);
        let length = sealed.len() - 16;
        assert(changed.subrange(3, 19) =~= data.subrange(3, 19));
        assert(other.take(length) =~= sealed.take(length));
        assert(other.skip(length) == sealed.skip(length));
        assert forall|i: int| 0 <= i < data.len() implies changed[i] == data[i] by {
            if i < 3 {
                assert(changed[i] == changed.take(3)[i]);
                assert(data[i] == data.take(3)[i]);
            } else if i >= data.len() - 16 {
                assert(changed[i] == other.skip(length)[i - 19 - length]);
                assert(data[i] == sealed.skip(length)[i - 19 - length]);
            }
        }
        assert(changed =~= data);
    }
}

/// The blocks of some account data in the clear, under the two keys that are derived for it.
pub open spec fn account_data_blocks(key: Seq<u8>, data: Seq<u8>) -> Seq<u8> {
    crypto::aes256_cbc_blocks(
        account::session_key(key, "extra data key:"@),
        account::session_key(key, "extra data iv:"@).take(16),
        data,
    )
}

/// Account data whose blocks are a padded message gives the message back.
pub proof fn law_padded_account_data_is_read(key: Seq<u8>, data: Seq<u8>, message: Seq<u8>)
    requires
        account_data_blocks(key, data) == message + crypto::pkcs7_padding(message.len()),
        data.len() == account_data_blocks(key, data).len(),
    ensures
        account::spd_plaintext(key, data) == Ok::<Seq<u8>, ErrorModel>(message),
{
    let padding = crypto::pkcs7_padding(message.len());
    let padded = message + padding;
    assert(padded.last() == padding.last());
    assert(padded.take(padded.len() - padding.len()) =~= message);
    assert forall|i: int|
        padded.len() - padding.len() <= i < padded.len() implies #[trigger] padded[i]
        == padding.len() by {
        assert(padded[i] == padding[i - message.len()]);
    }
}

/// Account data without a block, with an incomplete block or with a wrong padding is refused.
pub proof fn law_malformed_account_data_is_refused(key: Seq<u8>, data: Seq<u8>)
    requires
        data.len() == 0 || data.len() % 16 != 0 || crypto::pkcs7_unpadded(
            account_data_blocks(key, data),
        ) is None,
    ensures
        account::spd_plaintext(key, data) == Err::<Seq<u8>, ErrorModel>(ErrorModel::SpdDecryption),
{
}

/// A censored address shows no more of a local part than its first character and, where it is not
/// short, its last: two addresses that agree in those and in the domain look the same.
pub proof fn law_censoring_hides_the_middle(left: Seq<char>, right: Seq<char>)
    requires
        privacy::domain_part(left) == privacy::domain_part(right),
        privacy::is_short(privacy::local_part(left)) == privacy::is_short(
            privacy::local_part(right),
        ),
        privacy::local_part(left).take(1) == privacy::local_part(right).take(1),
        !privacy::is_short(privacy::local_part(left)) ==> privacy::local_part(left).last()
            == privacy::local_part(right).last(),
    ensures
        privacy::censored(left) == privacy::censored(right),
{
    let a = privacy::local_part(left);
    let b = privacy::local_part(right);
    if !privacy::is_short(a) {
        assert(a.len() > 0 && b.len() > 0);
        assert(a.skip(a.len() - 1) =~= b.skip(b.len() - 1));
    }
}

} // verus!
