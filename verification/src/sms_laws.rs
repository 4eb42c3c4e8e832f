//! What is sent to the text message service, and what is taken from its replies.

use crate::error::{ErrorModel, PlistSource};
use crate::json_tree;
use crate::json_tree::JsonModel;
use crate::plist_tree;
use crate::plist_tree::EntriesModel;
use crate::reading_laws;
use crate::sms;
use crate::text;
use crate::types::{SmsChallengeResponse, SmsErrorModel, SmsOutcomeModel, TrustedNumberModel};
use vstd::prelude::*;
use vstd::utf8::*;

verus! {

/// What a value holds under one key within another.
pub open spec fn nested(value: JsonModel, outer: Seq<char>, inner: Seq<char>) -> Option<JsonModel> {
    match value.member(outer) {
        Some(held) => held.member(inner),
        None => None,
    }
}

/// A number by its decimal notation.
pub open spec fn numeral(id: u32) -> JsonModel {
    JsonModel::Number(text::decimal(id as nat))
}

/// A request for a message names the number by its id alone and asks for a text message, and holds
/// nothing else.
pub proof fn law_send_bodies_name_the_number(id: u32, key: Seq<char>)
    ensures
        nested(sms::send_body(id), "phoneNumber"@, "id"@) == Some(numeral(id)),
        key != "id"@ ==> nested(sms::send_body(id), "phoneNumber"@, key) is None,
        sms::send_body(id).member("mode"@) == Some(JsonModel::String("sms"@)),
        key != "phoneNumber"@ && key != "mode"@ ==> sms::send_body(id).member(key) is None,
{
    let entries = seq![
        ("phoneNumber"@, sms::phone_body(id)),
        ("mode"@, JsonModel::String("sms"@)),
    ];
    let phone = seq![("id"@, numeral(id))];
    sms::lemma_body_keys_differ();
    reading_laws::law_last_entry_is_the_member(entries, 0);
    reading_laws::law_last_entry_is_the_member(entries, 1);
    reading_laws::law_last_entry_is_the_member(phone, 0);
    if key != "phoneNumber"@ && key != "mode"@ {
        reading_laws::law_objects_have_no_other_members(entries, key);
    }
    if key != "id"@ {
        reading_laws::law_objects_have_no_other_members(phone, key);
    }
}

/// A submission holds the code as it was entered and names the number that it came to, for a text
/// message, and holds nothing else.
pub proof fn law_code_bodies_hold_the_code(code: Seq<char>, id: u32, key: Seq<char>)
    ensures
        nested(sms::code_body(code, id), "securityCode"@, "code"@) == Some(JsonModel::String(code)),
        key != "code"@ ==> nested(sms::code_body(code, id), "securityCode"@, key) is None,
        nested(sms::code_body(code, id), "phoneNumber"@, "id"@) == Some(numeral(id)),
        key != "id"@ ==> nested(sms::code_body(code, id), "phoneNumber"@, key) is None,
        sms::code_body(code, id).member("mode"@) == Some(JsonModel::String("sms"@)),
        key != "phoneNumber"@ && key != "mode"@ && key != "securityCode"@ ==> sms::code_body(
            code,
            id,
        ).member(key) is None,
{
    let inner = seq![("code"@, JsonModel::String(code))];
    let entries = seq![
        ("securityCode"@, JsonModel::Object(json_tree::members(inner))),
        ("phoneNumber"@, sms::phone_body(id)),
        ("mode"@, JsonModel::String("sms"@)),
    ];
    let phone = seq![("id"@, numeral(id))];
    sms::lemma_body_keys_differ();
    reading_laws::law_last_entry_is_the_member(inner, 0);
    reading_laws::law_last_entry_is_the_member(entries, 0);
    reading_laws::law_last_entry_is_the_member(entries, 1);
    reading_laws::law_last_entry_is_the_member(entries, 2);
    reading_laws::law_last_entry_is_the_member(phone, 0);
    if key != "phoneNumber"@ && key != "mode"@ && key != "securityCode"@ {
        reading_laws::law_objects_have_no_other_members(entries, key);
    }
    if key != "code"@ {
        reading_laws::law_objects_have_no_other_members(inner, key);
    }
    if key != "id"@ {
        reading_laws::law_objects_have_no_other_members(phone, key);
    }
}

/// Requests for different numbers, and submissions of different codes or for different numbers,
/// differ.
pub proof fn law_bodies_tell_numbers_and_codes_apart(
    code: Seq<char>,
    id: u32,
    other_code: Seq<char>,
    other_id: u32,
)
    ensures
        sms::send_body(id) == sms::send_body(other_id) ==> id == other_id,
        sms::code_body(code, id) == sms::code_body(other_code, other_id) ==> code == other_code
            && id == other_id,
{
    law_send_bodies_name_the_number(id, "id"@);
    law_send_bodies_name_the_number(other_id, "id"@);
    law_code_bodies_hold_the_code(code, id, "id"@);
    law_code_bodies_hold_the_code(other_code, other_id, "id"@);
    reading_laws::law_decimals_stand_for_their_number(id as nat);
    reading_laws::law_decimals_stand_for_their_number(other_id as nat);
}

/// The text under a key of a service error, where there is one.
pub open spec fn given_text(error: JsonModel, key: Seq<char>) -> Option<Seq<char>> {
    match error.member(key) {
        Some(JsonModel::String(text)) => Some(text),
        _ => None,
    }
}

/// The error that a document reports is the first in its list: each of its three parts is what that
/// entry holds under its own key, or the words that stand for a missing one, whatever the other
/// parts and the other errors are.
pub proof fn law_first_service_error_is_reported(
    document: JsonModel,
    errors: Seq<JsonModel>,
)
    requires
        document.member("serviceErrors"@) == Some(JsonModel::Array(errors)),
        errors.len() > 0,
    ensures
        ({
            let reported = sms::service_error_in(document);
            let code = given_text(errors[0], "code"@);
            let title = given_text(errors[0], "title"@);
            let message = given_text(errors[0], "message"@);
            &&& reported is Some
            &&& code is Some ==> reported->0.code == code->0
            &&& code is None ==> reported->0.code == "unknown"@
            &&& title is Some ==> reported->0.title == title->0
            &&& title is None ==> reported->0.title == "No title provided"@
            &&& message is Some ==> reported->0.message == message->0
            &&& message is None ==> reported->0.message == "No message provided"@
        }),
{
}

/// A document without a list of errors, or with an empty one, reports none, and neither does a text
/// that is no document.
pub proof fn law_nothing_else_is_a_service_error(document: JsonModel, reply: Seq<char>)
    ensures
        document.member("serviceErrors"@) is None ==> sms::service_error_in(document) is None,
        document.member("serviceErrors"@) matches Some(list) && !(list is Array)
            ==> sms::service_error_in(document) is None,
        document.member("serviceErrors"@) matches Some(JsonModel::Array(errors)) && errors.len()
            == 0 ==> sms::service_error_in(document) is None,
        json_tree::parsed_json(reply) is None ==> sms::reported_error(reply) is None,
        json_tree::parsed_json(reply) == Some(document) ==> sms::reported_error(reply)
            == sms::service_error_in(document),
{
}

/// Whether a status reports success: any from 200 up to 299.
pub open spec fn succeeded(status: u16) -> bool {
    status / 100 == 2
}

/// A message counts as sent exactly where the status reports success, whatever the reply holds.
pub proof fn law_success_means_sent(
    status: u16,
    reply: Seq<char>,
    reported: Option<SmsErrorModel>,
    challenge: Option<SmsChallengeResponse>,
)
    ensures
        sms::send_outcome(status, reply, reported, challenge) == Ok::<SmsOutcomeModel, ErrorModel>(
            SmsOutcomeModel::Sent,
        ) <==> succeeded(status),
{
}

/// A service error is handed on as it was reported, exactly where the status reports no success. It
/// comes before any challenge.
pub proof fn law_service_errors_are_handed_on(
    status: u16,
    reply: Seq<char>,
    reported: Option<SmsErrorModel>,
    challenge: Option<SmsChallengeResponse>,
    error: SmsErrorModel,
)
    ensures
        sms::send_outcome(status, reply, reported, challenge) == Ok::<SmsOutcomeModel, ErrorModel>(
            SmsOutcomeModel::ServiceError(error),
        ) <==> !succeeded(status) && reported == Some(error),
{
}

/// An open challenge leads to the number that it names as its own, whatever its list of numbers
/// holds, and nothing else leads to a number.
pub proof fn law_open_challenges_name_their_number(
    status: u16,
    reply: Seq<char>,
    reported: Option<SmsErrorModel>,
    challenge: Option<SmsChallengeResponse>,
    id: u32,
)
    ensures
        sms::send_outcome(status, reply, reported, challenge) == Ok::<SmsOutcomeModel, ErrorModel>(
            SmsOutcomeModel::ActiveChallenge(id),
        ) <==> {
            &&& status == 412
            &&& reported is None
            &&& challenge is Some
            &&& sms::is_open(challenge->0)
            &&& challenge->0.trusted_phone_number.id == id
        },
{
}

/// A challenge that is closed in any one way is not open: it is of another kind, lists no number,
/// asks for another length, or its code is overused, locked or cooling down.
pub proof fn law_closed_challenges_stay_closed(challenge: SmsChallengeResponse)
    ensures
        challenge.mode@ != "sms"@ ==> !sms::is_open(challenge),
        challenge.challenge_type@ != "verification"@ ==> !sms::is_open(challenge),
        challenge.authentication_type@ != "hsa2"@ ==> !sms::is_open(challenge),
        challenge.trusted_phone_numbers@.len() == 0 ==> !sms::is_open(challenge),
        challenge.security_code.length != 6 ==> !sms::is_open(challenge),
        challenge.security_code.too_many_codes_sent ==> !sms::is_open(challenge),
        challenge.security_code.too_many_codes_validated ==> !sms::is_open(challenge),
        challenge.security_code.security_code_locked ==> !sms::is_open(challenge),
        challenge.security_code.security_code_cooldown ==> !sms::is_open(challenge),
{
}

/// A challenge that is closed in none of these ways is open, whatever else it holds.
pub proof fn law_other_challenges_are_open(challenge: SmsChallengeResponse)
    requires
        challenge.mode@ == "sms"@,
        challenge.challenge_type@ == "verification"@,
        challenge.authentication_type@ == "hsa2"@,
        challenge.trusted_phone_numbers@.len() > 0,
        challenge.security_code.length == 6,
        !challenge.security_code.too_many_codes_sent,
        !challenge.security_code.too_many_codes_validated,
        !challenge.security_code.security_code_locked,
        !challenge.security_code.security_code_cooldown,
    ensures
        sms::is_open(challenge),
{
}

/// A reply that means none of these is an error, which tells the status and the whole reply.
pub proof fn law_other_send_replies_fail(
    status: u16,
    reply: Seq<char>,
    reported: Option<SmsErrorModel>,
    challenge: Option<SmsChallengeResponse>,
)
    requires
        !succeeded(status),
        reported is None,
        status != 412 || challenge is None || !sms::is_open(challenge->0),
    ensures
        sms::send_outcome(status, reply, reported, challenge) == Err::<SmsOutcomeModel, ErrorModel>(
            ErrorModel::SmsSendStatus(status, reply),
        ),
{
}

/// Nothing is held against a code exactly where the status reports success. Else the service error
/// is, and without one the reply is an error that tells the status and the whole reply.
pub proof fn law_codes_are_judged_by_the_status(
    status: u16,
    reply: Seq<char>,
    reported: Option<SmsErrorModel>,
)
    ensures
        ({
            let verdict = sms::code_verdict(status, reply, reported);
            &&& succeeded(status) <==> verdict == Ok::<Option<SmsErrorModel>, ErrorModel>(None)
            &&& !succeeded(status) && reported is Some ==> verdict == Ok::<
                Option<SmsErrorModel>,
                ErrorModel,
            >(reported)
            &&& !succeeded(status) && reported is None ==> verdict == Err::<
                Option<SmsErrorModel>,
                ErrorModel,
            >(ErrorModel::SmsCodeStatus(status, reply))
        }),
{
}

/// Where a reply lists numbers, all of them are trusted, each at its place, and a single number
/// does not matter.
pub proof fn law_listed_numbers_are_all_trusted(
    status: u16,
    reply: Seq<char>,
    listed: Seq<TrustedNumberModel>,
    single: Option<TrustedNumberModel>,
)
    requires
        listed.len() > 0,
    ensures
        sms::trusted_numbers(status, reply, Some(listed), single) is Ok,
        sms::trusted_numbers(status, reply, Some(listed), single)->Ok_0.len() == listed.len(),
        forall|i: int|
            0 <= i < listed.len() ==> #[trigger] sms::trusted_numbers(
                status,
                reply,
                Some(listed),
                single,
            )->Ok_0[i] == listed[i],
{
}

/// Where a reply lists none, the single number is the one that is trusted; without it there is
/// none, and the error tells the status and the whole reply.
pub proof fn law_single_number_stands_in(
    status: u16,
    reply: Seq<char>,
    listed: Option<Seq<TrustedNumberModel>>,
    single: TrustedNumberModel,
)
    requires
        listed is None || listed->0.len() == 0,
    ensures
        sms::trusted_numbers(status, reply, listed, Some(single)) is Ok,
        sms::trusted_numbers(status, reply, listed, Some(single))->Ok_0.len() == 1,
        sms::trusted_numbers(status, reply, listed, Some(single))->Ok_0[0] == single,
        sms::trusted_numbers(status, reply, listed, None) == Err::<
            Seq<TrustedNumberModel>,
            ErrorModel,
        >(ErrorModel::NumbersUnavailable(status, reply)),
{
}

/// A part of a reply is handed on as its JSON text exactly where the reply is a document that has
/// it.
pub proof fn law_parts_of_replies_are_handed_on(
    reply: Seq<char>,
    key: Seq<char>,
    document: JsonModel,
    part: JsonModel,
)
    ensures
        json_tree::parsed_json(reply) == Some(document) && document.member(key) == Some(part)
            ==> sms::member_document(reply, key) == Some(json_tree::json_text(part)),
        json_tree::parsed_json(reply) == Some(document) && document.member(key) is None
            ==> sms::member_document(reply, key) is None,
        json_tree::parsed_json(reply) is None ==> sms::member_document(reply, key) is None,
{
}

/// The reply to a code from a device is the property list in its bytes.
pub proof fn law_device_replies_are_property_lists(reply: Seq<char>, entries: EntriesModel)
    ensures
        sms::device_reply(reply) == Ok::<EntriesModel, ErrorModel>(entries)
            <==> plist_tree::parsed_plist(encode_utf8(reply)) == Some(entries),
        plist_tree::parsed_plist(encode_utf8(reply)) is None ==> sms::device_reply(reply) == Err::<
            EntriesModel,
            ErrorModel,
        >(ErrorModel::MalformedPlist(PlistSource::DeviceReply)),
{
}

} // verus!
