//! What is read from the data of an account, what it shows of itself, and how it is spoken of.

use crate::account;
use crate::account::{AccountModel, AppleAccount};
use crate::crypto;
use crate::error;
use crate::error::{EntryKind, ErrorModel, PlistSource, SpdUse};
use crate::plist_tree;
use crate::plist_tree::{EntriesModel, PlistModel};
use crate::privacy;
use crate::reading_laws;
use crate::text;
use crate::types;
use crate::types::{CauseModel, LoginStateModel, SmsErrorModel, TrustedNumber};
use vstd::prelude::*;
use vstd::utf8::*;

verus! {

/// A new account has its address and mode and nothing else: no data, no numbers, nothing to tell,
/// and it still has to be signed in to.
pub proof fn law_new_accounts_are_blank(email: Seq<char>, debug: bool)
    ensures
        account::fresh_account(email, debug).email == email,
        account::fresh_account(email, debug).debug == debug,
        account::fresh_account(email, debug).spd is None,
        account::fresh_account(email, debug).numbers is None,
        account::fresh_account(email, debug).last_error is None,
        account::fresh_account(email, debug).login_state is NeedsLogin,
{
}

/// The model of an account tells what the account holds.
pub proof fn law_account_models_are_faithful(account: AppleAccount)
    ensures
        account@.email == account.email@,
        account@.login_state == account.login_state@,
        account@.debug == account.debug,
        account.spd is Some ==> account@.spd == Some(account.spd->0@),
        account.spd is None ==> account@.spd is None,
        account.last_error is Some ==> account@.last_error == Some(account.last_error->0@),
        account.last_error is None ==> account@.last_error is None,
        account.trusted_phone_numbers is None ==> account@.numbers is None,
        account.trusted_phone_numbers is Some ==> {
            &&& account@.numbers is Some
            &&& account@.numbers->0.len() == account.trusted_phone_numbers->0@.len()
            &&& forall|i: int|
                0 <= i < account@.numbers->0.len() ==> #[trigger] account@.numbers->0[i]
                    == account.trusted_phone_numbers->0@[i]@
        },
{
}

/// The model of a list of numbers has the model of each at its place.
pub proof fn law_number_lists_are_faithful(numbers: Seq<TrustedNumber>, list: Vec<TrustedNumber>)
    ensures
        types::number_models(numbers).len() == numbers.len(),
        forall|i: int|
            0 <= i < numbers.len() ==> #[trigger] types::number_models(numbers)[i] == numbers[i]@,
        account::optional_numbers(Some(list)) == Some(types::number_models(list@)),
        account::optional_numbers(None) is None,
{
}

/// The name of an account's owner is exactly what the account data holds: the first name and the
/// last name, each under its own key. Without data, or without one of them, the error says so.
pub proof fn law_names_are_what_the_data_holds(
    entries: EntriesModel,
    first: Seq<char>,
    last: Seq<char>,
)
    ensures
        ({
            let name = account::account_name(Some(entries));
            let held_first = plist_tree::lookup(entries, "fn"@);
            let held_last = plist_tree::lookup(entries, "ln"@);
            let has_first = held_first is Some && held_first->0 is String;
            &&& name == Ok::<(Seq<char>, Seq<char>), ErrorModel>((first, last)) <==> {
                &&& held_first == Some(PlistModel::String(first))
                &&& held_last == Some(PlistModel::String(last))
            }
            &&& !has_first ==> name == Err::<(Seq<char>, Seq<char>), ErrorModel>(
                ErrorModel::MissingEntry(EntryKind::Text, "fn"@),
            )
            &&& has_first && !(held_last is Some && held_last->0 is String) ==> name == Err::<
                (Seq<char>, Seq<char>),
                ErrorModel,
            >(ErrorModel::MissingEntry(EntryKind::Text, "ln"@))
        }),
        account::account_name(None) == Err::<(Seq<char>, Seq<char>), ErrorModel>(
            ErrorModel::SpdUnavailable(SpdUse::Name),
        ),
{
}

/// The password equivalent token of an account is exactly the token under its name among the tokens
/// of the account data. Where a part of the way to it is missing, the error names that part.
pub proof fn law_pets_are_what_the_data_holds(
    entries: EntriesModel,
    tokens: EntriesModel,
    holder: EntriesModel,
    pet: Seq<char>,
)
    ensures
        ({
            let result = account::account_pet(Some(entries));
            let held = plist_tree::lookup(entries, "t"@);
            let named = plist_tree::lookup(tokens, "com.apple.gs.idms.pet"@);
            let value = plist_tree::lookup(holder, "token"@);
            let has_tokens = held == Some(PlistModel::Dictionary(tokens));
            let has_holder = has_tokens && named == Some(PlistModel::Dictionary(holder));
            &&& has_holder && value == Some(PlistModel::String(pet)) ==> result == Ok::<
                Seq<char>,
                ErrorModel,
            >(pet)
            &&& has_holder && !(value is Some && value->0 is String) ==> result == Err::<
                Seq<char>,
                ErrorModel,
            >(ErrorModel::MissingEntry(EntryKind::Text, "token"@))
            &&& has_tokens && !(named is Some && named->0 is Dictionary) ==> result == Err::<
                Seq<char>,
                ErrorModel,
            >(ErrorModel::MissingEntry(EntryKind::Dictionary, "com.apple.gs.idms.pet"@))
            &&& !(held is Some && held->0 is Dictionary) ==> result == Err::<
                Seq<char>,
                ErrorModel,
            >(ErrorModel::MissingEntry(EntryKind::Dictionary, "t"@))
        }),
        account::account_pet(None) == Err::<Seq<char>, ErrorModel>(
            ErrorModel::SpdUnavailable(SpdUse::Pet),
        ),
{
}

/// The token that names an account is the base64 text of its id and its token, with a colon between
/// them and each of them whole.
pub proof fn law_identities_hold_id_and_token(adsid: Seq<char>, auth_token: Seq<char>)
    ensures
        account::identity_token(adsid, auth_token) == crypto::base64_standard(
            encode_utf8(adsid) + seq![':' as u8] + encode_utf8(auth_token),
        ),
{
    reveal_strlit(":");
    assert(":"@ =~= seq![':']);
    is_ascii_chars_encode_utf8(":"@);
    assert(encode_utf8(":"@) =~= seq![':' as u8]);
    reading_laws::law_texts_are_encoded_in_order(adsid, ":"@);
    reading_laws::law_texts_are_encoded_in_order(adsid + ":"@, auth_token);
}

/// A two factor request carries exactly two headers of its own, the identity and the routing
/// information, each as it is under its own name. They are there exactly where the account data
/// holds id and token and the routing information may stand in a header.
pub proof fn law_headers_carry_the_identity(
    entries: EntriesModel,
    routing_info: Seq<char>,
    adsid: Seq<char>,
    auth_token: Seq<char>,
)
    requires
        plist_tree::lookup(entries, "adsid"@) == Some(PlistModel::String(adsid)),
        plist_tree::lookup(entries, "GsIdmsToken"@) == Some(PlistModel::String(auth_token)),
    ensures
        ({
            let headers = account::two_factor_headers(Some(entries), routing_info);
            &&& crypto::header_safe(routing_info) ==> {
                &&& headers is Ok
                &&& headers->Ok_0.len() == 2
                &&& headers->Ok_0[0] == (
                    "X-Apple-Identity-Token"@,
                    account::identity_token(adsid, auth_token),
                )
                &&& headers->Ok_0[1] == ("X-Apple-I-MD-RINFO"@, routing_info)
            }
            &&& !crypto::header_safe(routing_info) ==> headers == Err::<
                Seq<(Seq<char>, Seq<char>)>,
                ErrorModel,
            >(ErrorModel::InvalidHeaderValue)
        }),
{
}

/// Without account data, id or token there are no headers, and the error says what is missing.
pub proof fn law_headers_need_the_identity(entries: EntriesModel, routing_info: Seq<char>)
    ensures
        ({
            let headers = account::two_factor_headers(Some(entries), routing_info);
            let adsid = plist_tree::lookup(entries, "adsid"@);
            let auth_token = plist_tree::lookup(entries, "GsIdmsToken"@);
            let has_adsid = adsid is Some && adsid->0 is String;
            &&& !has_adsid ==> headers == Err::<Seq<(Seq<char>, Seq<char>)>, ErrorModel>(
                ErrorModel::MissingEntry(EntryKind::Text, "adsid"@),
            )
            &&& has_adsid && !(auth_token is Some && auth_token->0 is String) ==> headers == Err::<
                Seq<(Seq<char>, Seq<char>)>,
                ErrorModel,
            >(ErrorModel::MissingEntry(EntryKind::Text, "GsIdmsToken"@))
        }),
        account::two_factor_headers(None, routing_info) == Err::<
            Seq<(Seq<char>, Seq<char>)>,
            ErrorModel,
        >(ErrorModel::SpdUnavailable(SpdUse::Headers)),
{
}

/// Two values are put under the names of the headers as they are, exactly where both may stand in a
/// header.
pub proof fn law_header_values_are_labelled(identity: Seq<char>, routing_info: Seq<char>)
    ensures
        ({
            let headers = account::labelled_headers(identity, routing_info);
            let fit = crypto::header_safe(identity) && crypto::header_safe(routing_info);
            &&& fit ==> {
                &&& headers is Ok
                &&& headers->Ok_0.len() == 2
                &&& headers->Ok_0[0] == ("X-Apple-Identity-Token"@, identity)
                &&& headers->Ok_0[1] == ("X-Apple-I-MD-RINFO"@, routing_info)
            }
            &&& !fit ==> headers == Err::<Seq<(Seq<char>, Seq<char>)>, ErrorModel>(
                ErrorModel::InvalidHeaderValue,
            )
        }),
{
}

/// The model of a list of headers has the name and the value of each at its place.
pub proof fn law_header_lists_are_faithful(headers: Seq<(String, String)>)
    ensures
        account::header_models(headers).len() == headers.len(),
        forall|i: int|
            0 <= i < headers.len() ==> #[trigger] account::header_models(headers)[i] == (
                headers[i].0@,
                headers[i].1@,
            ),
{
}

/// The keys that are derived from a shared key are the codes of their whole names under the whole
/// key.
pub proof fn law_derived_keys_rest_on_key_and_name(key: Seq<u8>, name: Seq<char>)
    ensures
        account::session_key(key, name) == crypto::hmac_sha256_code(key, encode_utf8(name)),
{
}

/// Account data is decrypted exactly where it comes in whole blocks that are a padded message, and
/// the message is what comes out.
pub proof fn law_account_data_is_decrypted(key: Seq<u8>, data: Seq<u8>, message: Seq<u8>)
    ensures
        ({
            let blocks = crypto::aes256_cbc_blocks(
                crypto::hmac_sha256_code(key, encode_utf8("extra data key:"@)),
                crypto::hmac_sha256_code(key, encode_utf8("extra data iv:"@)).take(16),
                data,
            );
            let plaintext = account::spd_plaintext(key, data);
            &&& data.len() > 0 && data.len() % 16 == 0 && blocks == message
                + crypto::pkcs7_padding(message.len()) ==> plaintext == Ok::<Seq<u8>, ErrorModel>(
                message,
            )
            &&& plaintext is Ok && blocks.len() == data.len() ==> {
                &&& data.len() > 0 && data.len() % 16 == 0
                &&& blocks == plaintext->Ok_0 + crypto::pkcs7_padding(plaintext->Ok_0.len())
            }
            &&& plaintext is Err ==> plaintext == Err::<Seq<u8>, ErrorModel>(
                ErrorModel::SpdDecryption,
            )
        }),
{
    let blocks = crypto::aes256_cbc_blocks(
        crypto::hmac_sha256_code(key, encode_utf8("extra data key:"@)),
        crypto::hmac_sha256_code(key, encode_utf8("extra data iv:"@)).take(16),
        data,
    );
    let padding = crypto::pkcs7_padding(message.len());
    let padded = message + padding;
    if blocks == padded {
        assert(padded.last() == padding.last());
        assert(padded.take(padded.len() - padding.len()) =~= message);
        assert forall|i: int|
            padded.len() - padding.len() <= i < padded.len() implies #[trigger] padded[i]
            == padding.len() by {
            assert(padded[i] == padding[i - message.len()]);
        }
    }
    let plaintext = account::spd_plaintext(key, data);
    if plaintext is Ok && blocks.len() == data.len() {
        let missing = blocks.last() as int;
        assert(plaintext->Ok_0.len() == blocks.len() - missing);
        assert((blocks.len() - missing) % 16 == (16 - missing) % 16);
        assert(blocks =~= plaintext->Ok_0 + crypto::pkcs7_padding(plaintext->Ok_0.len()));
    }
}

/// An account presents itself by its owner's whole name, where the data holds it, then its address,
/// then its state in parentheses.
pub proof fn law_accounts_present_themselves(account: AccountModel)
    ensures
        ({
            let address = account.email + " ("@ + types::state_text(account.login_state) + ")"@;
            match account::account_name(account.spd) {
                Ok((first, last)) => account::account_text(account) == "Apple Account: "@ + first
                    + " "@ + last + " "@ + address,
                Err(_) => account::account_text(account) == "Apple Account: "@ + address,
            }
        }),
{
    let state = types::state_text(account.login_state);
    let address = account.email + " ("@ + state + ")"@;
    match account::account_name(account.spd) {
        Ok((first, last)) => {
            let start = "Apple Account: "@ + first + " "@ + last + " "@;
            assert(start + address =~= start + account.email + " ("@ + state + ")"@);
        },
        Err(_) => {
            let start = "Apple Account: "@;
            assert(start + address =~= start + account.email + " ("@ + state + ")"@);
        },
    }
}

/// A state is told by its name, with the whole of what it holds in parentheses.
pub proof fn law_states_are_told_by_name(id: u32, step: Seq<char>)
    ensures
        types::state_text(LoginStateModel::LoggedIn) == "LoggedIn"@,
        types::state_text(LoginStateModel::NeedsDevice2FA) == "NeedsDevice2FA"@,
        types::state_text(LoginStateModel::NeedsDevice2FAVerification)
            == "NeedsDevice2FAVerification"@,
        types::state_text(LoginStateModel::NeedsUnknown2FA) == "NeedsUnknown2FA"@,
        types::state_text(LoginStateModel::NeedsLogin) == "NeedsLogin"@,
        types::state_text(LoginStateModel::NeedsSMS2FA(id)) == "NeedsSMS2FA("@ + text::decimal(
            id as nat,
        ) + ")"@,
        types::state_text(LoginStateModel::NeedsSMS2FAVerification(id))
            == "NeedsSMS2FAVerification("@ + text::decimal(id as nat) + ")"@,
        types::state_text(LoginStateModel::NeedsExtraStep(step)) == "NeedsExtraStep("@
            + text::debug_quoted(step) + ")"@,
{
}

/// The state with a number is told with that number and no other.
pub proof fn law_told_states_tell_numbers_apart(id: u32, other: u32)
    ensures
        types::state_text(LoginStateModel::NeedsSMS2FA(id)) == types::state_text(
            LoginStateModel::NeedsSMS2FA(other),
        ) ==> id == other,
        types::state_text(LoginStateModel::NeedsSMS2FAVerification(id)) == types::state_text(
            LoginStateModel::NeedsSMS2FAVerification(other),
        ) ==> id == other,
{
    let a = text::decimal(id as nat);
    let b = text::decimal(other as nat);
    reading_laws::law_decimals_stand_for_their_number(id as nat);
    reading_laws::law_decimals_stand_for_their_number(other as nat);
    lemma_enclosed("NeedsSMS2FA("@, a, b, ")"@);
    lemma_enclosed("NeedsSMS2FAVerification("@, a, b, ")"@);
}

/// Texts that differ still do so when the same stands around them.
proof fn lemma_enclosed(start: Seq<char>, left: Seq<char>, right: Seq<char>, end: Seq<char>)
    ensures
        start + left + end == start + right + end ==> left == right,
{
    let a = start + left + end;
    let b = start + right + end;
    if a == b {
        assert(a.len() == start.len() + left.len() + end.len());
        assert(b.len() == start.len() + right.len() + end.len());
        assert(a.subrange(start.len() as int, (start.len() + left.len()) as int) =~= left);
        assert(b.subrange(start.len() as int, (start.len() + left.len()) as int) =~= right);
    }
}

/// A refusal of the text message service is told with its code, its title and its message, and a
/// reply without one with its status and the whole of it.
pub proof fn law_refusals_are_told_in_full(
    refusal: SmsErrorModel,
    status: u16,
    reply: Seq<char>,
)
    ensures
        error::service_line(refusal) == refusal.title + " - "@ + refusal.message,
        error::error_text(ErrorModel::SmsSendRefused(refusal)) == "SMS 2FA request failed (code "@
            + refusal.code + "): "@ + (refusal.title + " - "@ + refusal.message),
        error::error_text(ErrorModel::SmsCodeRefused(refusal))
            == "SMS 2FA code submission failed (code "@ + refusal.code + "): "@ + (refusal.title
            + " - "@ + refusal.message),
        error::error_text(ErrorModel::SmsSendStatus(status, reply))
            == "SMS 2FA request failed with http status "@ + text::decimal(status as nat) + ": "@
            + reply,
        error::error_text(ErrorModel::SmsCodeStatus(status, reply))
            == "SMS 2FA code submission failed with http status "@ + text::decimal(status as nat)
            + ": "@ + reply,
        error::error_text(ErrorModel::NumbersUnavailable(status, reply))
            == "Failed to retrieve trusted phone numbers (status "@ + text::decimal(status as nat)
            + "): "@ + reply,
{
}

/// The errors of a sign-in are told with what they hold, in full.
pub proof fn law_sign_in_errors_are_told(
    state: LoginStateModel,
    step: Seq<char>,
    name: Seq<char>,
    causes: Seq<CauseModel>,
)
    ensures
        error::error_text(ErrorModel::AttemptsExhausted(state))
            == "Couldn't login after 15 attempts, aborting (current state: "@ + types::state_text(
            state,
        ) + ")"@,
        error::error_text(ErrorModel::AdditionalAuthentication(step))
            == "Additional authentication required: "@ + step,
        error::error_text(ErrorModel::UnsupportedProtocol(name))
            == "Unsupported SRP protocol selected: "@ + name,
        error::error_text(ErrorModel::NoCodeProvided) == "No 2FA code provided, aborting"@,
        error::error_text(ErrorModel::NoMethodSelected) == "No 2FA method selected, aborting"@,
        error::error_text(ErrorModel::CannotSubmitCode)
            == "Cannot submit code without knowing which method to use"@,
        error::error_text(ErrorModel::CannotResendCode)
            == "Cannot resend code without knowing which method to use"@,
        error::error_text(ErrorModel::NumberNotFound)
            == "Selected trusted number ID not found in trusted numbers"@,
        error::error_text(ErrorModel::DeviceCodeRejected(causes)) == "Trusted device 2FA rejected"@,
        error::error_text(ErrorModel::IllegalServerKey) == "Failed to compute SRP proof"@,
        error::error_text(ErrorModel::ServerProofMismatch)
            == "Negotiation failed, server proof mismatch: bad_record_mac: incorrect 'server' proof"@,
        error::error_text(ErrorModel::SpdDecryption)
            == "Failed to decrypt SPD from login response"@,
{
}

/// The errors on account data, documents and tokens are told with what they hold, in full.
pub proof fn law_data_errors_are_told(
    key: Seq<char>,
    status: i64,
    length: nat,
    header: Seq<u8>,
)
    ensures
        error::error_text(ErrorModel::SpdUnavailable(SpdUse::Name))
            == "SPD not available, cannot get name"@,
        error::error_text(ErrorModel::SpdUnavailable(SpdUse::Pet))
            == "SPD not available, cannot get pet"@,
        error::error_text(ErrorModel::SpdUnavailable(SpdUse::Headers))
            == "SPD data not available, cannot build 2FA headers"@,
        error::error_text(ErrorModel::SpdUnavailable(SpdUse::AppToken))
            == "SPD data not available, cannot get app token"@,
        error::error_text(ErrorModel::MissingEntry(EntryKind::Text, key))
            == "No string in plist under "@ + key,
        error::error_text(ErrorModel::MissingEntry(EntryKind::Data, key))
            == "No data in plist under "@ + key,
        error::error_text(ErrorModel::MissingEntry(EntryKind::Integer, key))
            == "No integer in plist under "@ + key,
        error::error_text(ErrorModel::MissingEntry(EntryKind::Dictionary, key))
            == "No dictionary in plist under "@ + key,
        error::error_text(ErrorModel::MalformedPlist(PlistSource::DeviceReply))
            == "Failed to parse trusted device response plist"@,
        error::error_text(ErrorModel::MalformedPlist(PlistSource::Spd))
            == "Failed to parse decrypted SPD plist"@,
        error::error_text(ErrorModel::MalformedPlist(PlistSource::AppToken))
            == "Failed to parse decrypted app token plist"@,
        error::error_text(ErrorModel::AppTokenStatus(status))
            == "App token request failed with status code "@ + text::signed_decimal(status as int),
        error::error_text(ErrorModel::TokenTooShort(length))
            == "Encrypted token is too short to be valid (only "@ + text::decimal(length)
            + " bytes)"@,
        error::error_text(ErrorModel::UnknownTokenFormat(header))
            == "Encrypted token is in an unknown format: "@ + text::utf8_lossy(header),
        error::error_text(ErrorModel::SessionKeyLength(length))
            == "Session key is not the correct length: "@ + text::decimal(length) + " bytes"@,
        error::error_text(ErrorModel::TokenDecryption) == "Failed to decrypt gcm: aead::Error"@,
{
}

/// The first at sign ends the local part.
proof fn lemma_local_length(local: Seq<char>, rest: Seq<char>)
    requires
        !local.contains('@'),
        rest.len() == 0 || rest[0] == '@',
    ensures
        privacy::local_length(local + rest) == local.len(),
    decreases local.len(),
{
    let email = local + rest;
    if local.len() > 0 {
        assert(local.contains(local[0]));
        let shorter = local.skip(1);
        assert(email.skip(1) =~= shorter + rest);
        assert forall|i: int| 0 <= i < shorter.len() implies shorter[i] != '@' by {
            assert(local.contains(local[i + 1]));
        }
        lemma_local_length(shorter, rest);
    }
}

/// A censored address keeps the domain, of the local part the first character and, where that takes
/// more than two bytes, the last, and has three asterisks for the rest. One without an at sign is
/// hidden whole.
pub proof fn law_addresses_are_censored(local: Seq<char>, domain: Seq<char>)
    requires
        !local.contains('@'),
    ensures
        local.len() > 0 && encode_utf8(local).len() <= 2 ==> privacy::censored(
            local + seq!['@'] + domain,
        ) == seq![local[0]] + "***@"@ + domain,
        local.len() > 0 && encode_utf8(local).len() > 2 ==> privacy::censored(
            local + seq!['@'] + domain,
        ) == seq![local[0]] + "***"@ + seq![local.last()] + "@"@ + domain,
        privacy::censored(local) == "***"@,
{
    let rest = seq!['@'] + domain;
    let email = local + seq!['@'] + domain;
    assert(email =~= local + rest);
    assert(local =~= local + Seq::<char>::empty());
    lemma_local_length(local, rest);
    lemma_local_length(local, Seq::empty());
    assert(privacy::local_part(email) =~= local);
    assert(privacy::domain_part(email) =~= rest);
    assert(privacy::domain_part(local) =~= Seq::<char>::empty());
    reveal_strlit("***@");
    reveal_strlit("***");
    reveal_strlit("@");
    if local.len() > 0 {
        assert(local.take(1) =~= seq![local[0]]);
        assert(local.skip(local.len() - 1) =~= seq![local.last()]);
        assert(local.take(1) + "***"@ + rest =~= seq![local[0]] + "***@"@ + domain);
        assert(local.take(1) + "***"@ + local.skip(local.len() - 1) + rest =~= seq![local[0]]
            + "***"@ + seq![local.last()] + "@"@ + domain);
    }
}

/// An address can be censored exactly where the characters that stay visible are there and take one
/// byte each; one without an at sign always can.
pub proof fn law_visible_characters_take_one_byte(local: Seq<char>, domain: Seq<char>)
    requires
        !local.contains('@'),
    ensures
        privacy::censorable(local + seq!['@'] + domain) <==> {
            &&& local.len() > 0
            &&& (local[0] as u32) < 128
            &&& encode_utf8(local).len() <= 2 || (local.last() as u32) < 128
        },
        privacy::censorable(local),
{
    let rest = seq!['@'] + domain;
    let email = local + seq!['@'] + domain;
    assert(email =~= local + rest);
    assert(local =~= local + Seq::<char>::empty());
    lemma_local_length(local, rest);
    lemma_local_length(local, Seq::empty());
    assert(privacy::local_part(email) =~= local);
    assert(privacy::domain_part(email) =~= rest);
}

} // verus!
