//! What a request for an application token shows, and what token is taken from the reply.

use crate::account;
use crate::crypto;
use crate::error::{EntryKind, ErrorModel, PlistSource, SpdUse};
use crate::exchange_laws;
use crate::plist_tree;
use crate::plist_tree::{EntriesModel, PlistModel};
use crate::reading_laws;
use crate::text;
use crate::token;
use crate::token::{Credentials, CredentialsModel};
use crate::types::AppTokenModel;
use vstd::prelude::*;
use vstd::utf8::*;

verus! {

/// A full application name is the name itself where that holds the service's prefix anywhere, and
/// else the prefix with the name behind it.
pub proof fn law_full_names_end_with_the_name(app: Seq<char>)
    ensures
        text::contains_text(app, "com.apple.gs."@) ==> token::qualified(app) == app,
        !text::contains_text(app, "com.apple.gs."@) ==> token::qualified(app) == "com.apple.gs."@
            + app,
{
}

/// Credentials are exactly what the account data holds: each of them is the entry of its own key,
/// and account data with all of them always gives them.
pub proof fn law_credentials_are_what_the_data_holds(
    entries: EntriesModel,
    credentials: CredentialsModel,
)
    ensures
        token::credentials_in(Some(entries)) == Ok::<CredentialsModel, ErrorModel>(credentials)
            <==> {
            &&& plist_tree::lookup(entries, "adsid"@) == Some(PlistModel::String(credentials.adsid))
            &&& plist_tree::lookup(entries, "GsIdmsToken"@) == Some(
                PlistModel::String(credentials.auth_token),
            )
            &&& plist_tree::lookup(entries, "sk"@) == Some(
                PlistModel::Data(credentials.session_key),
            )
            &&& plist_tree::lookup(entries, "c"@) == Some(PlistModel::Data(credentials.cookie))
        },
        token::credentials_in(None) == Err::<CredentialsModel, ErrorModel>(
            ErrorModel::SpdUnavailable(SpdUse::AppToken),
        ),
{
}

/// Account data without credentials is refused for the first thing that it lacks, in the order of
/// the account's id, its token, the session key and the cookie.
pub proof fn law_missing_credentials_are_named(entries: EntriesModel)
    ensures
        ({
            let result = token::credentials_in(Some(entries));
            let adsid = plist_tree::lookup(entries, "adsid"@);
            let auth_token = plist_tree::lookup(entries, "GsIdmsToken"@);
            let session_key = plist_tree::lookup(entries, "sk"@);
            let cookie = plist_tree::lookup(entries, "c"@);
            let has_adsid = adsid is Some && adsid->0 is String;
            let has_token = has_adsid && auth_token is Some && auth_token->0 is String;
            let has_key = has_token && session_key is Some && session_key->0 is Data;
            &&& !has_adsid ==> result == Err::<CredentialsModel, ErrorModel>(
                ErrorModel::MissingEntry(EntryKind::Text, "adsid"@),
            )
            &&& has_adsid && !has_token ==> result == Err::<CredentialsModel, ErrorModel>(
                ErrorModel::MissingEntry(EntryKind::Text, "GsIdmsToken"@),
            )
            &&& has_token && !has_key ==> result == Err::<CredentialsModel, ErrorModel>(
                ErrorModel::MissingEntry(EntryKind::Data, "sk"@),
            )
            &&& has_key && !(cookie is Some && cookie->0 is Data) ==> result == Err::<
                CredentialsModel,
                ErrorModel,
            >(ErrorModel::MissingEntry(EntryKind::Data, "c"@))
        }),
{
}

/// The model of credentials tells what the credentials hold.
pub proof fn law_credential_models_are_faithful(credentials: Credentials)
    ensures
        credentials@.adsid == credentials.adsid@,
        credentials@.auth_token == credentials.auth_token@,
        credentials@.session_key == credentials.session_key@,
        credentials@.cookie == credentials.cookie@,
{
}

/// The checksum of a request is the code, under the session key, of the operation, the account's id
/// and the application, one after the other and each of them whole.
pub proof fn law_checksums_bind_the_request(credentials: CredentialsModel, app: Seq<char>)
    ensures
        token::token_checksum(credentials, app) == crypto::hmac_sha256_code(
            credentials.session_key,
            encode_utf8("apptokens"@) + encode_utf8(credentials.adsid) + encode_utf8(app),
        ),
{
    reading_laws::law_texts_are_encoded_in_order("apptokens"@, credentials.adsid);
    reading_laws::law_texts_are_encoded_in_order("apptokens"@ + credentials.adsid, app);
}

/// A request for a token names the application and the account, and carries its token, the cookie,
/// the checksum, the data of the client and the operation, each under its key, and nothing else.
pub proof fn law_token_requests_carry_the_credentials(
    credentials: CredentialsModel,
    app: Seq<char>,
    checksum: Seq<u8>,
    cpd: EntriesModel,
    entries: EntriesModel,
)
    requires
        exchange_laws::asks_with(token::token_request(credentials, app, checksum, cpd), entries),
    ensures
        entries.len() == 7,
        plist_tree::lookup(entries, "app"@) is Some,
        plist_tree::lookup(entries, "app"@)->0 is Array,
        plist_tree::lookup(entries, "app"@)->0->Array_0.len() == 1,
        plist_tree::lookup(entries, "app"@)->0->Array_0[0] == PlistModel::String(app),
        plist_tree::lookup(entries, "c"@) == Some(PlistModel::Data(credentials.cookie)),
        plist_tree::lookup(entries, "checksum"@) == Some(PlistModel::Data(checksum)),
        plist_tree::lookup(entries, "cpd"@) == Some(PlistModel::Dictionary(cpd)),
        plist_tree::lookup(entries, "o"@) == Some(PlistModel::String("apptokens"@)),
        plist_tree::lookup(entries, "u"@) == Some(PlistModel::String(credentials.adsid)),
        plist_tree::lookup(entries, "t"@) == Some(PlistModel::String(credentials.auth_token)),
{
    let request = token::token_request(credentials, app, checksum, cpd);
    let body = request[1].1->Dictionary_0;
    exchange_laws::law_requests_are_put_under_a_header(body);
    assert(entries == body);
    exchange_laws::lemma_letters();
    reading_laws::law_first_entry_is_found(entries, 0);
    reading_laws::law_first_entry_is_found(entries, 1);
    reading_laws::law_first_entry_is_found(entries, 2);
    reading_laws::law_first_entry_is_found(entries, 3);
    reading_laws::law_first_entry_is_found(entries, 4);
    reading_laws::law_first_entry_is_found(entries, 5);
    reading_laws::law_first_entry_is_found(entries, 6);
}

/// A request for a token is made at all, under the header.
pub proof fn law_token_requests_have_a_header(
    credentials: CredentialsModel,
    app: Seq<char>,
    checksum: Seq<u8>,
    cpd: EntriesModel,
)
    ensures
        exists|entries: EntriesModel| #[trigger]
            exchange_laws::asks_with(
                token::token_request(credentials, app, checksum, cpd),
                entries,
            ),
{
    exchange_laws::law_requests_are_put_under_a_header(
        token::token_request(credentials, app, checksum, cpd)[1].1->Dictionary_0,
    );
}

/// An account asks for a token under the full name of the application, with its own credentials and
/// the checksum that binds the request to them. Without credentials it cannot ask.
pub proof fn law_accounts_ask_with_their_credentials(
    spd: Option<EntriesModel>,
    app: Seq<char>,
    cpd: EntriesModel,
    entries: EntriesModel,
)
    ensures
        ({
            let request = token::account_request(spd, app, cpd);
            let credentials = token::credentials_in(spd);
            let name = if text::contains_text(app, "com.apple.gs."@) {
                app
            } else {
                "com.apple.gs."@ + app
            };
            &&& credentials is Err ==> request == Err::<EntriesModel, ErrorModel>(
                credentials->Err_0,
            )
            &&& credentials is Ok ==> request is Ok
            &&& request is Ok && exchange_laws::asks_with(request->Ok_0, entries) ==> {
                let shown = credentials->Ok_0;
                &&& entries.len() == 7
                &&& plist_tree::lookup(entries, "app"@) is Some
                &&& plist_tree::lookup(entries, "app"@)->0 is Array
                &&& plist_tree::lookup(entries, "app"@)->0->Array_0.len() == 1
                &&& plist_tree::lookup(entries, "app"@)->0->Array_0[0] == PlistModel::String(name)
                &&& plist_tree::lookup(entries, "checksum"@) == Some(
                    PlistModel::Data(
                        crypto::hmac_sha256_code(
                            shown.session_key,
                            encode_utf8("apptokens"@) + encode_utf8(shown.adsid) + encode_utf8(
                                name,
                            ),
                        ),
                    ),
                )
                &&& plist_tree::lookup(entries, "c"@) == Some(PlistModel::Data(shown.cookie))
                &&& plist_tree::lookup(entries, "cpd"@) == Some(PlistModel::Dictionary(cpd))
                &&& plist_tree::lookup(entries, "o"@) == Some(PlistModel::String("apptokens"@))
                &&& plist_tree::lookup(entries, "u"@) == Some(PlistModel::String(shown.adsid))
                &&& plist_tree::lookup(entries, "t"@) == Some(PlistModel::String(shown.auth_token))
            }
        }),
{
    let request = token::account_request(spd, app, cpd);
    if request is Ok && exchange_laws::asks_with(request->Ok_0, entries) {
        let shown = token::credentials_in(spd)->Ok_0;
        let name = token::qualified(app);
        let checksum = token::token_checksum(shown, name);
        law_checksums_bind_the_request(shown, name);
        law_token_requests_carry_the_credentials(shown, name, checksum, cpd, entries);
    }
}

/// What an application's entry in a decrypted document holds under a key; nothing where the
/// document reports no success or has no such entry.
pub open spec fn granted_entry(
    document: EntriesModel,
    app: Seq<char>,
    key: Seq<char>,
) -> Option<PlistModel> {
    match plist_tree::lookup(document, "status-code"@) {
        Some(PlistModel::Integer(200)) => match plist_tree::lookup(document, "t"@) {
            Some(PlistModel::Dictionary(tokens)) => match plist_tree::lookup(tokens, app) {
                Some(PlistModel::Dictionary(entry)) => plist_tree::lookup(entry, key),
                _ => None,
            },
            _ => None,
        },
        _ => None,
    }
}

/// A token is granted exactly where the entry of the application holds all its parts, and then each
/// part is what the entry holds under its own key, whatever the others are. The two times are taken
/// modulo the range of unsigned 64 bit numbers, so that a time which is not negative stays.
pub proof fn law_tokens_are_what_their_entry_holds(
    document: EntriesModel,
    app: Seq<char>,
    granted: AppTokenModel,
)
    ensures
        token::token_in(document, app) == Ok::<AppTokenModel, ErrorModel>(granted) ==> {
            &&& granted_entry(document, app, "token"@) == Some(PlistModel::String(granted.token))
            &&& granted_entry(document, app, "duration"@) matches Some(
                PlistModel::Integer(duration),
            )
            &&& granted.duration == duration as u64
            &&& duration >= 0 ==> granted.duration == duration
            &&& granted_entry(document, app, "expiry"@) matches Some(PlistModel::Integer(expiry))
            &&& granted.expiry == expiry as u64
            &&& expiry >= 0 ==> granted.expiry == expiry
        },
        token::token_in(document, app) is Ok <==> {
            &&& granted_entry(document, app, "token"@) matches Some(PlistModel::String(_))
            &&& granted_entry(document, app, "duration"@) matches Some(PlistModel::Integer(_))
            &&& granted_entry(document, app, "expiry"@) matches Some(PlistModel::Integer(_))
        },
{
}

/// A document without a token is refused for the first thing that is wrong with it: no status,
/// another status than success, no tokens, none for the application, or a part of it that is
/// missing.
pub proof fn law_missing_tokens_are_named(
    document: EntriesModel,
    app: Seq<char>,
    tokens: EntriesModel,
    entry: EntriesModel,
)
    ensures
        ({
            let result = token::token_in(document, app);
            let status = plist_tree::lookup(document, "status-code"@);
            let held = plist_tree::lookup(document, "t"@);
            let wanted = plist_tree::lookup(tokens, app);
            let value = plist_tree::lookup(entry, "token"@);
            let duration = plist_tree::lookup(entry, "duration"@);
            let expiry = plist_tree::lookup(entry, "expiry"@);
            let succeeded = status == Some(PlistModel::Integer(200));
            let has_tokens = succeeded && held == Some(PlistModel::Dictionary(tokens));
            let has_entry = has_tokens && wanted == Some(PlistModel::Dictionary(entry));
            let has_value = has_entry && value is Some && value->0 is String;
            let has_duration = has_value && duration is Some && duration->0 is Integer;
            &&& !(status is Some && status->0 is Integer) ==> result == missing(
                EntryKind::Integer,
                "status-code"@,
            )
            &&& status is Some && status->0 is Integer && !succeeded ==> result == Err::<
                AppTokenModel,
                ErrorModel,
            >(ErrorModel::AppTokenStatus(status->0->Integer_0))
            &&& succeeded && !(held is Some && held->0 is Dictionary) ==> result == missing(
                EntryKind::Dictionary,
                "t"@,
            )
            &&& has_tokens && !(wanted is Some && wanted->0 is Dictionary) ==> result == missing(
                EntryKind::Dictionary,
                app,
            )
            &&& has_entry && !has_value ==> result == missing(EntryKind::Text, "token"@)
            &&& has_value && !has_duration ==> result == missing(EntryKind::Integer, "duration"@)
            &&& has_duration && !(expiry is Some && expiry->0 is Integer) ==> result == missing(
                EntryKind::Integer,
                "expiry"@,
            )
        }),
{
}

/// The refusal for an entry that is missing.
pub open spec fn missing(kind: EntryKind, key: Seq<char>) -> Result<AppTokenModel, ErrorModel> {
    Err(ErrorModel::MissingEntry(kind, key))
}

/// Tokens of other applications, and entries for them, do not matter: two documents that report
/// success and hold the same entry for an application grant it the same token.
pub proof fn law_tokens_rest_on_their_entry(
    document: EntriesModel,
    other: EntriesModel,
    app: Seq<char>,
    entry: EntriesModel,
)
    requires
        plist_tree::lookup(document, "status-code"@) == Some(PlistModel::Integer(200)),
        plist_tree::lookup(other, "status-code"@) == Some(PlistModel::Integer(200)),
        plist_tree::lookup(document, "t"@) matches Some(PlistModel::Dictionary(tokens))
            && plist_tree::lookup(tokens, app) == Some(PlistModel::Dictionary(entry)),
        plist_tree::lookup(other, "t"@) matches Some(PlistModel::Dictionary(tokens))
            && plist_tree::lookup(tokens, app) == Some(PlistModel::Dictionary(entry)),
    ensures
        token::token_in(document, app) == token::token_in(other, app),
{
}

/// The document with the token is what the encrypted token in the reply decrypts to under the
/// session key.
pub proof fn law_token_documents_are_decrypted(reply: EntriesModel, session_key: Seq<u8>)
    ensures
        ({
            let result = token::token_document(reply, session_key);
            match plist_tree::lookup(reply, "et"@) {
                Some(PlistModel::Data(encrypted)) => match account::token_plaintext(
                    encrypted,
                    session_key,
                ) {
                    Ok(plaintext) => match plist_tree::parsed_plist(plaintext) {
                        Some(document) => result == Ok::<EntriesModel, ErrorModel>(document),
                        None => result == Err::<EntriesModel, ErrorModel>(
                            ErrorModel::MalformedPlist(PlistSource::AppToken),
                        ),
                    },
                    Err(error) => result == Err::<EntriesModel, ErrorModel>(error),
                },
                _ => result == Err::<EntriesModel, ErrorModel>(
                    ErrorModel::MissingEntry(EntryKind::Data, "et"@),
                ),
            }
        }),
{
}

/// A token that an account gets is the one of the application's full name in the document that its
/// own session key decrypts. Without credentials, or without such a document, the same error comes
/// that the lack of it gives.
pub proof fn law_accounts_get_their_own_tokens(
    spd: Option<EntriesModel>,
    app: Seq<char>,
    reply: EntriesModel,
)
    ensures
        ({
            let result = token::granted_token(spd, app, reply);
            let credentials = token::credentials_in(spd);
            let document = token::token_document(reply, credentials->Ok_0.session_key);
            &&& credentials is Err ==> result == Err::<AppTokenModel, ErrorModel>(
                credentials->Err_0,
            )
            &&& credentials is Ok && document is Err ==> result == Err::<AppTokenModel, ErrorModel>(
                document->Err_0,
            )
            &&& credentials is Ok && document is Ok && text::contains_text(
                app,
                "com.apple.gs."@,
            ) ==> result == token::token_in(document->Ok_0, app)
            &&& credentials is Ok && document is Ok && !text::contains_text(
                app,
                "com.apple.gs."@,
            ) ==> result == token::token_in(document->Ok_0, "com.apple.gs."@ + app)
        }),
{
}

/// The bytes that the text `XYZ` starts every encrypted token with.
pub open spec fn xyz() -> Seq<u8> {
    seq!['X' as u8, 'Y' as u8, 'Z' as u8]
}

/// An encrypted token gives back the plaintext that belongs to its nonce and its ciphertext, with
/// its header as associated data, exactly where its tag is the right one.
pub proof fn law_sealed_tokens_are_opened(
    nonce: Seq<u8>,
    ciphertext: Seq<u8>,
    tag: Seq<u8>,
    key: Seq<u8>,
)
    requires
        nonce.len() == 16,
        tag.len() == 16,
        ciphertext.len() <= 0xf_ffff_ffe0,
        key.len() == 32,
    ensures
        ({
            let (plaintext, right) = crypto::aes256_gcm_opening(key, nonce, xyz(), ciphertext);
            let result = account::token_plaintext(xyz() + nonce + ciphertext + tag, key);
            &&& tag == right ==> result == Ok::<Seq<u8>, ErrorModel>(plaintext)
            &&& tag != right ==> result == Err::<Seq<u8>, ErrorModel>(ErrorModel::TokenDecryption)
        }),
{
    let data = xyz() + nonce + ciphertext + tag;
    let sealed = data.skip(19);
    assert(data.take(3) =~= account::token_header());
    assert(xyz() =~= account::token_header());
    assert(data.subrange(3, 19) =~= nonce);
    assert(sealed.take(sealed.len() - 16) =~= ciphertext);
    assert(sealed.skip(sealed.len() - 16) =~= tag);
}

/// An encrypted token is refused for what is wrong with it: it is too short, it starts with other
/// bytes than `XYZ`, or the session key has another length than 32 bytes.
pub proof fn law_bad_tokens_are_refused(data: Seq<u8>, key: Seq<u8>)
    ensures
        data.len() < 35 ==> account::token_plaintext(data, key) == Err::<Seq<u8>, ErrorModel>(
            ErrorModel::TokenTooShort(data.len()),
        ),
        data.len() >= 35 && data.take(3) != xyz() ==> account::token_plaintext(data, key) == Err::<
            Seq<u8>,
            ErrorModel,
        >(ErrorModel::UnknownTokenFormat(data.take(3))),
        data.len() >= 35 && data.take(3) == xyz() && key.len() != 32 ==> account::token_plaintext(
            data,
            key,
        ) == Err::<Seq<u8>, ErrorModel>(ErrorModel::SessionKeyLength(key.len())),
        data.len() > 0xf_ffff_ffe0 + 35 ==> account::token_plaintext(data, key) is Err,
        account::token_frame(data) is Err ==> account::token_plaintext(data, key) == Err::<
            Seq<u8>,
            ErrorModel,
        >(account::token_frame(data)->Err_0),
{
    assert(xyz() =~= account::token_header());
}

} // verus!
