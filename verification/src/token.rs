//! Tokens for applications.

use crate::account;
use crate::account::AppleAccount;
use crate::crypto;
use crate::crypto::hmac_sha256;
use crate::error;
use crate::error::{AccountError, ErrorModel, PlistSource, SpdUse};
use crate::exchange;
use crate::exchange::envelope;
use crate::plist_tree;
use crate::plist_tree::{parse_plist, EntriesModel, PlistDictionary, PlistModel, PlistValue};
use crate::text;
use crate::text::has_text;
use crate::types::{AppToken, AppTokenModel};
use vstd::prelude::*;
use vstd::slice::*;
use vstd::string::*;
use vstd::utf8::*;

verus! {

/// The full name of an application: under the service's prefix, unless it holds it already.
pub open spec fn qualified(app: Seq<char>) -> Seq<char> {
    if text::contains_text(app, "com.apple.gs."@) {
        app
    } else {
        "com.apple.gs."@ + app
    }
}

/// The full name of an application.
pub fn qualify(app: &str) -> (name: String)
    ensures
        name@ == qualified(app@),
{
    if has_text(app, "com.apple.gs.") {
        app.to_owned()
    } else {
        "com.apple.gs.".to_owned().concat(app)
    }
}

/// What an account shows to ask for a token.
#[derive(Debug)]
pub struct Credentials {
    pub adsid: String,
    pub auth_token: String,
    pub session_key: Vec<u8>,
    pub cookie: Vec<u8>,
}

/// `Credentials` over plain sequences.
pub struct CredentialsModel {
    pub adsid: Seq<char>,
    pub auth_token: Seq<char>,
    pub session_key: Seq<u8>,
    pub cookie: Seq<u8>,
}

impl View for Credentials {
    type V = CredentialsModel;

    open spec fn view(&self) -> CredentialsModel {
        CredentialsModel {
            adsid: self.adsid@,
            auth_token: self.auth_token@,
            session_key: self.session_key@,
            cookie: self.cookie@,
        }
    }
}

/// The credentials in the account data. Of several that are missing, the first counts.
pub open spec fn credentials_in(spd: Option<EntriesModel>) -> Result<CredentialsModel, ErrorModel> {
    match spd {
        None => Err(ErrorModel::SpdUnavailable(SpdUse::AppToken)),
        Some(entries) => match (
            plist_tree::string_at(entries, "adsid"@),
            plist_tree::string_at(entries, "GsIdmsToken"@),
            plist_tree::data_at(entries, "sk"@),
            plist_tree::data_at(entries, "c"@),
        ) {
            (Err(error), _, _, _) => Err(error),
            (_, Err(error), _, _) => Err(error),
            (_, _, Err(error), _) => Err(error),
            (_, _, _, Err(error)) => Err(error),
            (Ok(adsid), Ok(auth_token), Ok(session_key), Ok(cookie)) => Ok(
                CredentialsModel { adsid, auth_token, session_key, cookie },
            ),
        },
    }
}

/// The checksum that binds a token request to the session.
pub open spec fn token_checksum(credentials: CredentialsModel, app: Seq<char>) -> Seq<u8> {
    crypto::hmac_sha256_code(
        credentials.session_key,
        encode_utf8("apptokens"@ + credentials.adsid + app),
    )
}

/// The request for a token.
pub open spec fn token_request(
    credentials: CredentialsModel,
    app: Seq<char>,
    checksum: Seq<u8>,
    cpd: EntriesModel,
) -> EntriesModel {
    exchange::enveloped(
        seq![
            ("app"@, PlistModel::Array(seq![PlistModel::String(app)])),
            ("c"@, PlistModel::Data(credentials.cookie)),
            ("checksum"@, PlistModel::Data(checksum)),
            ("cpd"@, PlistModel::Dictionary(cpd)),
            ("o"@, PlistModel::String("apptokens"@)),
            ("u"@, PlistModel::String(credentials.adsid)),
            ("t"@, PlistModel::String(credentials.auth_token)),
        ],
    )
}

/// The request with which an account asks for a token.
pub open spec fn account_request(
    spd: Option<EntriesModel>,
    app: Seq<char>,
    cpd: EntriesModel,
) -> Result<EntriesModel, ErrorModel> {
    match credentials_in(spd) {
        Err(error) => Err(error),
        Ok(credentials) => Ok(
            token_request(
                credentials,
                qualified(app),
                token_checksum(credentials, qualified(app)),
                cpd,
            ),
        ),
    }
}

/// The request for a token, for a checksum.
pub fn make_token_request(
    credentials: &Credentials,
    app: &str,
    checksum: Vec<u8>,
    cpd: PlistDictionary,
) -> (request: PlistDictionary)
    ensures
        request@ == token_request(credentials@, app@, checksum@, cpd@),
{
    let ghost checksum_bytes = checksum@;
    let ghost client_data = cpd@;
    let mut apps: Vec<String> = Vec::new();
    apps.push(app.to_owned());
    let apps = PlistValue::texts(apps);
    assert(apps@->Array_0 =~= seq![PlistModel::String(app@)]);
    let cookie = slice_to_vec(credentials.cookie.as_slice());
    let request = PlistDictionary::new().with("app", apps).with("c", PlistValue::Data(cookie)).with(
        "checksum",
        PlistValue::Data(checksum),
    ).with("cpd", PlistValue::dictionary(cpd)).with("o", PlistValue::text("apptokens")).with(
        "u",
        PlistValue::text(credentials.adsid.as_str()),
    ).with("t", PlistValue::text(credentials.auth_token.as_str()));
    assert(request@ =~= seq![
        ("app"@, PlistModel::Array(seq![PlistModel::String(app@)])),
        ("c"@, PlistModel::Data(credentials@.cookie)),
        ("checksum"@, PlistModel::Data(checksum_bytes)),
        ("cpd"@, PlistModel::Dictionary(client_data)),
        ("o"@, PlistModel::String("apptokens"@)),
        ("u"@, PlistModel::String(credentials@.adsid)),
        ("t"@, PlistModel::String(credentials@.auth_token)),
    ]);
    envelope(request)
}

/// The token for an application in a decrypted reply. The two times are taken modulo the range of
/// unsigned 64 bit numbers.
pub open spec fn token_in(document: EntriesModel, app: Seq<char>) -> Result<
    AppTokenModel,
    ErrorModel,
> {
    match plist_tree::integer_at(document, "status-code"@) {
        Err(error) => Err(error),
        Ok(status) => if status != 200 {
            Err(ErrorModel::AppTokenStatus(status))
        } else {
            match plist_tree::dictionary_at(document, "t"@) {
                Err(error) => Err(error),
                Ok(tokens) => match plist_tree::dictionary_at(tokens, app) {
                    Err(error) => Err(error),
                    Ok(entry) => token_of(entry),
                },
            }
        },
    }
}

/// The token that an entry of a decrypted reply describes.
pub open spec fn token_of(entry: EntriesModel) -> Result<AppTokenModel, ErrorModel> {
    match (
        plist_tree::string_at(entry, "token"@),
        plist_tree::integer_at(entry, "duration"@),
        plist_tree::integer_at(entry, "expiry"@),
    ) {
        (Err(error), _, _) => Err(error),
        (_, Err(error), _) => Err(error),
        (_, _, Err(error)) => Err(error),
        (Ok(token), Ok(duration), Ok(expiry)) => Ok(
            AppTokenModel { token, duration: duration as u64, expiry: expiry as u64 },
        ),
    }
}

/// Reads the token for an application from a decrypted reply.
pub fn read_app_token(document: &PlistDictionary, app: &str) -> (token: Result<
    AppToken,
    AccountError,
>)
    ensures
        error::outcome(token) == token_in(document@, app@),
{
    let status: i64 = document.get_signed_integer("status-code")?;
    if status != 200 {
        return Err(AccountError::AppTokenStatus(status));
    }
    let tokens = document.get_dict("t")?;
    let entry = tokens.get_dict(app)?;
    let token = entry.get_str("token")?.to_owned();
    let duration: i64 = entry.get_signed_integer("duration")?;
    let expiry: i64 = entry.get_signed_integer("expiry")?;
    Ok(
        AppToken {
            token,
            duration: #[verifier::truncate] (duration as u64),
            expiry: #[verifier::truncate] (expiry as u64),
        },
    )
}

/// The decrypted document in a reply to a token request.
pub open spec fn token_document(reply: EntriesModel, session_key: Seq<u8>) -> Result<
    EntriesModel,
    ErrorModel,
> {
    match plist_tree::data_at(reply, "et"@) {
        Err(error) => Err(error),
        Ok(encrypted) => match account::token_plaintext(encrypted, session_key) {
            Err(error) => Err(error),
            Ok(plaintext) => match plist_tree::parsed_plist(plaintext) {
                Some(document) => Ok(document),
                None => Err(ErrorModel::MalformedPlist(PlistSource::AppToken)),
            },
        },
    }
}

/// Decrypts the document in a reply to a token request.
pub fn decrypt_token_reply(reply: &PlistDictionary, session_key: &[u8]) -> (document: Result<
    PlistDictionary,
    AccountError,
>)
    ensures
        error::outcome(document) == token_document(reply@, session_key@),
{
    let encrypted = reply.get_data("et")?;
    let plaintext = AppleAccount::decrypt_gcm(encrypted, session_key)?;
    match parse_plist(plaintext.as_slice()) {
        Some(document) => Ok(document),
        None => Err(AccountError::MalformedPlist(PlistSource::AppToken)),
    }
}

/// The token for an application that an account gets out of a reply.
pub open spec fn granted_token(spd: Option<EntriesModel>, app: Seq<char>, reply: EntriesModel) -> Result<
    AppTokenModel,
    ErrorModel,
> {
    match credentials_in(spd) {
        Err(error) => Err(error),
        Ok(credentials) => match token_document(reply, credentials.session_key) {
            Err(error) => Err(error),
            Ok(document) => token_in(document, qualified(app)),
        },
    }
}

impl AppleAccount {
    /// What the account shows to ask for a token.
    pub fn credentials(&self) -> (credentials: Result<Credentials, AccountError>)
        ensures
            error::outcome(credentials) == credentials_in(self@.spd),
    {
        match &self.spd {
            None => Err(AccountError::SpdUnavailable(SpdUse::AppToken)),
            Some(spd) => {
                let adsid = spd.get_str("adsid")?.to_owned();
                let auth_token = spd.get_str("GsIdmsToken")?.to_owned();
                let session_key = slice_to_vec(spd.get_data("sk")?);
                let cookie = slice_to_vec(spd.get_data("c")?);
                Ok(Credentials { adsid, auth_token, session_key, cookie })
            },
        }
    }

    /// The request for a token for an application.
    pub fn app_token_request(&self, app: &str, cpd: PlistDictionary) -> (request: Result<
        PlistDictionary,
        AccountError,
    >)
        ensures
            error::outcome(request) == account_request(self@.spd, app@, cpd@),
    {
        let app = qualify(app);
        let credentials = self.credentials()?;
        let bound = "apptokens".to_owned().concat(credentials.adsid.as_str()).concat(app.as_str());
        let checksum = hmac_sha256(
            credentials.session_key.as_slice(),
            bound.as_str().as_bytes(),
        ).unwrap();
        Ok(make_token_request(&credentials, app.as_str(), checksum, cpd))
    }

    /// The token for an application, out of the reply to the request for it.
    pub fn get_app_token(&self, app: &str, reply: &PlistDictionary) -> (token: Result<
        AppToken,
        AccountError,
    >)
        ensures
            error::outcome(token) == granted_token(self@.spd, app@, reply@),
    {
        let credentials = self.credentials()?;
        let document = decrypt_token_reply(reply, credentials.session_key.as_slice())?;
        let app = qualify(app);
        read_app_token(&document, app.as_str())
    }
}

} // verus!
