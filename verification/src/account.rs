//! The account: what is known of it, and what can be read from that.

use crate::crypto;
use crate::crypto::{aes256_cbc, aes256_gcm, base64_text, hmac_sha256, is_header_value};
use crate::error;
use crate::error::{AccountError, ErrorModel, SpdUse};
use crate::plist_tree;
use crate::plist_tree::{EntriesModel, PlistDictionary};
use crate::types;
use crate::types::{LoginState, LoginStateModel, TrustedNumber, TrustedNumberModel};
use vstd::prelude::*;
use vstd::slice::*;
use vstd::string::*;
use vstd::utf8::*;

verus! {

/// An Apple account and the progress of signing in to it.
#[derive(Debug)]
pub struct AppleAccount {
    pub email: String,
    /// What the server sent about the account at the last sign-in.
    pub spd: Option<PlistDictionary>,
    pub trusted_phone_numbers: Option<Vec<TrustedNumber>>,
    pub login_state: LoginState,
    pub debug: bool,
    /// What to tell the user at the next question.
    pub last_error: Option<String>,
}

/// An `AppleAccount` over the models of what it holds.
pub struct AccountModel {
    pub email: Seq<char>,
    pub spd: Option<EntriesModel>,
    pub numbers: Option<Seq<TrustedNumberModel>>,
    pub login_state: LoginStateModel,
    pub debug: bool,
    pub last_error: Option<Seq<char>>,
}

/// The entries of an optional dictionary.
pub open spec fn optional_entries(dictionary: Option<PlistDictionary>) -> Option<EntriesModel> {
    match dictionary {
        Some(dictionary) => Some(dictionary@),
        None => None,
    }
}

/// The models of an optional list of numbers.
pub open spec fn optional_numbers(numbers: Option<Vec<TrustedNumber>>) -> Option<
    Seq<TrustedNumberModel>,
> {
    match numbers {
        Some(numbers) => Some(types::number_models(numbers@)),
        None => None,
    }
}

impl View for AppleAccount {
    type V = AccountModel;

    open spec fn view(&self) -> AccountModel {
        AccountModel {
            email: self.email@,
            spd: optional_entries(self.spd),
            numbers: optional_numbers(self.trusted_phone_numbers),
            login_state: self.login_state@,
            debug: self.debug,
            last_error: types::optional_text(self.last_error),
        }
    }
}

/// An account that nobody has signed in to yet.
pub open spec fn fresh_account(email: Seq<char>, debug: bool) -> AccountModel {
    AccountModel {
        email,
        spd: None,
        numbers: None,
        login_state: LoginStateModel::NeedsLogin,
        debug,
        last_error: None,
    }
}

/// The first and last name in the account data.
pub open spec fn account_name(spd: Option<EntriesModel>) -> Result<
    (Seq<char>, Seq<char>),
    ErrorModel,
> {
    match spd {
        None => Err(ErrorModel::SpdUnavailable(SpdUse::Name)),
        Some(entries) => match (
            plist_tree::string_at(entries, "fn"@),
            plist_tree::string_at(entries, "ln"@),
        ) {
            (Err(error), _) => Err(error),
            (_, Err(error)) => Err(error),
            (Ok(first), Ok(last)) => Ok((first, last)),
        },
    }
}

/// The password equivalent token in the account data.
pub open spec fn account_pet(spd: Option<EntriesModel>) -> Result<Seq<char>, ErrorModel> {
    match spd {
        None => Err(ErrorModel::SpdUnavailable(SpdUse::Pet)),
        Some(entries) => match plist_tree::dictionary_at(entries, "t"@) {
            Err(error) => Err(error),
            Ok(tokens) => match plist_tree::dictionary_at(tokens, "com.apple.gs.idms.pet"@) {
                Err(error) => Err(error),
                Ok(token) => plist_tree::string_at(token, "token"@),
            },
        },
    }
}

/// Whether a list of numbers holds one with the given id.
pub open spec fn is_listed(numbers: Seq<TrustedNumberModel>, id: u32) -> bool {
    exists|i: int| 0 <= i < numbers.len() && (#[trigger] numbers[i]).id == id
}

/// The state that the choice of a number leads to: a message is due to it if it is trusted.
pub open spec fn number_choice(numbers: Option<Seq<TrustedNumberModel>>, id: u32) -> Result<
    LoginStateModel,
    ErrorModel,
> {
    if numbers is Some && is_listed(numbers->0, id) {
        Ok(LoginStateModel::NeedsSMS2FA(id))
    } else {
        Err(ErrorModel::NumberNotFound)
    }
}

/// The token that names the account in a two factor request.
pub open spec fn identity_token(adsid: Seq<char>, token: Seq<char>) -> Seq<char> {
    crypto::base64_standard(encode_utf8(adsid + ":"@ + token))
}

/// The headers that a two factor request carries besides those of the device.
pub open spec fn two_factor_headers(spd: Option<EntriesModel>, routing_info: Seq<char>) -> Result<
    Seq<(Seq<char>, Seq<char>)>,
    ErrorModel,
> {
    match spd {
        None => Err(ErrorModel::SpdUnavailable(SpdUse::Headers)),
        Some(entries) => match (
            plist_tree::string_at(entries, "adsid"@),
            plist_tree::string_at(entries, "GsIdmsToken"@),
        ) {
            (Err(error), _) => Err(error),
            (_, Err(error)) => Err(error),
            (Ok(adsid), Ok(token)) => if crypto::header_safe(routing_info) {
                Ok(named_headers(identity_token(adsid, token), routing_info))
            } else {
                Err(ErrorModel::InvalidHeaderValue)
            },
        },
    }
}

/// The two headers under their names.
pub open spec fn named_headers(identity: Seq<char>, routing_info: Seq<char>) -> Seq<
    (Seq<char>, Seq<char>),
> {
    seq![("X-Apple-Identity-Token"@, identity), ("X-Apple-I-MD-RINFO"@, routing_info)]
}

/// The two headers under their names, where both values may stand in a header.
pub open spec fn labelled_headers(identity: Seq<char>, routing_info: Seq<char>) -> Result<
    Seq<(Seq<char>, Seq<char>)>,
    ErrorModel,
> {
    if crypto::header_safe(identity) && crypto::header_safe(routing_info) {
        Ok(named_headers(identity, routing_info))
    } else {
        Err(ErrorModel::InvalidHeaderValue)
    }
}

/// The texts of a list of header pairs.
pub open spec fn header_models(headers: Seq<(String, String)>) -> Seq<(Seq<char>, Seq<char>)> {
    headers.map_values(|header: (String, String)| (header.0@, header.1@))
}

/// A key that is derived from the shared key for one purpose.
pub open spec fn session_key(key: Seq<u8>, name: Seq<char>) -> Seq<u8> {
    crypto::hmac_sha256_code(key, encode_utf8(name))
}

/// The account data in the clear.
pub open spec fn spd_plaintext(key: Seq<u8>, data: Seq<u8>) -> Result<Seq<u8>, ErrorModel> {
    match crypto::aes256_cbc_plaintext(
        session_key(key, "extra data key:"@),
        session_key(key, "extra data iv:"@).take(16),
        data,
    ) {
        Some(plaintext) => Ok(plaintext),
        None => Err(ErrorModel::SpdDecryption),
    }
}

/// The three bytes that every encrypted token starts with.
pub open spec fn token_header() -> Seq<u8> {
    seq![0x58u8, 0x59u8, 0x5au8]
}

/// A token frame is a three byte header, a 16 byte nonce, and a ciphertext with a 16 byte tag. This
/// is what is wrong with one, or its nonce and its ciphertext.
pub open spec fn token_frame(data: Seq<u8>) -> Result<(Seq<u8>, Seq<u8>), ErrorModel> {
    if data.len() < 35 {
        Err(ErrorModel::TokenTooShort(data.len()))
    } else if data.take(3) != token_header() {
        Err(ErrorModel::UnknownTokenFormat(data.take(3)))
    } else {
        Ok((data.subrange(3, 19), data.skip(19)))
    }
}

/// An encrypted token in the clear.
pub open spec fn token_plaintext(data: Seq<u8>, key: Seq<u8>) -> Result<Seq<u8>, ErrorModel> {
    match token_frame(data) {
        Err(error) => Err(error),
        Ok((nonce, sealed)) => if key.len() != 32 {
            Err(ErrorModel::SessionKeyLength(key.len()))
        } else {
            match crypto::aes256_gcm_plaintext(key, nonce, token_header(), sealed) {
                Some(plaintext) => Ok(plaintext),
                None => Err(ErrorModel::TokenDecryption),
            }
        },
    }
}

/// How an account presents itself: its owner's name where it is known, its address and its state.
pub open spec fn account_text(account: AccountModel) -> Seq<char> {
    (match account_name(account.spd) {
        Ok((first, last)) => "Apple Account: "@ + first + " "@ + last + " "@,
        Err(_) => "Apple Account: "@,
    }) + account.email + " ("@ + types::state_text(account.login_state) + ")"@
}

/// Collects what an account needs before it is built.
#[derive(Debug)]
pub struct AppleAccountBuilder {
    pub email: String,
}

impl AppleAccountBuilder {
    /// Starts with the address of the account.
    pub fn new(email: &str) -> (builder: AppleAccountBuilder)
        ensures
            builder.email@ == email@,
    {
        AppleAccountBuilder { email: email.to_owned() }
    }

    /// Builds the account.
    pub fn build(self, debug: bool) -> (account: AppleAccount)
        ensures
            account@ == fresh_account(self.email@, debug),
    {
        AppleAccount::new(self.email.as_str(), debug)
    }
}

impl AppleAccount {
    /// Starts to build an account with the given address.
    pub fn builder(email: &str) -> (builder: AppleAccountBuilder)
        ensures
            builder.email@ == email@,
    {
        AppleAccountBuilder::new(email)
    }

    /// An account with the given address that nobody has signed in to yet.
    pub fn new(email: &str, debug: bool) -> (account: AppleAccount)
        ensures
            account@ == fresh_account(email@, debug),
    {
        AppleAccount {
            email: email.to_owned(),
            spd: None,
            trusted_phone_numbers: None,
            login_state: LoginState::NeedsLogin,
            debug,
            last_error: None,
        }
    }

    /// The first and last name of the account's owner.
    pub fn get_name(&self) -> (name: Result<(String, String), AccountError>)
        ensures
            match name {
                Ok((first, last)) => account_name(self@.spd) == Ok::<
                    (Seq<char>, Seq<char>),
                    ErrorModel,
                >((first@, last@)),
                Err(error) => account_name(self@.spd) == Err::<(Seq<char>, Seq<char>), ErrorModel>(
                    error@,
                ),
            },
    {
        match &self.spd {
            None => Err(AccountError::SpdUnavailable(SpdUse::Name)),
            Some(spd) => {
                let first = spd.get_str("fn")?.to_owned();
                let last = spd.get_str("ln")?.to_owned();
                Ok((first, last))
            },
        }
    }

    /// The password equivalent token of the account.
    pub fn get_pet(&self) -> (pet: Result<String, AccountError>)
        ensures
            error::outcome(pet) == account_pet(self@.spd),
    {
        match &self.spd {
            None => Err(AccountError::SpdUnavailable(SpdUse::Pet)),
            Some(spd) => {
                let tokens = spd.get_dict("t")?;
                let token = tokens.get_dict("com.apple.gs.idms.pet")?;
                Ok(token.get_str("token")?.to_owned())
            },
        }
    }

    /// Chooses the trusted number that a message is to go to.
    pub fn select_number(&self, selected_number_id: u32) -> (state: Result<
        LoginState,
        AccountError,
    >)
        ensures
            error::outcome(state) == number_choice(self@.numbers, selected_number_id),
    {
        match &self.trusted_phone_numbers {
            None => Err(AccountError::NumberNotFound),
            Some(numbers) => {
                let ghost models = types::number_models(numbers@);
                let mut i: usize = 0;
                while i < numbers.len()
                    invariant
                        i <= numbers@.len(),
                        self.trusted_phone_numbers == Some(*numbers),
                        models == types::number_models(numbers@),
                        forall|j: int|
                            0 <= j < i ==> (#[trigger] models[j]).id != selected_number_id,
                    decreases numbers@.len() - i,
                {
                    assert(models[i as int].id == numbers@[i as int].id);
                    if numbers[i].id == selected_number_id {
                        return Ok(LoginState::NeedsSMS2FA(selected_number_id));
                    }
                    i = i + 1;
                }
                Err(AccountError::NumberNotFound)
            },
        }
    }

    /// The headers that a two factor request carries besides those of the device.
    pub fn build_2fa_headers(&self, routing_info: &str) -> (headers: Result<
        Vec<(String, String)>,
        AccountError,
    >)
        ensures
            match headers {
                Ok(pairs) => two_factor_headers(self@.spd, routing_info@) == Ok::<
                    Seq<(Seq<char>, Seq<char>)>,
                    ErrorModel,
                >(header_models(pairs@)),
                Err(error) => two_factor_headers(self@.spd, routing_info@) == Err::<
                    Seq<(Seq<char>, Seq<char>)>,
                    ErrorModel,
                >(error@),
            },
    {
        match &self.spd {
            None => Err(AccountError::SpdUnavailable(SpdUse::Headers)),
            Some(spd) => {
                let adsid = spd.get_str("adsid")?;
                let token = spd.get_str("GsIdmsToken")?;
                let identity = adsid.to_owned().concat(":").concat(token);
                let encoded = base64_text(identity.as_str().as_bytes());
                proof {
                    crypto::lemma_base64_is_header_safe(encode_utf8(identity@));
                }
                label_2fa_headers(encoded, routing_info)
            },
        }
    }

    /// A key that is derived from the shared key for one purpose.
    pub fn create_session_key(key: &[u8], name: &str) -> (derived: Vec<u8>)
        ensures
            derived@ == session_key(key@, name@),
            derived@.len() == 32,
    {
        hmac_sha256(key, name.as_bytes()).unwrap()
    }

    /// Decrypts the account data of a sign-in reply. Its padding takes one to 16 bytes.
    pub fn decrypt_cbc(key: &[u8], data: &[u8]) -> (plaintext: Result<Vec<u8>, AccountError>)
        ensures
            error::outcome(plaintext) == spd_plaintext(key@, data@),
            plaintext is Ok ==> 1 <= data@.len() - plaintext->Ok_0@.len() <= 16,
    {
        let data_key = AppleAccount::create_session_key(key, "extra data key:");
        let data_iv = AppleAccount::create_session_key(key, "extra data iv:");
        let data_iv = slice_subrange(data_iv.as_slice(), 0, 16);
        match aes256_cbc(data_key.as_slice(), data_iv, data) {
            Ok(plaintext) => Ok(plaintext),
            Err(_) => Err(AccountError::SpdDecryption),
        }
    }

    /// Decrypts an encrypted token. Its header, nonce and tag take 35 bytes.
    pub fn decrypt_gcm(data: &[u8], key: &[u8]) -> (plaintext: Result<Vec<u8>, AccountError>)
        ensures
            error::outcome(plaintext) == token_plaintext(data@, key@),
            plaintext is Ok ==> plaintext->Ok_0@.len() + 35 == data@.len(),
    {
        let (nonce, sealed) = split_token(data)?;
        if key.len() != 32 {
            return Err(AccountError::SessionKeyLength(key.len()));
        }
        let header = slice_subrange(data, 0, 3);
        match aes256_gcm(key, nonce, header, sealed) {
            Ok(plaintext) => Ok(plaintext),
            Err(_) => Err(AccountError::TokenDecryption),
        }
    }

    /// How the account presents itself.
    pub fn to_string(&self) -> (res: String)
        ensures
            res@ == account_text(self@),
    {
        let state = self.login_state.debug_text();
        let start = match self.get_name() {
            Ok((first, last)) => "Apple Account: ".to_owned().concat(first.as_str()).concat(
                " ",
            ).concat(last.as_str()).concat(" "),
            Err(_) => "Apple Account: ".to_owned(),
        };
        start.concat(self.email.as_str()).concat(" (").concat(state.as_str()).concat(")")
    }
}

/// Puts the two headers under their names, where both values may stand in a header.
pub fn label_2fa_headers(identity: String, routing_info: &str) -> (headers: Result<
    Vec<(String, String)>,
    AccountError,
>)
    ensures
        match headers {
            Ok(pairs) => labelled_headers(identity@, routing_info@) == Ok::<
                Seq<(Seq<char>, Seq<char>)>,
                ErrorModel,
            >(header_models(pairs@)),
            Err(error) => labelled_headers(identity@, routing_info@) == Err::<
                Seq<(Seq<char>, Seq<char>)>,
                ErrorModel,
            >(error@),
        },
{
    if !is_header_value(identity.as_str()) || !is_header_value(routing_info) {
        return Err(AccountError::InvalidHeaderValue);
    }
    let mut pairs: Vec<(String, String)> = Vec::new();
    let ghost identity_text = identity@;
    pairs.push(("X-Apple-Identity-Token".to_owned(), identity));
    pairs.push(("X-Apple-I-MD-RINFO".to_owned(), routing_info.to_owned()));
    assert(header_models(pairs@) =~= named_headers(identity_text, routing_info@));
    Ok(pairs)
}

/// Splits an encrypted token into its nonce and its ciphertext.
pub fn split_token(data: &[u8]) -> (parts: Result<(&[u8], &[u8]), AccountError>)
    ensures
        match parts {
            Ok((nonce, sealed)) => token_frame(data@) == Ok::<(Seq<u8>, Seq<u8>), ErrorModel>(
                (nonce@, sealed@),
            ),
            Err(error) => token_frame(data@) == Err::<(Seq<u8>, Seq<u8>), ErrorModel>(error@),
        },
{
    if data.len() < 3 + 16 + 16 {
        return Err(AccountError::TokenTooShort(data.len()));
    }
    let header = slice_subrange(data, 0, 3);
    assert(header@ =~= data@.take(3));
    if header[0] != 0x58 || header[1] != 0x59 || header[2] != 0x5a {
        return Err(AccountError::UnknownTokenFormat(slice_to_vec(header)));
    }
    assert(header@ =~= token_header());
    let nonce = slice_subrange(data, 3, 19);
    let sealed = slice_subrange(data, 19, data.len());
    assert(sealed@ =~= data@.skip(19));
    Ok((nonce, sealed))
}

} // verus!
