//! The exchange of proofs with which an account shows that it knows its password.

use crate::account;
use crate::account::{AccountModel, AppleAccount};
use crate::crypto;
use crate::crypto::{
    hex_text, pbkdf2_sha256, random_byte, sha256, srp_process_reply, srp_public_value,
    srp_verify_server,
};
use crate::error;
use crate::error::{AccountError, ErrorModel, PlistSource};
use crate::plist_tree;
use crate::plist_tree::{parse_plist, EntriesModel, PlistDictionary, PlistModel, PlistValue};
use crate::text::same_text;
use crate::types::{LoginState, LoginStateModel};
use vstd::prelude::*;
use vstd::slice::*;
use vstd::utf8::*;

verus! {

/// A request to the service: its header, and what is asked.
pub open spec fn enveloped(request: EntriesModel) -> EntriesModel {
    seq![
        ("Header"@, PlistModel::Dictionary(seq![("Version"@, PlistModel::String("1.0.1"@))])),
        ("Request"@, PlistModel::Dictionary(request)),
    ]
}

/// The request that opens an exchange: the client's public value, and the protocols it speaks.
pub open spec fn init_request(email: Seq<char>, public: Seq<u8>, cpd: EntriesModel) -> EntriesModel {
    enveloped(
        seq![
            ("A2k"@, PlistModel::Data(public)),
            ("cpd"@, PlistModel::Dictionary(cpd)),
            ("o"@, PlistModel::String("init"@)),
            (
                "ps"@,
                PlistModel::Array(seq![PlistModel::String("s2k"@), PlistModel::String("s2k_fo"@)]),
            ),
            ("u"@, PlistModel::String(email)),
        ],
    )
}

/// The request that carries the client's proof.
pub open spec fn proof_request(
    email: Seq<char>,
    client_proof: Seq<u8>,
    cookie: Seq<char>,
    cpd: EntriesModel,
) -> EntriesModel {
    enveloped(
        seq![
            ("M1"@, PlistModel::Data(client_proof)),
            ("c"@, PlistModel::String(cookie)),
            ("cpd"@, PlistModel::Dictionary(cpd)),
            ("o"@, PlistModel::String("complete"@)),
            ("u"@, PlistModel::String(email)),
        ],
    )
}

/// Puts a request under its header.
pub fn envelope(request: PlistDictionary) -> (enclosed: PlistDictionary)
    ensures
        enclosed@ == enveloped(request@),
{
    let header = PlistDictionary::new().with("Version", PlistValue::text("1.0.1"));
    assert(header@ =~= seq![("Version"@, PlistModel::String("1.0.1"@))]);
    let ghost body = request@;
    let enclosed = PlistDictionary::new().with("Header", PlistValue::dictionary(header)).with(
        "Request",
        PlistValue::dictionary(request),
    );
    assert(enclosed@ =~= enveloped(body));
    enclosed
}

/// The request that opens an exchange, for a public value of the client.
pub fn make_init_request(email: &str, public: Vec<u8>, cpd: PlistDictionary) -> (request:
    PlistDictionary)
    ensures
        request@ == init_request(email@, public@, cpd@),
{
    let ghost public_bytes = public@;
    let ghost client_data = cpd@;
    let mut protocols: Vec<String> = Vec::new();
    protocols.push("s2k".to_owned());
    protocols.push("s2k_fo".to_owned());
    let protocols = PlistValue::texts(protocols);
    assert(protocols@->Array_0 =~= seq![
        PlistModel::String("s2k"@),
        PlistModel::String("s2k_fo"@),
    ]);
    let request = PlistDictionary::new().with("A2k", PlistValue::Data(public)).with(
        "cpd",
        PlistValue::dictionary(cpd),
    ).with("o", PlistValue::text("init")).with("ps", protocols).with("u", PlistValue::text(email));
    assert(request@ =~= seq![
        ("A2k"@, PlistModel::Data(public_bytes)),
        ("cpd"@, PlistModel::Dictionary(client_data)),
        ("o"@, PlistModel::String("init"@)),
        (
            "ps"@,
            PlistModel::Array(seq![PlistModel::String("s2k"@), PlistModel::String("s2k_fo"@)]),
        ),
        ("u"@, PlistModel::String(email@)),
    ]);
    envelope(request)
}

/// The request that carries a proof of the client.
pub fn make_proof_request(
    email: &str,
    client_proof: Vec<u8>,
    cookie: &str,
    cpd: PlistDictionary,
) -> (request: PlistDictionary)
    ensures
        request@ == proof_request(email@, client_proof@, cookie@, cpd@),
{
    let ghost proof_bytes = client_proof@;
    let ghost client_data = cpd@;
    let request = PlistDictionary::new().with("M1", PlistValue::Data(client_proof)).with(
        "c",
        PlistValue::text(cookie),
    ).with("cpd", PlistValue::dictionary(cpd)).with("o", PlistValue::text("complete")).with(
        "u",
        PlistValue::text(email),
    );
    assert(request@ =~= seq![
        ("M1"@, PlistModel::Data(proof_bytes)),
        ("c"@, PlistModel::String(cookie@)),
        ("cpd"@, PlistModel::Dictionary(client_data)),
        ("o"@, PlistModel::String("complete"@)),
        ("u"@, PlistModel::String(email@)),
    ]);
    envelope(request)
}

/// How the password enters the key derivation.
#[derive(Debug, Clone, Copy, PartialEq, Eq, Structural)]
pub enum Protocol {
    /// By its digest.
    S2k,
    /// By the hexadecimal text of its digest.
    S2kFo,
}

/// What the server answers to the first request.
#[derive(Debug)]
pub struct LoginChallenge {
    pub salt: Vec<u8>,
    pub server_public: Vec<u8>,
    pub iterations: i64,
    pub cookie: String,
    pub protocol: Protocol,
}

/// A `LoginChallenge` over plain sequences.
pub struct ChallengeModel {
    pub salt: Seq<u8>,
    pub server_public: Seq<u8>,
    pub iterations: i64,
    pub cookie: Seq<char>,
    pub protocol: Protocol,
}

impl View for LoginChallenge {
    type V = ChallengeModel;

    open spec fn view(&self) -> ChallengeModel {
        ChallengeModel {
            salt: self.salt@,
            server_public: self.server_public@,
            iterations: self.iterations,
            cookie: self.cookie@,
            protocol: self.protocol,
        }
    }
}

/// The protocol of a name.
pub open spec fn named_protocol(name: Seq<char>) -> Result<Protocol, ErrorModel> {
    if name == "s2k"@ {
        Ok(Protocol::S2k)
    } else if name == "s2k_fo"@ {
        Ok(Protocol::S2kFo)
    } else {
        Err(ErrorModel::UnsupportedProtocol(name))
    }
}

/// The challenge in a reply. Of several things that are wrong with it, the first counts.
pub open spec fn challenge_in(reply: EntriesModel) -> Result<ChallengeModel, ErrorModel> {
    match (
        plist_tree::data_at(reply, "s"@),
        plist_tree::data_at(reply, "B"@),
        plist_tree::integer_at(reply, "i"@),
        plist_tree::string_at(reply, "c"@),
        plist_tree::string_at(reply, "sp"@),
    ) {
        (Err(error), _, _, _, _) => Err(error),
        (_, Err(error), _, _, _) => Err(error),
        (_, _, Err(error), _, _) => Err(error),
        (_, _, _, Err(error), _) => Err(error),
        (_, _, _, _, Err(error)) => Err(error),
        (Ok(salt), Ok(server_public), Ok(iterations), Ok(cookie), Ok(name)) => match named_protocol(
            name,
        ) {
            Ok(protocol) => Ok(
                ChallengeModel { salt, server_public, iterations, cookie, protocol },
            ),
            Err(error) => Err(error),
        },
    }
}

impl LoginChallenge {
    /// Reads the challenge in a reply.
    pub fn parse(reply: &PlistDictionary) -> (challenge: Result<LoginChallenge, AccountError>)
        ensures
            error::outcome(challenge) == challenge_in(reply@),
    {
        let salt = slice_to_vec(reply.get_data("s")?);
        let server_public = slice_to_vec(reply.get_data("B")?);
        let iterations: i64 = reply.get_signed_integer("i")?;
        let cookie = reply.get_str("c")?.to_owned();
        let name = reply.get_str("sp")?;
        let protocol = if same_text(name, "s2k") {
            Protocol::S2k
        } else if same_text(name, "s2k_fo") {
            Protocol::S2kFo
        } else {
            return Err(AccountError::UnsupportedProtocol(name.to_owned()));
        };
        Ok(LoginChallenge { salt, server_public, iterations, cookie, protocol })
    }
}

/// What the key derivation is given of the digest of a password.
pub open spec fn derivation_input(digest: Seq<u8>, protocol: Protocol) -> Seq<u8> {
    match protocol {
        Protocol::S2k => digest,
        Protocol::S2kFo => encode_utf8(crypto::hex_lower(digest)),
    }
}

/// The key that stands for a password in an exchange. The iteration count is taken modulo the range
/// of 32 bit numbers.
pub open spec fn password_key(password: Seq<char>, challenge: ChallengeModel) -> Seq<u8> {
    crypto::pbkdf2_sha256_key(
        derivation_input(crypto::sha256_digest(encode_utf8(password)), challenge.protocol),
        challenge.salt,
        challenge.iterations as u32,
    )
}

/// Prepares the digest of a password for the key derivation.
pub fn prepare_digest(digest: Vec<u8>, protocol: Protocol) -> (input: Vec<u8>)
    ensures
        input@ == derivation_input(digest@, protocol),
{
    match protocol {
        Protocol::S2k => digest,
        Protocol::S2kFo => slice_to_vec(hex_text(digest.as_slice()).as_str().as_bytes()),
    }
}

/// Derives the key that stands for a password in an exchange.
pub fn derive_password(password: &str, challenge: &LoginChallenge) -> (key: [u8; 32])
    ensures
        key@ == password_key(password@, challenge@),
{
    let digest = sha256(password.as_bytes());
    let input = prepare_digest(digest, challenge.protocol);
    pbkdf2_sha256(
        input.as_slice(),
        challenge.salt.as_slice(),
        #[verifier::truncate] (challenge.iterations as u32),
    ).unwrap()
}

/// A secret of 32 random bytes.
fn random_secret() -> (secret: [u8; 32]) {
    let mut secret: [u8; 32] = [0u8; 32];
    let mut i: usize = 0;
    while i < 32
        decreases 32 - i,
    {
        secret[i] = random_byte();
        i = i + 1;
    }
    secret
}

/// An exchange in which the client has shown its proof and the server has yet to show its own.
#[derive(Debug)]
pub struct PendingExchange {
    pub secret: [u8; 32],
    pub username: String,
    pub password: [u8; 32],
    pub salt: Vec<u8>,
    pub server_public: Vec<u8>,
    /// The key that both sides share.
    pub key: Vec<u8>,
}

impl PendingExchange {
    /// The client's proof and the shared key that belong to the exchange.
    pub open spec fn agreement(self) -> Option<(Seq<u8>, Seq<u8>)> {
        crypto::srp_exchange(
            self.secret@,
            encode_utf8(self.username@),
            self.password@,
            self.salt@,
            self.server_public@,
        )
    }

    /// The proof that the server has to show.
    pub open spec fn server_proof(self) -> Option<Seq<u8>> {
        crypto::srp_server_proof(
            self.secret@,
            encode_utf8(self.username@),
            self.password@,
            self.salt@,
            self.server_public@,
        )
    }
}

/// What the server's reply says about the account, once the server's proof has been compared.
pub open spec fn spd_in(reply: EntriesModel, server_proof: Option<Seq<u8>>, key: Seq<u8>) -> Result<
    EntriesModel,
    ErrorModel,
> {
    match plist_tree::data_at(reply, "M2"@) {
        Err(error) => Err(error),
        Ok(shown) => if server_proof != Some(shown) {
            Err(ErrorModel::ServerProofMismatch)
        } else {
            match plist_tree::data_at(reply, "spd"@) {
                Err(error) => Err(error),
                Ok(data) => match account::spd_plaintext(key, data) {
                    Err(error) => Err(error),
                    Ok(plaintext) => match plist_tree::parsed_plist(plaintext) {
                        Some(spd) => Ok(spd),
                        None => Err(ErrorModel::MalformedPlist(PlistSource::Spd)),
                    },
                },
            }
        },
    }
}

/// The state that a status asks for: what further proof the server wants, if any.
pub open spec fn wanted_state(status: EntriesModel) -> LoginStateModel {
    match plist_tree::lookup(status, "au"@) {
        Some(PlistModel::String(step)) => if step == "trustedDeviceSecondaryAuth"@ {
            LoginStateModel::NeedsDevice2FA
        } else if step == "secondaryAuth"@ {
            LoginStateModel::NeedsSMS2FA(1)
        } else if step == "repair"@ {
            LoginStateModel::LoggedIn
        } else {
            LoginStateModel::NeedsExtraStep(step)
        },
        _ => LoginStateModel::LoggedIn,
    }
}

/// The state that a reply asks for.
pub open spec fn replied_state(reply: EntriesModel) -> Result<LoginStateModel, ErrorModel> {
    match plist_tree::dictionary_at(reply, "Status"@) {
        Ok(status) => Ok(wanted_state(status)),
        Err(error) => Err(error),
    }
}

/// What the end of an exchange makes of an account, and the state it leads to. The account data is
/// kept even where the status is missing.
pub open spec fn exchanged(
    account: AccountModel,
    spd: Result<EntriesModel, ErrorModel>,
    reply: EntriesModel,
) -> (AccountModel, Result<LoginStateModel, ErrorModel>) {
    match spd {
        Err(error) => (account, Err(error)),
        Ok(spd) => (AccountModel { spd: Some(spd), ..account }, replied_state(reply)),
    }
}

/// Reads from a status what further proof the server wants.
pub fn read_status(status: &PlistDictionary) -> (state: LoginState)
    ensures
        state@ == wanted_state(status@),
{
    match status.get("au") {
        Some(PlistValue::String(step)) => {
            let name = step.as_str();
            if same_text(name, "trustedDeviceSecondaryAuth") {
                LoginState::NeedsDevice2FA
            } else if same_text(name, "secondaryAuth") {
                // The first number is a guess, which the user can correct.
                LoginState::NeedsSMS2FA(1)
            } else if same_text(name, "repair") {
                // The account has no second factor.
                LoginState::LoggedIn
            } else {
                LoginState::NeedsExtraStep(step.clone())
            }
        },
        _ => LoginState::LoggedIn,
    }
}

impl PendingExchange {
    /// Compares the server's proof in a reply.
    fn check_server_proof(&self, reply: &PlistDictionary) -> (checked: Result<(), AccountError>)
        requires
            self.server_public@.len() <= 256,
        ensures
            error::outcome(checked) == (match plist_tree::data_at(reply@, "M2"@) {
                Err(error) => Err(error),
                Ok(shown) => if self.server_proof() == Some(shown) {
                    Ok(())
                } else {
                    Err(ErrorModel::ServerProofMismatch)
                },
            }),
    {
        let shown = reply.get_data("M2")?;
        match srp_verify_server(
            &self.secret,
            self.username.as_str().as_bytes(),
            self.password.as_slice(),
            self.salt.as_slice(),
            self.server_public.as_slice(),
            shown,
        ) {
            Ok(_) => Ok(()),
            Err(_) => Err(AccountError::ServerProofMismatch),
        }
    }

    /// Reads what a reply says about the account, once the server's proof has been compared.
    pub fn read_spd(&self, reply: &PlistDictionary) -> (spd: Result<PlistDictionary, AccountError>)
        requires
            self.server_public@.len() <= 256,
        ensures
            error::outcome(spd) == spd_in(reply@, self.server_proof(), self.key@),
    {
        self.check_server_proof(reply)?;
        let data = reply.get_data("spd")?;
        let plaintext = AppleAccount::decrypt_cbc(self.key.as_slice(), data)?;
        match parse_plist(plaintext.as_slice()) {
            Some(spd) => Ok(spd),
            None => Err(AccountError::MalformedPlist(PlistSource::Spd)),
        }
    }
}

impl AppleAccount {
    /// Opens an exchange: the client's secret, and the request that tells the server its public
    /// value. The secret is random, so only the request is fixed by it.
    pub fn begin_exchange(&self, cpd: PlistDictionary) -> (opening: ([u8; 32], PlistDictionary))
        ensures
            opening.1@ == init_request(self@.email, crypto::srp_public(opening.0@), cpd@),
    {
        let secret = random_secret();
        let public = srp_public_value(&secret);
        (secret, make_init_request(self.email.as_str(), public, cpd))
    }

    /// Answers a challenge: the pending exchange, and the request that carries the client's proof.
    pub fn answer_challenge(
        &self,
        secret: [u8; 32],
        password: &str,
        challenge: LoginChallenge,
        cpd: PlistDictionary,
    ) -> (answer: Result<(PendingExchange, PlistDictionary), AccountError>)
        requires
            challenge.server_public@.len() <= 256,
        ensures
            match answer {
                Ok((pending, request)) => {
                    &&& pending.secret == secret
                    &&& pending.username@ == self@.email
                    &&& pending.password@ == password_key(password@, challenge@)
                    &&& pending.salt@ == challenge@.salt
                    &&& pending.server_public@ == challenge@.server_public
                    &&& pending.agreement() matches Some((shown, key))
                    &&& pending.key@ == key
                    &&& request@ == proof_request(self@.email, shown, challenge@.cookie, cpd@)
                },
                Err(error) => {
                    &&& error@ == ErrorModel::IllegalServerKey
                    &&& crypto::srp_exchange(
                        secret@,
                        encode_utf8(self@.email),
                        password_key(password@, challenge@),
                        challenge@.salt,
                        challenge@.server_public,
                    ) is None
                },
            },
    {
        let key = derive_password(password, &challenge);
        match srp_process_reply(
            &secret,
            self.email.as_str().as_bytes(),
            key.as_slice(),
            challenge.salt.as_slice(),
            challenge.server_public.as_slice(),
        ) {
            Ok((client_proof, shared)) => {
                let request = make_proof_request(
                    self.email.as_str(),
                    client_proof,
                    challenge.cookie.as_str(),
                    cpd,
                );
                let pending = PendingExchange {
                    secret,
                    username: self.email.clone(),
                    password: key,
                    salt: challenge.salt,
                    server_public: challenge.server_public,
                    key: shared,
                };
                Ok((pending, request))
            },
            Err(_) => Err(AccountError::IllegalServerKey),
        }
    }

    /// Keeps what a reply says about the account, and tells the state that the reply asks for.
    pub fn take_spd(&mut self, spd: PlistDictionary, reply: &PlistDictionary) -> (state: Result<
        LoginState,
        AccountError,
    >)
        ensures
            (final(self)@, error::outcome(state)) == exchanged(old(self)@, Ok(spd@), reply@),
    {
        self.spd = Some(spd);
        let status = reply.get_dict("Status")?;
        Ok(read_status(status))
    }

    /// Ends an exchange with the server's reply to the client's proof.
    pub fn finish_exchange(&mut self, pending: &PendingExchange, reply: &PlistDictionary) -> (state:
        Result<LoginState, AccountError>)
        requires
            pending.server_public@.len() <= 256,
        ensures
            (final(self)@, error::outcome(state)) == exchanged(
                old(self)@,
                spd_in(reply@, pending.server_proof(), pending.key@),
                reply@,
            ),
    {
        let spd = pending.read_spd(reply)?;
        self.take_spd(spd, reply)
    }
}

} // verus!
