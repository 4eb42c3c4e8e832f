//! What an exchange of proofs shows to the server, and what it takes from it.

use crate::account;
use crate::account::AccountModel;
use crate::account_laws;
use crate::crypto;
use crate::error::{EntryKind, ErrorModel, PlistSource};
use crate::exchange;
use crate::exchange::{ChallengeModel, LoginChallenge, PendingExchange, Protocol};
use crate::plist_tree;
use crate::plist_tree::{EntriesModel, PlistModel};
use crate::reading_laws;
use crate::types::LoginStateModel;
use vstd::prelude::*;
use vstd::utf8::*;

verus! {

/// The key that stands for a password comes from the digest of the whole password, under the salt
/// and the number of rounds of the challenge: from the digest itself, or from its hexadecimal text
/// where the server chose that protocol.
pub proof fn law_whole_password_counts(password: Seq<char>, challenge: ChallengeModel)
    ensures
        challenge.protocol == Protocol::S2k ==> exchange::password_key(password, challenge)
            == crypto::pbkdf2_sha256_key(
            crypto::sha256_digest(encode_utf8(password)),
            challenge.salt,
            challenge.iterations as u32,
        ),
        challenge.protocol == Protocol::S2kFo ==> exchange::password_key(password, challenge)
            == crypto::pbkdf2_sha256_key(
            encode_utf8(crypto::hex_lower(crypto::sha256_digest(encode_utf8(password)))),
            challenge.salt,
            challenge.iterations as u32,
        ),
{
}

/// The key depends on the challenge by its salt, its rounds and its protocol alone: challenges that
/// agree in these give the same key, whatever else they hold.
pub proof fn law_keys_rest_on_three_things(
    password: Seq<char>,
    challenge: ChallengeModel,
    other: ChallengeModel,
)
    requires
        challenge.salt == other.salt,
        challenge.iterations == other.iterations,
        challenge.protocol == other.protocol,
    ensures
        exchange::password_key(password, challenge) == exchange::password_key(password, other),
{
}

/// The hexadecimal text of some bytes has two digits for each, which stand for it.
pub proof fn law_hexadecimal_stands_for_bytes(bytes: Seq<u8>, i: int)
    requires
        0 <= i < bytes.len(),
    ensures
        crypto::hex_lower(bytes).len() == 2 * bytes.len(),
        hex_value(crypto::hex_lower(bytes)[2 * i]) * 16 + hex_value(
            crypto::hex_lower(bytes)[2 * i + 1],
        ) == bytes[i],
{
    assert((2 * i) / 2 == i && (2 * i + 1) / 2 == i && (2 * i + 1) % 2 == 1);
}

/// The value of a lower case hexadecimal digit.
pub open spec fn hex_value(digit: char) -> int {
    if '0' <= digit <= '9' {
        digit as int - '0' as int
    } else if 'a' <= digit <= 'f' {
        digit as int - 'a' as int + 10
    } else {
        -256
    }
}

/// The name of a protocol.
pub open spec fn protocol_name(protocol: Protocol) -> Seq<char> {
    match protocol {
        Protocol::S2k => "s2k"@,
        Protocol::S2kFo => "s2k_fo"@,
    }
}

proof fn lemma_protocol_names_differ()
    ensures
        "s2k"@ != "s2k_fo"@,
{
    reveal_strlit("s2k");
    reveal_strlit("s2k_fo");
    assert("s2k"@.len() != "s2k_fo"@.len());
}

/// A challenge is exactly what the reply holds: each of its parts is the entry of its own key, and
/// a reply with all of them and a known protocol is never refused.
pub proof fn law_challenges_are_what_replies_hold(reply: EntriesModel, challenge: ChallengeModel)
    ensures
        exchange::challenge_in(reply) == Ok::<ChallengeModel, ErrorModel>(challenge) <==> {
            &&& plist_tree::lookup(reply, "s"@) == Some(PlistModel::Data(challenge.salt))
            &&& plist_tree::lookup(reply, "B"@) == Some(PlistModel::Data(challenge.server_public))
            &&& plist_tree::lookup(reply, "i"@) == Some(PlistModel::Integer(challenge.iterations))
            &&& plist_tree::lookup(reply, "c"@) == Some(PlistModel::String(challenge.cookie))
            &&& plist_tree::lookup(reply, "sp"@) == Some(
                PlistModel::String(protocol_name(challenge.protocol)),
            )
        },
{
    lemma_protocol_names_differ();
}

/// A reply without a challenge is refused for the first thing that it lacks, in the order of the
/// salt, the server's value, the rounds, the cookie and the protocol.
pub proof fn law_bad_challenges_are_refused(reply: EntriesModel, name: Seq<char>)
    ensures
        ({
            let salt = plist_tree::lookup(reply, "s"@);
            let public = plist_tree::lookup(reply, "B"@);
            let rounds = plist_tree::lookup(reply, "i"@);
            let cookie = plist_tree::lookup(reply, "c"@);
            let protocol = plist_tree::lookup(reply, "sp"@);
            let has_salt = salt is Some && salt->0 is Data;
            let has_public = has_salt && public is Some && public->0 is Data;
            let has_rounds = has_public && rounds is Some && rounds->0 is Integer;
            let has_cookie = has_rounds && cookie is Some && cookie->0 is String;
            &&& !has_salt ==> lacks(reply, EntryKind::Data, "s"@)
            &&& has_salt && !has_public ==> lacks(reply, EntryKind::Data, "B"@)
            &&& has_public && !has_rounds ==> lacks(reply, EntryKind::Integer, "i"@)
            &&& has_rounds && !has_cookie ==> lacks(reply, EntryKind::Text, "c"@)
            &&& has_cookie && !(protocol is Some && protocol->0 is String) ==> lacks(
                reply,
                EntryKind::Text,
                "sp"@,
            )
            &&& has_cookie && protocol == Some(PlistModel::String(name)) && name != "s2k"@ && name
                != "s2k_fo"@ ==> exchange::challenge_in(reply) == Err::<ChallengeModel, ErrorModel>(
                ErrorModel::UnsupportedProtocol(name),
            )
        }),
{
}

/// Whether a reply is refused because it lacks an entry.
pub open spec fn lacks(reply: EntriesModel, kind: EntryKind, key: Seq<char>) -> bool {
    exchange::challenge_in(reply) == Err::<ChallengeModel, ErrorModel>(
        ErrorModel::MissingEntry(kind, key),
    )
}

/// The model of a challenge tells what the challenge holds.
pub proof fn law_challenge_models_are_faithful(challenge: LoginChallenge)
    ensures
        challenge@.salt == challenge.salt@,
        challenge@.server_public == challenge.server_public@,
        challenge@.iterations == challenge.iterations,
        challenge@.cookie == challenge.cookie@,
        challenge@.protocol == challenge.protocol,
{
}

/// Whether a request is put under the header of the service and asks with some entries.
pub open spec fn asks_with(request: EntriesModel, entries: EntriesModel) -> bool {
    &&& request.len() == 2
    &&& plist_tree::lookup(request, "Header"@) == Some(
        PlistModel::Dictionary(seq![("Version"@, PlistModel::String("1.0.1"@))]),
    )
    &&& plist_tree::lookup(request, "Request"@) == Some(PlistModel::Dictionary(entries))
}

/// A request is put under its header as it is.
pub proof fn law_requests_are_put_under_a_header(entries: EntriesModel)
    ensures
        asks_with(exchange::enveloped(entries), entries),
{
    let request = exchange::enveloped(entries);
    reveal_strlit("Header");
    reveal_strlit("Request");
    assert("Header"@.len() != "Request"@.len());
    assert(request[0].0 != request[1].0);
    reading_laws::law_first_entry_is_found(request, 0);
    reading_laws::law_first_entry_is_found(request, 1);
}

/// The request that opens an exchange names the account, the client's public value, the data of
/// the client and the operation, each under its key, and besides the protocols nothing else.
pub proof fn law_opening_requests_name_the_account(
    email: Seq<char>,
    public: Seq<u8>,
    cpd: EntriesModel,
    entries: EntriesModel,
)
    requires
        asks_with(exchange::init_request(email, public, cpd), entries),
    ensures
        entries.len() == 5,
        plist_tree::lookup(entries, "A2k"@) == Some(PlistModel::Data(public)),
        plist_tree::lookup(entries, "cpd"@) == Some(PlistModel::Dictionary(cpd)),
        plist_tree::lookup(entries, "o"@) == Some(PlistModel::String("init"@)),
        plist_tree::lookup(entries, "u"@) == Some(PlistModel::String(email)),
        plist_tree::lookup(entries, "ps"@) is Some,
{
    let request = exchange::init_request(email, public, cpd);
    let body = request[1].1->Dictionary_0;
    law_requests_are_put_under_a_header(body);
    assert(entries == body);
    lemma_letters();
    reading_laws::law_first_entry_is_found(entries, 0);
    reading_laws::law_first_entry_is_found(entries, 1);
    reading_laws::law_first_entry_is_found(entries, 2);
    reading_laws::law_first_entry_is_found(entries, 3);
    reading_laws::law_first_entry_is_found(entries, 4);
}

/// The request with the client's proof names the account, the proof, the cookie of the challenge,
/// the data of the client and the operation, each under its key, and nothing else.
pub proof fn law_proof_requests_carry_the_proof(
    email: Seq<char>,
    client_proof: Seq<u8>,
    cookie: Seq<char>,
    cpd: EntriesModel,
    entries: EntriesModel,
)
    requires
        asks_with(exchange::proof_request(email, client_proof, cookie, cpd), entries),
    ensures
        entries.len() == 5,
        plist_tree::lookup(entries, "M1"@) == Some(PlistModel::Data(client_proof)),
        plist_tree::lookup(entries, "c"@) == Some(PlistModel::String(cookie)),
        plist_tree::lookup(entries, "cpd"@) == Some(PlistModel::Dictionary(cpd)),
        plist_tree::lookup(entries, "o"@) == Some(PlistModel::String("complete"@)),
        plist_tree::lookup(entries, "u"@) == Some(PlistModel::String(email)),
{
    let request = exchange::proof_request(email, client_proof, cookie, cpd);
    let body = request[1].1->Dictionary_0;
    law_requests_are_put_under_a_header(body);
    assert(entries == body);
    lemma_letters();
    reading_laws::law_first_entry_is_found(entries, 0);
    reading_laws::law_first_entry_is_found(entries, 1);
    reading_laws::law_first_entry_is_found(entries, 2);
    reading_laws::law_first_entry_is_found(entries, 3);
    reading_laws::law_first_entry_is_found(entries, 4);
}

/// The two requests of an exchange are made at all, under the header.
pub proof fn law_exchange_requests_have_a_header(
    email: Seq<char>,
    bytes: Seq<u8>,
    cookie: Seq<char>,
    cpd: EntriesModel,
)
    ensures
        exists|entries: EntriesModel| #[trigger]
            asks_with(exchange::init_request(email, bytes, cpd), entries),
        exists|entries: EntriesModel| #[trigger]
            asks_with(exchange::proof_request(email, bytes, cookie, cpd), entries),
{
    law_requests_are_put_under_a_header(
        exchange::init_request(email, bytes, cpd)[1].1->Dictionary_0,
    );
    law_requests_are_put_under_a_header(
        exchange::proof_request(email, bytes, cookie, cpd)[1].1->Dictionary_0,
    );
}

/// The keys of the requests differ.
pub proof fn lemma_letters()
    ensures
        "A2k"@.len() == 3 && "A2k"@[0] == 'A',
        "M1"@.len() == 2 && "M1"@[0] == 'M',
        "app"@.len() == 3 && "app"@[0] == 'a',
        "c"@.len() == 1 && "c"@[0] == 'c',
        "checksum"@.len() == 8,
        "cpd"@.len() == 3 && "cpd"@[0] == 'c',
        "o"@.len() == 1 && "o"@[0] == 'o',
        "ps"@.len() == 2 && "ps"@[0] == 'p',
        "t"@.len() == 1 && "t"@[0] == 't',
        "u"@.len() == 1 && "u"@[0] == 'u',
{
    reveal_strlit("A2k");
    reveal_strlit("M1");
    reveal_strlit("app");
    reveal_strlit("c");
    reveal_strlit("checksum");
    reveal_strlit("cpd");
    reveal_strlit("o");
    reveal_strlit("ps");
    reveal_strlit("t");
    reveal_strlit("u");
}

/// The proof of the client, the shared key and the proof of the server all belong to the same
/// exchange: that of the secret, the user name, the password key, the salt and the server's value,
/// each of them whole.
pub proof fn law_proofs_belong_to_one_exchange(pending: PendingExchange)
    ensures
        pending.agreement() == crypto::srp_exchange(
            pending.secret@,
            encode_utf8(pending.username@),
            pending.password@,
            pending.salt@,
            pending.server_public@,
        ),
        pending.server_proof() == crypto::srp_server_proof(
            pending.secret@,
            encode_utf8(pending.username@),
            pending.password@,
            pending.salt@,
            pending.server_public@,
        ),
{
}

/// Whether a reply shows the proof that is expected of the server.
pub open spec fn shows_proof(reply: EntriesModel, server_proof: Option<Seq<u8>>) -> bool {
    server_proof is Some && plist_tree::lookup(reply, "M2"@) == Some(
        PlistModel::Data(server_proof->0),
    )
}

/// The account data is what the data in the reply decrypts to, and it is taken exactly where the
/// server has shown its proof.
pub proof fn law_account_data_is_what_the_reply_holds(
    reply: EntriesModel,
    server_proof: Option<Seq<u8>>,
    key: Seq<u8>,
    data: Seq<u8>,
    message: Seq<u8>,
    entries: EntriesModel,
)
    requires
        plist_tree::lookup(reply, "spd"@) == Some(PlistModel::Data(data)),
        data.len() > 0 && data.len() % 16 == 0,
        crypto::aes256_cbc_blocks(
            crypto::hmac_sha256_code(key, encode_utf8("extra data key:"@)),
            crypto::hmac_sha256_code(key, encode_utf8("extra data iv:"@)).take(16),
            data,
        ) == message + crypto::pkcs7_padding(message.len()),
        plist_tree::parsed_plist(message) == Some(entries),
    ensures
        shows_proof(reply, server_proof) ==> exchange::spd_in(reply, server_proof, key) == Ok::<
            EntriesModel,
            ErrorModel,
        >(entries),
        !shows_proof(reply, server_proof) ==> exchange::spd_in(reply, server_proof, key) is Err,
{
    account_laws::law_account_data_is_decrypted(key, data, message);
}

/// A reply without account data is refused for the first thing that is wrong with it: the server's
/// proof is missing, it is wrong, the data is missing, it cannot be decrypted, or it is no property
/// list.
pub proof fn law_bad_account_data_is_refused(
    reply: EntriesModel,
    server_proof: Option<Seq<u8>>,
    key: Seq<u8>,
)
    ensures
        ({
            let result = exchange::spd_in(reply, server_proof, key);
            let shown = plist_tree::lookup(reply, "M2"@);
            let sent = plist_tree::lookup(reply, "spd"@);
            let plaintext = account::spd_plaintext(key, sent->0->Data_0);
            &&& !(shown is Some && shown->0 is Data) ==> result == Err::<EntriesModel, ErrorModel>(
                ErrorModel::MissingEntry(EntryKind::Data, "M2"@),
            )
            &&& shown is Some && shown->0 is Data && !shows_proof(reply, server_proof) ==> result
                == Err::<EntriesModel, ErrorModel>(ErrorModel::ServerProofMismatch)
            &&& shows_proof(reply, server_proof) && !(sent is Some && sent->0 is Data) ==> result
                == Err::<EntriesModel, ErrorModel>(
                ErrorModel::MissingEntry(EntryKind::Data, "spd"@),
            )
            &&& shows_proof(reply, server_proof) && sent is Some && sent->0 is Data
                && plaintext is Err ==> result == Err::<EntriesModel, ErrorModel>(
                ErrorModel::SpdDecryption,
            )
            &&& shows_proof(reply, server_proof) && sent is Some && sent->0 is Data
                && plaintext is Ok && plist_tree::parsed_plist(plaintext->Ok_0) is None ==> result
                == Err::<EntriesModel, ErrorModel>(ErrorModel::MalformedPlist(PlistSource::Spd))
            &&& result is Ok ==> shows_proof(reply, server_proof) && sent is Some
                && sent->0 is Data && plaintext is Ok && plist_tree::parsed_plist(plaintext->Ok_0)
                == Some(result->Ok_0)
        }),
{
}

/// What a status says of a further proof, if it says it in a string.
pub open spec fn wanted_step(status: EntriesModel) -> Option<Seq<char>> {
    match plist_tree::lookup(status, "au"@) {
        Some(PlistModel::String(step)) => Some(step),
        _ => None,
    }
}

/// A status leads to each state exactly where it asks for it: for a code from a device, for one by
/// text message, where the first number is tried, for a step that is not known, or for nothing.
pub proof fn law_statuses_lead_to_their_state(status: EntriesModel, step: Seq<char>, id: u32)
    ensures
        exchange::wanted_state(status) is NeedsDevice2FA <==> wanted_step(status) == Some(
            "trustedDeviceSecondaryAuth"@,
        ),
        exchange::wanted_state(status) == LoginStateModel::NeedsSMS2FA(id) <==> id == 1
            && wanted_step(status) == Some("secondaryAuth"@),
        exchange::wanted_state(status) is LoggedIn <==> wanted_step(status) is None || wanted_step(
            status,
        ) == Some("repair"@),
        exchange::wanted_state(status) == LoginStateModel::NeedsExtraStep(step) <==> {
            &&& wanted_step(status) == Some(step)
            &&& step != "trustedDeviceSecondaryAuth"@
            &&& step != "secondaryAuth"@
            &&& step != "repair"@
        },
{
    reveal_strlit("trustedDeviceSecondaryAuth");
    reveal_strlit("secondaryAuth");
    reveal_strlit("repair");
    assert("trustedDeviceSecondaryAuth"@.len() != "secondaryAuth"@.len());
    assert("trustedDeviceSecondaryAuth"@.len() != "repair"@.len());
    assert("secondaryAuth"@.len() != "repair"@.len());
}

/// The end of an exchange keeps the account data that came, also where the status is missing, and
/// changes nothing else. The state is the one that the status in the reply leads to.
pub proof fn law_exchanges_keep_the_data(
    account: AccountModel,
    spd: Result<EntriesModel, ErrorModel>,
    reply: EntriesModel,
)
    ensures
        ({
            let (told, state) = exchange::exchanged(account, spd, reply);
            &&& told.email == account.email
            &&& told.numbers == account.numbers
            &&& told.login_state == account.login_state
            &&& told.debug == account.debug
            &&& told.last_error == account.last_error
            &&& told.spd == (if spd is Ok {
                Some(spd->Ok_0)
            } else {
                account.spd
            })
            &&& state == match (spd, plist_tree::lookup(reply, "Status"@)) {
                (Err(error), _) => Err(error),
                (Ok(_), Some(PlistModel::Dictionary(status))) => Ok(exchange::wanted_state(status)),
                (Ok(_), _) => Err(ErrorModel::MissingEntry(EntryKind::Dictionary, "Status"@)),
            }
        }),
{
}

} // verus!
