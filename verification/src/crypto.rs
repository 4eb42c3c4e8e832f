//! The cryptographic calls, and what is relied on of each.

use aes_gcm::{AeadInOut, KeyInit};
use base64::Engine;
use cbc::cipher::{BlockModeDecrypt, KeyIvInit};
use hmac::Mac;
use sha2::Digest;
use vstd::prelude::*;

verus! {

/// `srp::AuthError`, what a failed key exchange reports.
#[verifier::external_type_specification]
#[verifier::external_body]
pub struct ExAuthError(srp::AuthError);

/// `InvalidLength` of the RustCrypto crates, what a keyed function reports of its key.
#[verifier::external_type_specification]
#[verifier::external_body]
pub struct ExInvalidLength(hmac::digest::InvalidLength);

/// The padding error of the RustCrypto block modes.
#[verifier::external_type_specification]
#[verifier::external_body]
pub struct ExPaddingError(aes::cipher::block_padding::Error);

/// `aes_gcm::Error`, what a failed authenticated decryption reports.
#[verifier::external_type_specification]
#[verifier::external_body]
pub struct ExGcmError(aes_gcm::Error);

/// The SHA-256 digest of a message.
pub uninterp spec fn sha256_digest(message: Seq<u8>) -> Seq<u8>;

/// A key as HMAC-SHA-256 uses it: a block of 64 bytes, filled up with zeros. A key that exceeds the
/// block is digested first.
pub open spec fn hmac_block(key: Seq<u8>) -> Seq<u8> {
    let short = if key.len() <= 64 {
        key
    } else {
        sha256_digest(key)
    };
    Seq::new(
        64,
        |i: int|
            if i < short.len() {
                short[i]
            } else {
                0u8
            },
    )
}

/// A block with every byte combined with a mask.
pub open spec fn masked(block: Seq<u8>, mask: u8) -> Seq<u8> {
    block.map_values(|byte: u8| byte ^ mask)
}

/// The HMAC-SHA-256 code of a message under a key.
pub open spec fn hmac_sha256_code(key: Seq<u8>, message: Seq<u8>) -> Seq<u8> {
    let block = hmac_block(key);
    sha256_digest(masked(block, 0x5c) + sha256_digest(masked(block, 0x36) + message))
}

/// The 32 byte key that PBKDF2 with HMAC-SHA-256 derives.
pub uninterp spec fn pbkdf2_sha256_key(password: Seq<u8>, salt: Seq<u8>, rounds: u32) -> Seq<u8>;

/// The blocks of an AES-256-CBC ciphertext in the clear, with their padding.
pub uninterp spec fn aes256_cbc_blocks(key: Seq<u8>, iv: Seq<u8>, data: Seq<u8>) -> Seq<u8>;

/// What AES-256-GCM makes of a ciphertext for a 16 byte nonce: the plaintext, and the tag that
/// belongs to it.
pub uninterp spec fn aes256_gcm_opening(
    key: Seq<u8>,
    nonce: Seq<u8>,
    associated: Seq<u8>,
    ciphertext: Seq<u8>,
) -> (Seq<u8>, Seq<u8>);

/// The padding of a message of some length by PKCS #7 to blocks of 16 bytes: the number of bytes
/// that are missing, as often as it says.
pub open spec fn pkcs7_padding(length: nat) -> Seq<u8> {
    let missing = (16 - length % 16) as nat;
    Seq::new(missing, |i: int| missing as u8)
}

/// A message without its padding by PKCS #7, where its last bytes are such a padding.
pub open spec fn pkcs7_unpadded(padded: Seq<u8>) -> Option<Seq<u8>> {
    let missing = padded.last() as int;
    if 1 <= missing <= 16 && (forall|i: int|
        padded.len() - missing <= i < padded.len() ==> #[trigger] padded[i] == missing) {
        Some(padded.take(padded.len() - missing))
    } else {
        None
    }
}

/// The plaintext of an AES-256-CBC ciphertext with PKCS #7 padding; nothing where there is no
/// block, a block is incomplete or the padding is wrong.
pub open spec fn aes256_cbc_plaintext(key: Seq<u8>, iv: Seq<u8>, data: Seq<u8>) -> Option<
    Seq<u8>,
> {
    if data.len() == 0 || data.len() % 16 != 0 {
        None
    } else {
        pkcs7_unpadded(aes256_cbc_blocks(key, iv, data))
    }
}

/// The most bytes that one AES-GCM message can hold.
pub open spec fn gcm_limit() -> nat {
    0xf_ffff_ffe0
}

/// The plaintext of an AES-256-GCM ciphertext with its tag at the end, for a 16 byte nonce; nothing
/// where the tag is missing or not the one that belongs to it, or the ciphertext is too long.
pub open spec fn aes256_gcm_plaintext(
    key: Seq<u8>,
    nonce: Seq<u8>,
    associated: Seq<u8>,
    data: Seq<u8>,
) -> Option<Seq<u8>> {
    if data.len() < 16 || data.len() - 16 > gcm_limit() {
        None
    } else {
        let (plaintext, tag) = aes256_gcm_opening(
            key,
            nonce,
            associated,
            data.take(data.len() - 16),
        );
        if data.skip(data.len() - 16) == tag {
            Some(plaintext)
        } else {
            None
        }
    }
}

/// The character of the standard base64 alphabet for six bits.
pub open spec fn base64_char(bits: int) -> char {
    if bits < 26 {
        ('A' as int + bits) as char
    } else if bits < 52 {
        ('a' as int + bits - 26) as char
    } else if bits < 62 {
        ('0' as int + bits - 52) as char
    } else if bits == 62 {
        '+'
    } else {
        '/'
    }
}

/// A byte of some bytes, or zero behind their end.
pub open spec fn byte_or_zero(bytes: Seq<u8>, i: int) -> int {
    if i < bytes.len() {
        bytes[i] as int
    } else {
        0
    }
}

/// The standard base64 text of some bytes: four characters for each three bytes, with `=` for those
/// that would stand for no byte.
pub open spec fn base64_standard(bytes: Seq<u8>) -> Seq<char> {
    Seq::new(
        ((bytes.len() + 2) / 3 * 4) as nat,
        |i: int|
            {
                let start = i / 4 * 3;
                let group = byte_or_zero(bytes, start) * 0x1_0000 + byte_or_zero(bytes, start + 1)
                    * 0x100 + byte_or_zero(bytes, start + 2);
                if i % 4 == 0 {
                    base64_char(group / 0x4_0000)
                } else if i % 4 == 1 {
                    base64_char(group / 0x1000 % 64)
                } else if i % 4 == 2 {
                    if start + 1 < bytes.len() {
                        base64_char(group / 64 % 64)
                    } else {
                        '='
                    }
                } else if start + 2 < bytes.len() {
                    base64_char(group % 64)
                } else {
                    '='
                }
            },
    )
}

/// The public SRP value that belongs to a secret, in the 2048 bit group.
pub uninterp spec fn srp_public(secret: Seq<u8>) -> Seq<u8>;

/// The client's proof and the shared key of an SRP exchange in the 2048 bit group with SHA-256,
/// where the user name takes no part in the password hash; nothing where the server's public value
/// is illegal.
pub uninterp spec fn srp_exchange(
    secret: Seq<u8>,
    username: Seq<u8>,
    password: Seq<u8>,
    salt: Seq<u8>,
    server_public: Seq<u8>,
) -> Option<(Seq<u8>, Seq<u8>)>;

/// The proof that the server of such an exchange has to show; nothing where its public value is
/// illegal.
pub uninterp spec fn srp_server_proof(
    secret: Seq<u8>,
    username: Seq<u8>,
    password: Seq<u8>,
    salt: Seq<u8>,
    server_public: Seq<u8>,
) -> Option<Seq<u8>>;

/// Calls `rand::random` for a byte: any byte may come.
#[verifier::external_body]
pub(crate) fn random_byte() -> (byte: u8) {
    rand::random::<u8>()
}

/// Calls `sha2::Sha256::digest`: the digest, 32 bytes.
#[verifier::external_body]
pub(crate) fn sha256(message: &[u8]) -> (digest: Vec<u8>)
    ensures
        digest@ == sha256_digest(message@),
        digest@.len() == 32,
{
    sha2::Sha256::digest(message).to_vec()
}

/// The lower case hexadecimal digit of a value below 16.
pub open spec fn hex_digit(value: int) -> char {
    if value < 10 {
        ('0' as int + value) as char
    } else {
        ('a' as int + value - 10) as char
    }
}

/// The hexadecimal text of some bytes: two lower case digits for each, the high half first.
pub open spec fn hex_lower(bytes: Seq<u8>) -> Seq<char> {
    Seq::new(
        2 * bytes.len(),
        |i: int|
            if i % 2 == 0 {
                hex_digit(bytes[i / 2] as int / 16)
            } else {
                hex_digit(bytes[i / 2] as int % 16)
            },
    )
}

/// Calls `hex::encode`: two lower case digits for each byte.
#[verifier::external_body]
pub(crate) fn hex_text(bytes: &[u8]) -> (text: String)
    ensures
        text@ == hex_lower(bytes@),
{
    hex::encode(bytes)
}

/// Calls `pbkdf2::pbkdf2` with HMAC-SHA-256 for 32 bytes: HMAC takes a password of any length, so a
/// key always comes.
#[verifier::external_body]
pub(crate) fn pbkdf2_sha256(password: &[u8], salt: &[u8], rounds: u32) -> (key: Result<
    [u8; 32],
    hmac::digest::InvalidLength,
>)
    ensures
        key is Ok,
        key->Ok_0@ == pbkdf2_sha256_key(password@, salt@, rounds),
{
    let mut key = [0u8; 32];
    pbkdf2::pbkdf2::<hmac::Hmac<sha2::Sha256>>(password, salt, rounds, &mut key)?;
    Ok(key)
}

/// Calls `hmac::Hmac` with SHA-256, keyed by `new_from_slice`: it takes a key of any length, and
/// the code has 32 bytes.
#[verifier::external_body]
pub(crate) fn hmac_sha256(key: &[u8], message: &[u8]) -> (code: Result<
    Vec<u8>,
    hmac::digest::InvalidLength,
>)
    ensures
        code is Ok,
        code->Ok_0@ == hmac_sha256_code(key@, message@),
        code->Ok_0@.len() == 32,
{
    let keyed = <hmac::Hmac<sha2::Sha256> as hmac::KeyInit>::new_from_slice(key)?;
    Ok(keyed.chain_update(message).finalize().into_bytes().to_vec())
}

/// Calls the `cbc::Decryptor` of AES-256 with PKCS #7 padding: the decrypted blocks, as many bytes
/// as came in, without their padding, or an error where there is no block, a block is incomplete or
/// the padding is wrong.
#[verifier::external_body]
pub(crate) fn aes256_cbc(key: &[u8], iv: &[u8], data: &[u8]) -> (plaintext: Result<
    Vec<u8>,
    aes::cipher::block_padding::Error,
>)
    requires
        key@.len() == 32,
        iv@.len() == 16,
    ensures
        match plaintext {
            Ok(bytes) => {
                &&& aes256_cbc_plaintext(key@, iv@, data@) == Some(bytes@)
                &&& aes256_cbc_blocks(key@, iv@, data@).len() == data@.len()
            },
            Err(_) => aes256_cbc_plaintext(key@, iv@, data@) is None,
        },
{
    cbc::Decryptor::<aes::Aes256>::new_from_slices(key, iv)
        .unwrap()
        .decrypt_padded_vec::<aes::cipher::block_padding::Pkcs7>(data)
}

/// Calls `decrypt_in_place` of `aes_gcm::AesGcm` with AES-256 and a 16 byte nonce: the plaintext,
/// which is as long as the ciphertext without its tag of 16 bytes, or an error where the tag is
/// missing or does not match or the ciphertext exceeds the limit of the mode.
#[verifier::external_body]
pub(crate) fn aes256_gcm(
    key: &[u8],
    nonce: &[u8],
    associated: &[u8],
    data: &[u8],
) -> (plaintext: Result<Vec<u8>, aes_gcm::Error>)
    requires
        key@.len() == 32,
        nonce@.len() == 16,
    ensures
        match plaintext {
            Ok(bytes) => {
                &&& aes256_gcm_plaintext(key@, nonce@, associated@, data@) == Some(bytes@)
                &&& bytes@ == aes256_gcm_opening(
                    key@,
                    nonce@,
                    associated@,
                    data@.take(data@.len() - 16),
                ).0
                &&& bytes@.len() + 16 == data@.len()
            },
            Err(_) => aes256_gcm_plaintext(key@, nonce@, associated@, data@) is None,
        },
{
    let cipher =
        aes_gcm::AesGcm::<aes::Aes256, aes::cipher::consts::U16>::new_from_slice(key).unwrap();
    let nonce = aes_gcm::Nonce::<aes::cipher::consts::U16>::try_from(nonce).unwrap();
    let mut buffer = data.to_vec();
    cipher.decrypt_in_place(&nonce, associated, &mut buffer)?;
    Ok(buffer)
}

/// Calls `encode` of base64's standard engine.
#[verifier::external_body]
pub(crate) fn base64_text(bytes: &[u8]) -> (text: String)
    ensures
        text@ == base64_standard(bytes@),
{
    base64::prelude::BASE64_STANDARD.encode(bytes)
}

/// A byte that may stand in an HTTP header value.
pub open spec fn header_byte(byte: u8) -> bool {
    (byte >= 32 && byte != 127) || byte == 9
}

/// A text that may stand in an HTTP header.
pub open spec fn header_safe(text: Seq<char>) -> bool {
    forall|i: int|
        0 <= i < vstd::utf8::encode_utf8(text).len() ==> header_byte(
            #[trigger] vstd::utf8::encode_utf8(text)[i],
        )
}

/// A base64 text may stand in a header: it holds letters, digits and three signs.
pub proof fn lemma_base64_is_header_safe(bytes: Seq<u8>)
    ensures
        header_safe(base64_standard(bytes)),
{
    let text = base64_standard(bytes);
    assert forall|i: int| 0 <= i < text.len() implies 43 <= (#[trigger] text[i]) as nat <= 122 by {
        assert(0 <= byte_or_zero(bytes, i / 4 * 3) < 256);
        assert(0 <= byte_or_zero(bytes, i / 4 * 3 + 1) < 256);
        assert(0 <= byte_or_zero(bytes, i / 4 * 3 + 2) < 256);
    }
    vstd::utf8::is_ascii_chars_encode_utf8(text);
}

/// Calls `reqwest::header::HeaderValue::from_str` and tells whether it takes the text: it does
/// where no byte is a control character but the tab.
#[verifier::external_body]
pub(crate) fn is_header_value(text: &str) -> (fits: bool)
    ensures
        fits == header_safe(text@),
{
    reqwest::header::HeaderValue::from_str(text).is_ok()
}

/// Calls `compute_public_ephemeral` of the SRP client.
#[verifier::external_body]
pub(crate) fn srp_public_value(secret: &[u8; 32]) -> (public: Vec<u8>)
    ensures
        public@ == srp_public(secret@),
{
    let client = srp::Client::<srp::groups::G2048, sha2::Sha256>::new_with_options(false);
    client.compute_public_ephemeral(secret)
}

/// Calls `process_reply` of the SRP client and takes the proof and the key from its verifier. A
/// server value that is longer than the group's modulus (256 bytes) is outside what it handles.
#[verifier::external_body]
pub(crate) fn srp_process_reply(
    secret: &[u8; 32],
    username: &[u8],
    password: &[u8],
    salt: &[u8],
    server_public: &[u8],
) -> (reply: Result<(Vec<u8>, Vec<u8>), srp::AuthError>)
    requires
        server_public@.len() <= 256,
    ensures
        match reply {
            Ok((proof_bytes, key)) => srp_exchange(
                secret@,
                username@,
                password@,
                salt@,
                server_public@,
            ) == Some((proof_bytes@, key@)),
            Err(_) => srp_exchange(secret@, username@, password@, salt@, server_public@) is None,
        },
{
    let client = srp::Client::<srp::groups::G2048, sha2::Sha256>::new_with_options(false);
    let verifier = client.process_reply(secret, username, password, salt, server_public)?;
    Ok((verifier.proof().to_vec(), verifier.key().to_vec()))
}

/// Calls `verify_server` of the verifier that the SRP client's `process_reply` gives: it takes
/// exactly the proof that belongs to the exchange.
#[verifier::external_body]
pub(crate) fn srp_verify_server(
    secret: &[u8; 32],
    username: &[u8],
    password: &[u8],
    salt: &[u8],
    server_public: &[u8],
    server_proof: &[u8],
) -> (verified: Result<(), srp::AuthError>)
    requires
        server_public@.len() <= 256,
    ensures
        verified is Ok == (srp_server_proof(secret@, username@, password@, salt@, server_public@)
            == Some(server_proof@)),
{
    let client = srp::Client::<srp::groups::G2048, sha2::Sha256>::new_with_options(false);
    let verifier = client.process_reply(secret, username, password, salt, server_public)?;
    verifier.verify_server(server_proof).map(|_| ())
}

} // verus!
