//! The RSA exchange that gives a connection its shared secret.
//!
//! The server sends its encoded public key and a fresh verify token. The
//! client answers with a shared secret and the token, both encrypted with
//! that key under PKCS#1 v1.5 padding. The secret is accepted when the
//! token comes back unchanged and the secret has sixteen bytes.

use crate::packets::{EncryptionRequest, EncryptionResponse};
use vstd::prelude::*;

verus! {

/// The key of the stream cipher of a connection.
pub type CryptKey = [u8; 16];

/// Size of the server's RSA key. Clients expect this size.
pub const RSA_BITS: usize = 1024;

/// Length of a verify token.
pub const VERIFY_TOKEN_LENGTH: usize = 16;

/// Length of a shared secret.
pub const SHARED_SECRET_LENGTH: usize = 16;

/// Why an encryption exchange failed.
#[derive(Debug, Clone, Copy, PartialEq, Eq)]
pub enum CryptoError {
    /// No key pair could be generated.
    KeyGeneration,
    /// A field of the response is no valid ciphertext for the server's key.
    Decryption,
    /// The token that came back is not the token that was sent.
    VerifyTokenMismatch,
    /// The shared secret does not have sixteen bytes.
    BadKeyLength,
}

/// `rsa::RSAPrivateKey`, a key pair. Nothing inside it is read here.
#[verifier::external_type_specification]
#[verifier::external_body]
pub struct ExRsaPrivateKey(rsa::RSAPrivateKey);

/// `rsa::errors::Error`. Nothing inside it is read here.
#[verifier::external_type_specification]
#[verifier::external_body]
pub struct ExRsaError(rsa::errors::Error);

/// The SubjectPublicKeyInfo encoding of the RSA public key with the given
/// big-endian modulus and exponent, as `rsa_der::public_key_to_der` writes
/// it.
pub uninterp spec fn der_public_key(modulus: Seq<u8>, exponent: Seq<u8>) -> Seq<u8>;

/// The modulus of the key pair `key`, most significant byte first, as
/// `rsa::PublicKeyParts::n` gives it.
pub uninterp spec fn key_modulus(key: rsa::RSAPrivateKey) -> Seq<u8>;

/// The public exponent of the key pair `key`, most significant byte first,
/// as `rsa::PublicKeyParts::e` gives it.
pub uninterp spec fn key_exponent(key: rsa::RSAPrivateKey) -> Seq<u8>;

/// Whether the numbers of the key pair `key` fit together, as
/// `rsa::RSAPrivateKey::validate` asks: the public exponent is in range, the
/// primes multiply to the modulus, and the private exponent inverts the
/// public one modulo each prime less one.
pub uninterp spec fn key_is_valid(key: rsa::RSAPrivateKey) -> bool;

/// The number of bits of a byte: the place of its highest set bit, counted
/// from one, and zero for zero.
pub open spec fn byte_bit_length(byte: u8) -> nat {
    if byte >= 128 {
        8
    } else if byte >= 64 {
        7
    } else if byte >= 32 {
        6
    } else if byte >= 16 {
        5
    } else if byte >= 8 {
        4
    } else if byte >= 4 {
        3
    } else if byte >= 2 {
        2
    } else if byte >= 1 {
        1
    } else {
        0
    }
}

/// The number of bits of the number that `bytes` spell, most significant
/// byte first: leading zero bytes do not count.
pub open spec fn bit_length(bytes: Seq<u8>) -> nat
    decreases bytes.len(),
{
    if bytes.len() == 0 {
        0
    } else if bytes[0] == 0 {
        bit_length(bytes.subrange(1, bytes.len() as int))
    } else {
        (8 * (bytes.len() - 1) + byte_bit_length(bytes[0])) as nat
    }
}

/// `rsa::RSAPrivateKey::new` with the operating system's random numbers:
/// a fresh key pair. Trusted: the numbers of a key that it gives fit
/// together, its modulus has `bits` bits, and its public exponent is 65537.
#[verifier::external_body]
fn generate_private_key(bits: usize) -> (generated: Result<
    rsa::RSAPrivateKey,
    rsa::errors::Error,
>)
    requires
        bits >= 64,
    ensures
        generated matches Ok(key) ==> key_is_valid(key),
        generated matches Ok(key) ==> bit_length(key_modulus(key)) == bits,
        generated matches Ok(key) ==> key_exponent(key) == seq![1u8, 0u8, 1u8],
{
    rsa::RSAPrivateKey::new(&mut rand::rngs::OsRng, bits)
}

/// `rsa::PublicKeyParts::n` in big-endian bytes: the modulus of `key`.
#[verifier::external_body]
fn modulus_bytes(key: &rsa::RSAPrivateKey) -> (bytes: Vec<u8>)
    ensures
        bytes@ == key_modulus(*key),
{
    rsa::PublicKeyParts::n(key).to_bytes_be()
}

/// `rsa::PublicKeyParts::e` in big-endian bytes: the public exponent of
/// `key`.
#[verifier::external_body]
fn exponent_bytes(key: &rsa::RSAPrivateKey) -> (bytes: Vec<u8>)
    ensures
        bytes@ == key_exponent(*key),
{
    rsa::PublicKeyParts::e(key).to_bytes_be()
}

/// `rsa_der::public_key_to_der`. Trusted: the encoding is a function of the
/// modulus and the exponent alone.
#[verifier::external_body]
fn public_key_to_der(modulus: &[u8], exponent: &[u8]) -> (encoded: Vec<u8>)
    ensures
        encoded@ == der_public_key(modulus@, exponent@),
{
    rsa_der::public_key_to_der(modulus, exponent)
}

/// `rsa::RSAPrivateKey::decrypt` with PKCS#1 v1.5 padding. Trusted: it draws no
/// random numbers; its outcome is a function of key pair and ciphertext alone.
/// The key pair must be one whose numbers fit together: on another, the
/// number that comes out can be too long for the modulus.
#[verifier::external_body]
fn rsa_decrypt(key: &ServerKey, ciphertext: &[u8]) -> (plain: Result<Vec<u8>, rsa::errors::Error>)
    requires
        key_is_valid(key.key_pair()),
    ensures
        plain matches Ok(text) ==> pkcs1v15_plaintext(*key, ciphertext@) == Some(text@),
        plain is Err ==> pkcs1v15_plaintext(*key, ciphertext@) is None,
{
    key.key.decrypt(rsa::PaddingScheme::PKCS1v15Encrypt, ciphertext)
}

/// `rand::random`: sixteen bytes from the thread's cryptographically secure
/// generator, for a verify token. Nothing is claimed of them.
#[verifier::external_body]
pub(crate) fn random_token() -> [u8; 16] {
    rand::random()
}

/// The server's key pair with the encoding of its public half. The key
/// pair is one that the server has generated, so its numbers fit together.
/// The encoding is computed once, when the value is made, from the modulus
/// and the public exponent of the key pair.
pub struct ServerKey {
    key: rsa::RSAPrivateKey,
    modulus: Vec<u8>,
    exponent: Vec<u8>,
    encoded: Vec<u8>,
}

impl ServerKey {
    /// The key pair.
    pub closed spec fn key_pair(&self) -> rsa::RSAPrivateKey {
        self.key
    }

    /// The big-endian modulus that the encoding was made from.
    pub closed spec fn modulus(&self) -> Seq<u8> {
        self.modulus@
    }

    /// The big-endian public exponent that the encoding was made from.
    pub closed spec fn exponent(&self) -> Seq<u8> {
        self.exponent@
    }

    /// The encoded public key.
    pub closed spec fn public_key(&self) -> Seq<u8> {
        self.encoded@
    }

    /// Whether the numbers of the key pair fit together, the modulus and
    /// the exponent are those of the key pair, and the encoded public key is
    /// their encoding. Every `ServerKey` that runs is so.
    pub open spec fn encodes_key_pair(&self) -> bool {
        &&& key_is_valid(self.key_pair())
        &&& self.modulus() == key_modulus(self.key_pair())
        &&& self.exponent() == key_exponent(self.key_pair())
        &&& self.public_key() == der_public_key(self.modulus(), self.exponent())
    }

    #[verifier::type_invariant]
    spec fn encoded_once(&self) -> bool {
        self.encodes_key_pair()
    }

    /// Wraps a key pair whose numbers fit together, and encodes its public
    /// half.
    fn new(key: rsa::RSAPrivateKey) -> (server_key: ServerKey)
        requires
            key_is_valid(key),
        ensures
            server_key.key_pair() == key,
            server_key.modulus() == key_modulus(key),
            server_key.exponent() == key_exponent(key),
            server_key.public_key() == der_public_key(key_modulus(key), key_exponent(key)),
    {
        let modulus = modulus_bytes(&key);
        let exponent = exponent_bytes(&key);
        let encoded = public_key_to_der(modulus.as_slice(), exponent.as_slice());
        ServerKey { key, modulus, exponent, encoded }
    }

    /// Generates a key pair whose modulus has [`RSA_BITS`] bits and whose
    /// public exponent is 65537, and encodes its public half.
    pub fn generate() -> (generated: Result<ServerKey, CryptoError>)
        ensures
            generated matches Err(e) ==> e == CryptoError::KeyGeneration,
            generated matches Ok(k) ==> {
                &&& k.encodes_key_pair()
                &&& bit_length(k.modulus()) == RSA_BITS
                &&& k.exponent() == seq![1u8, 0u8, 1u8]
            },
    {
        match generate_private_key(RSA_BITS) {
            Ok(key) => Ok(ServerKey::new(key)),
            Err(_) => Err(CryptoError::KeyGeneration),
        }
    }

    /// The encoded public key, which is the encoding of the modulus and the
    /// exponent of the key pair.
    pub fn encoded(&self) -> (encoded: &[u8])
        ensures
            encoded@ == self.public_key(),
            self.encodes_key_pair(),
    {
        proof {
            use_type_invariant(self);
        }
        self.encoded.as_slice()
    }

    /// The big-endian modulus of the key pair.
    pub fn modulus_be(&self) -> (modulus: &[u8])
        ensures
            modulus@ == self.modulus(),
            self.encodes_key_pair(),
    {
        proof {
            use_type_invariant(self);
        }
        self.modulus.as_slice()
    }

    /// The big-endian public exponent of the key pair.
    pub fn exponent_be(&self) -> (exponent: &[u8])
        ensures
            exponent@ == self.exponent(),
            self.encodes_key_pair(),
    {
        proof {
            use_type_invariant(self);
        }
        self.exponent.as_slice()
    }
}

/// The request that opens the exchange: an empty server id, the encoded
/// public key and the token.
pub fn encryption_request(key: &ServerKey, verify_token: &[u8; 16]) -> (request: EncryptionRequest)
    ensures
        request.server_id@ == Seq::<char>::empty(),
        request.public_key@ == key.public_key(),
        request.verify_token@ == verify_token@,
{
    let mut public_key: Vec<u8> = Vec::new();
    public_key.extend_from_slice(key.encoded());
    let mut token: Vec<u8> = Vec::new();
    token.extend_from_slice(verify_token.as_slice());
    assert(public_key@ =~= key.public_key());
    assert(token@ =~= verify_token@);
    EncryptionRequest { server_id: String::new(), public_key, verify_token: token }
}

/// What [`verify_encryption_response`] returns.
pub open spec fn verified_secret(
    sent_token: Seq<u8>,
    shared_secret: Seq<u8>,
    received_token: Seq<u8>,
) -> Result<Seq<u8>, CryptoError> {
    if received_token != sent_token {
        Err(CryptoError::VerifyTokenMismatch)
    } else if shared_secret.len() != SHARED_SECRET_LENGTH {
        Err(CryptoError::BadKeyLength)
    } else {
        Ok(shared_secret)
    }
}

/// Whether two byte strings are equal.
fn bytes_equal(a: &[u8], b: &[u8]) -> (equal: bool)
    ensures
        equal == (a@ == b@),
{
    if a.len() != b.len() {
        return false;
    }
    let mut i: usize = 0;
    while i < a.len()
        invariant
            i <= a@.len(),
            a@.len() == b@.len(),
            forall|j: int| 0 <= j < i ==> a@[j] == b@[j],
        decreases a@.len() - i,
    {
        if a[i] != b[i] {
            return false;
        }
        i += 1;
    }
    assert(a@ =~= b@);
    true
}

/// Accepts the decrypted fields of an encryption response: the token must
/// be the token that was sent, byte for byte, and the secret must have
/// sixteen bytes. The token is judged first.
pub fn verify_encryption_response(
    sent_token: &[u8],
    shared_secret: &[u8],
    received_token: &[u8],
) -> (accepted: Result<CryptKey, CryptoError>)
    ensures
        match verified_secret(sent_token@, shared_secret@, received_token@) {
            Ok(secret) => accepted matches Ok(key) && key@ == secret,
            Err(e) => accepted == Err::<CryptKey, CryptoError>(e),
        },
{
    if !bytes_equal(received_token, sent_token) {
        return Err(CryptoError::VerifyTokenMismatch);
    }
    if shared_secret.len() != SHARED_SECRET_LENGTH {
        return Err(CryptoError::BadKeyLength);
    }
    let mut key: CryptKey = [0u8; 16];
    let mut i: usize = 0;
    while i < 16
        invariant
            i <= 16,
            shared_secret@.len() == 16,
            forall|j: int| 0 <= j < i ==> key@[j] == shared_secret@[j],
        decreases 16 - i,
    {
        key.set(i, shared_secret[i]);
        i += 1;
    }
    assert(key@ =~= shared_secret@);
    Ok(key)
}

/// Decrypts the two fields of `response` with the server's key, the shared
/// secret first, and judges the plaintexts: see [`handshake_outcome`].
pub fn do_encryption_handshake(
    key: &ServerKey,
    sent_token: &[u8],
    response: &EncryptionResponse,
) -> (accepted: Result<CryptKey, CryptoError>)
    ensures
        match handshake_outcome(*key, sent_token@, *response) {
            Ok(secret) => accepted matches Ok(shared_secret) && shared_secret@ == secret,
            Err(e) => accepted == Err::<CryptKey, CryptoError>(e),
        },
{
    proof {
        use_type_invariant(key);
    }
    let shared_secret = match rsa_decrypt(key, response.shared_secret.as_slice()) {
        Ok(plain) => plain,
        Err(_) => {
            return Err(CryptoError::Decryption);
        },
    };
    let received_token = match rsa_decrypt(key, response.verify_token.as_slice()) {
        Ok(plain) => plain,
        Err(_) => {
            return Err(CryptoError::Decryption);
        },
    };
    verify_encryption_response(sent_token, shared_secret.as_slice(), received_token.as_slice())
}

/// What `rsa::RSAPrivateKey::decrypt` gives for the key pair of `key` and
/// `ciphertext` under PKCS#1 v1.5 padding: the plaintext, or `None` where it
/// reports an error.
pub uninterp spec fn pkcs1v15_plaintext(key: ServerKey, ciphertext: Seq<u8>) -> Option<Seq<u8>>;

/// How the exchange ends for the answer `response` to the token
/// `sent_token`: with [`CryptoError::Decryption`] where the shared secret or
/// else the token is no ciphertext for the key pair of `key`, and else with
/// what [`verified_secret`] says of the two plaintexts.
pub open spec fn handshake_outcome(
    key: ServerKey,
    sent_token: Seq<u8>,
    response: EncryptionResponse,
) -> Result<Seq<u8>, CryptoError> {
    match pkcs1v15_plaintext(key, response.shared_secret@) {
        None => Err(CryptoError::Decryption),
        Some(shared_secret) => match pkcs1v15_plaintext(key, response.verify_token@) {
            None => Err(CryptoError::Decryption),
            Some(received_token) => verified_secret(sent_token, shared_secret, received_token),
        },
    }
}

} // verus!
