//! AES-256 in CBC mode with a key derived from a password.

use magic_crypt::{MagicCrypt256, MagicCryptTrait};
use vstd::prelude::*;

use super::{sealable, Crypto, Decrypt, Encrypt};
use crate::error::Error;

verus! {

/// The ciphertext that the password gives for a payload.
pub uninterp spec fn magic_ciphertext(password: Seq<char>, plain: Seq<u8>) -> Seq<u8>;

/// The payload that the password reads out of the bytes, if they are a
/// ciphertext under it.
pub uninterp spec fn magic_plaintext(password: Seq<char>, cipher: Seq<u8>) -> Option<Seq<u8>>;

/// Encrypts with AES-256.
///
/// Calls `MagicCrypt256::new` with the password and no initialisation vector,
/// then `encrypt_to_bytes`. Key and vector depend on the password alone, so
/// the ciphertext is a function of password and payload. The contract claims
/// besides that the same password reads the payload back out of it, which is
/// what the padded block cipher is for. The call allocates the padded length;
/// the precondition keeps that within what one allocation may hold.
#[verifier::external_body]
fn aes256_encrypt(password: &str, data: &[u8]) -> (cipher: Vec<u8>)
    requires
        sealable(data@),
    ensures
        cipher@ == magic_ciphertext(password@, data@),
        magic_plaintext(password@, cipher@) == Some(data@),
{
    MagicCrypt256::new(password, None::<String>).encrypt_to_bytes(data)
}

/// Decrypts with AES-256.
///
/// Calls `MagicCrypt256::new` with the password and no initialisation vector,
/// then `decrypt_bytes_to_bytes`, which fails when the length is no multiple
/// of the block size or the padding is wrong. The outcome is a function of
/// password and bytes.
#[verifier::external_body]
fn aes256_decrypt(password: &str, data: &[u8]) -> (plain: Option<Vec<u8>>)
    ensures
        match plain {
            Some(bytes) => magic_plaintext(password@, data@) == Some(bytes@),
            None => magic_plaintext(password@, data@).is_none(),
        },
{
    MagicCrypt256::new(password, None::<String>).decrypt_bytes_to_bytes(data).ok()
}

/// Seals and opens payloads with one password.
#[derive(Clone, Debug)]
pub struct MagicCrypt {
    password: String,
}

impl MagicCrypt {
    /// The password that keys the cipher.
    pub closed spec fn password(&self) -> Seq<char> {
        self.password@
    }

    pub fn new(password: &str) -> (crypt: MagicCrypt)
        ensures
            crypt.password() == password@,
    {
        MagicCrypt { password: password.to_owned() }
    }
}

impl Encrypt for MagicCrypt {
    open spec fn seals(&self, plain: Seq<u8>, cipher: Seq<u8>) -> bool {
        &&& cipher == magic_ciphertext(self.password(), plain)
        &&& magic_plaintext(self.password(), cipher) == Some(plain)
    }

    fn encrypt(&self, data: &[u8]) -> (cipher: Vec<u8>) {
        aes256_encrypt(self.password.as_str(), data)
    }
}

impl Decrypt for MagicCrypt {
    open spec fn opens(&self, cipher: Seq<u8>, plain: Option<Seq<u8>>) -> bool {
        plain == magic_plaintext(self.password(), cipher)
    }

    fn decrypt(&self, data: &[u8]) -> (plain: Result<Vec<u8>, Error>) {
        match aes256_decrypt(self.password.as_str(), data) {
            Some(bytes) => Ok(bytes),
            None => Err(Error::Decrypt),
        }
    }
}

impl Crypto for MagicCrypt {
    proof fn round_trip(&self, plain: Seq<u8>, cipher: Seq<u8>, opened: Option<Seq<u8>>) {
    }
}

/// The sealing half of the cipher.
#[derive(Clone, Debug)]
pub struct MagicEncrypt {
    password: String,
}

impl MagicEncrypt {
    /// The password that keys the cipher.
    pub closed spec fn password(&self) -> Seq<char> {
        self.password@
    }

    pub fn new(password: &str) -> (crypt: MagicEncrypt)
        ensures
            crypt.password() == password@,
    {
        MagicEncrypt { password: password.to_owned() }
    }
}

impl Encrypt for MagicEncrypt {
    open spec fn seals(&self, plain: Seq<u8>, cipher: Seq<u8>) -> bool {
        &&& cipher == magic_ciphertext(self.password(), plain)
        &&& magic_plaintext(self.password(), cipher) == Some(plain)
    }

    fn encrypt(&self, data: &[u8]) -> (cipher: Vec<u8>) {
        aes256_encrypt(self.password.as_str(), data)
    }
}

/// The opening half of the cipher.
#[derive(Clone, Debug)]
pub struct MagicDecrypt {
    password: String,
}

impl MagicDecrypt {
    /// The password that keys the cipher.
    pub closed spec fn password(&self) -> Seq<char> {
        self.password@
    }

    pub fn new(password: &str) -> (crypt: MagicDecrypt)
        ensures
            crypt.password() == password@,
    {
        MagicDecrypt { password: password.to_owned() }
    }
}

impl Decrypt for MagicDecrypt {
    open spec fn opens(&self, cipher: Seq<u8>, plain: Option<Seq<u8>>) -> bool {
        plain == magic_plaintext(self.password(), cipher)
    }

    fn decrypt(&self, data: &[u8]) -> (plain: Result<Vec<u8>, Error>) {
        match aes256_decrypt(self.password.as_str(), data) {
            Some(bytes) => Ok(bytes),
            None => Err(Error::Decrypt),
        }
    }
}

/// What one half seals, the other half opens, when both hold one password.
pub proof fn halves_round_trip(
    encryptor: MagicEncrypt,
    decryptor: MagicDecrypt,
    plain: Seq<u8>,
    cipher: Seq<u8>,
    opened: Option<Seq<u8>>,
)
    requires
        encryptor.password() == decryptor.password(),
        encryptor.seals(plain, cipher),
        decryptor.opens(cipher, opened),
    ensures
        opened == Some(plain),
{
}

} // verus!
