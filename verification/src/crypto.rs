use vstd::prelude::*;
use crate::error::{AppError, Result};
use aes_gcm::aead::{Aead, KeyInit};
use aes_gcm::aes::cipher::InvalidLength;
use aes_gcm::{Aes256Gcm, Nonce};
use rand::Rng;
use vstd::string::StringSliceAdditionalSpecFns;

verus! {

/// The number of bytes of a nonce.
pub const NONCE_SIZE: usize = 12;

/// The number of bytes of a key.
pub const KEY_SIZE: usize = 32;

/// The number of bytes of the authentication tag that sealing adds.
pub open spec fn tag_size() -> nat {
    16
}

/// The longest plaintext, in bytes, that AES-256-GCM seals.
pub open spec fn max_plaintext_len() -> nat {
    0x10_0000_0000
}

#[verifier::external_type_specification]
#[verifier::external_body]
pub struct ExInvalidLength(InvalidLength);

#[verifier::external_type_specification]
#[verifier::external_body]
pub struct ExAeadError(aes_gcm::Error);

/// What AES-256-GCM sealing of `plaintext` under `key` with `nonce` gives: the ciphertext
/// followed by the tag.
pub uninterp spec fn aes256gcm_seal(key: Seq<u8>, nonce: Seq<u8>, plaintext: Seq<u8>) -> Seq<u8>;

/// What AES-256-GCM opening of `ciphertext` (tag included) under `key` with `nonce` gives:
/// the plaintext, or `None` where the tag does not match.
pub uninterp spec fn aes256gcm_open(key: Seq<u8>, nonce: Seq<u8>, ciphertext: Seq<u8>) -> Option<Seq<u8>>;

/// An AES-256-GCM cipher, held as the key that makes it.
pub struct Cipher {
    key: Vec<u8>,
}

impl View for Cipher {
    type V = Seq<u8>;

    /// The key of the cipher.
    closed spec fn view(&self) -> Seq<u8> {
        self.key@
    }
}

/// Calls `KeyInit::new_from_slice` for `Aes256Gcm`, keeping only whether it succeeded:
/// claimed to succeed exactly where the key has 32 bytes, as the source of `crypto-common`
/// shows.
#[verifier::external_body]
fn aes256gcm_check_key(key: &[u8]) -> (r: core::result::Result<(), InvalidLength>)
    ensures
        r is Ok <==> key@.len() == KEY_SIZE,
{
    match Aes256Gcm::new_from_slice(key) {
        Ok(_) => Ok(()),
        Err(e) => Err(e),
    }
}

/// Makes the `Aes256Gcm` cipher from the key (`KeyInit::new`, on a key of the right length)
/// and calls its `Aead::encrypt` with the nonce `nonce` and no associated data:
/// claimed to fail exactly where the plaintext is longer than `max_plaintext_len`, as the
/// source of `aes-gcm` shows, and else to give `aes256gcm_seal` of the cipher's key, the
/// nonce and the plaintext, 16 bytes longer than the plaintext, which `aes256gcm_open`
/// turns back into the plaintext.
#[verifier::external_body]
fn aes256gcm_encrypt(cipher: &Cipher, nonce: &[u8], plaintext: &[u8]) -> (r: core::result::Result<Vec<u8>, aes_gcm::Error>)
    requires
        cipher@.len() == KEY_SIZE,
        nonce@.len() == NONCE_SIZE,
    ensures
        r is Ok <==> plaintext@.len() <= max_plaintext_len(),
        r matches Ok(c) ==> c@ == aes256gcm_seal(cipher@, nonce@, plaintext@),
        r matches Ok(c) ==> c@.len() == plaintext@.len() + tag_size(),
        r matches Ok(c) ==> aes256gcm_open(cipher@, nonce@, c@) == Some(plaintext@),
{
    Aes256Gcm::new(aes_gcm::Key::<Aes256Gcm>::from_slice(cipher.key.as_slice()))
        .encrypt(Nonce::from_slice(nonce), plaintext)
}

/// Makes the `Aes256Gcm` cipher from the key (`KeyInit::new`, on a key of the right length)
/// and calls its `Aead::decrypt` with the nonce `nonce` and no associated data:
/// claimed to give `aes256gcm_open` of the cipher's key, the nonce and the ciphertext, and to
/// fail where that is `None`; input shorter than the 16-byte tag fails, as the source of
/// `aead` shows.
#[verifier::external_body]
fn aes256gcm_decrypt(cipher: &Cipher, nonce: &[u8], ciphertext: &[u8]) -> (r: core::result::Result<Vec<u8>, aes_gcm::Error>)
    requires
        cipher@.len() == KEY_SIZE,
        nonce@.len() == NONCE_SIZE,
    ensures
        match r {
            Ok(p) => aes256gcm_open(cipher@, nonce@, ciphertext@) == Some(p@),
            Err(_) => aes256gcm_open(cipher@, nonce@, ciphertext@) is None,
        },
        ciphertext@.len() < tag_size() ==> r is Err,
{
    Aes256Gcm::new(aes_gcm::Key::<Aes256Gcm>::from_slice(cipher.key.as_slice()))
        .decrypt(Nonce::from_slice(nonce), ciphertext)
}

/// Calls `ToString::to_string` on an `aead::Error`, whose `Display` writes `aead::Error`.
#[verifier::external_body]
fn aead_error_text(e: &aes_gcm::Error) -> (r: String)
    ensures
        r@ == "aead::Error"@,
{
    e.to_string()
}

/// Draws a nonce from `rand::thread_rng`. Nothing is claimed of its bytes.
#[verifier::external_body]
fn random_nonce() -> [u8; 12] {
    rand::thread_rng().gen()
}

/// The 32-byte key that the password `key` stands for: its bytes, then zeros.
pub open spec fn padded_key(key: Seq<u8>) -> Seq<u8> {
    key + Seq::new((KEY_SIZE - key.len()) as nat, |i: int| 0u8)
}

/// The cipher for the password `key`.
fn get_cipher(key: &str) -> (r: Result<Cipher>)
    requires
        key.spec_bytes().len() <= KEY_SIZE,
    ensures
        r matches Ok(c) && c@ == padded_key(key.spec_bytes()),
{
    let bytes = key.as_bytes();
    let mut fixed_key: Vec<u8> = Vec::new();
    for i in 0..KEY_SIZE
        invariant
            bytes@ == key.spec_bytes(),
            bytes@.len() <= KEY_SIZE,
            fixed_key@ == padded_key(bytes@).subrange(0, i as int),
    {
        let b = if i < bytes.len() {
            bytes[i]
        } else {
            0u8
        };
        fixed_key.push(b);
        assert(fixed_key@ =~= padded_key(bytes@).subrange(0, i + 1));
    }
    assert(fixed_key@ =~= padded_key(bytes@));
    match aes256gcm_check_key(fixed_key.as_slice()) {
        Ok(()) => Ok(Cipher { key: fixed_key }),
        Err(_) => Err(AppError::new("incorrect key size")),
    }
}

/// What decrypting the file contents `ciphertext` with the password `key` gives: the
/// plaintext, or the message of the error.
pub open spec fn decrypt_outcome(ciphertext: Seq<u8>, key: Seq<u8>) -> core::result::Result<Seq<u8>, Seq<char>> {
    let split_at = ciphertext.len() - NONCE_SIZE;
    if ciphertext.len() <= NONCE_SIZE {
        Err("file too small to decrypt"@)
    } else {
        match aes256gcm_open(
            padded_key(key),
            ciphertext.subrange(split_at, ciphertext.len() as int),
            ciphertext.subrange(0, split_at),
        ) {
            Some(p) => Ok(p),
            None => Err("decryption failure [aead::Error]"@),
        }
    }
}

/// Encrypts `plaintext` with the password `key` under a fresh random nonce, which follows
/// the sealed bytes. Decrypting the result with the same password gives `plaintext` back.
pub fn encrypt(plaintext: &Vec<u8>, key: &str) -> (r: Result<Vec<u8>>)
    requires
        key.spec_bytes().len() <= KEY_SIZE,
    ensures
        r is Ok <==> plaintext@.len() <= max_plaintext_len(),
        r matches Ok(c) ==> exists|nonce: Seq<u8>|
            #![trigger aes256gcm_seal(padded_key(key.spec_bytes()), nonce, plaintext@)]
            nonce.len() == NONCE_SIZE && c@ == aes256gcm_seal(padded_key(key.spec_bytes()), nonce, plaintext@)
                + nonce,
        r matches Ok(c) ==> c@.len() == plaintext@.len() + tag_size() + NONCE_SIZE,
        r matches Ok(c) ==> decrypt_outcome(c@, key.spec_bytes()) == Ok::<Seq<u8>, Seq<char>>(plaintext@),
        r matches Err(e) ==> e.message@ == "encryption failure [aead::Error]"@,
{
    let cipher = match get_cipher(key) {
        Ok(c) => c,
        Err(e) => {
            return Err(e);
        },
    };
    let nonce_data: [u8; 12] = random_nonce();
    let nonce = nonce_data.as_slice();
    let mut ciphertext = match aes256gcm_encrypt(&cipher, nonce, plaintext.as_slice()) {
        Ok(c) => c,
        Err(e) => {
            let text = aead_error_text(&e);
            proof {
                reveal_strlit("encryption failure [");
                reveal_strlit("aead::Error");
                reveal_strlit("]");
                reveal_strlit("encryption failure [aead::Error]");
                assert("encryption failure ["@ + text@ + "]"@ =~= "encryption failure [aead::Error]"@);
            }
            return Err(AppError::from_string(String::from_str("encryption failure [").concat(text.as_str()).concat("]")));
        },
    };
    let ghost sealed = ciphertext@;
    for i in 0..NONCE_SIZE
        invariant
            nonce@.len() == NONCE_SIZE,
            ciphertext@ == sealed + nonce@.subrange(0, i as int),
    {
        ciphertext.push(nonce[i]);
        assert(ciphertext@ =~= sealed + nonce@.subrange(0, i + 1));
    }
    proof {
        assert(nonce@.subrange(0, NONCE_SIZE as int) =~= nonce@);
        let c = ciphertext@;
        let split_at = c.len() - NONCE_SIZE;
        assert(c.subrange(split_at, c.len() as int) =~= nonce@);
        assert(c.subrange(0, split_at) =~= sealed);
        reveal_strlit("aead::Error");
    }
    Ok(ciphertext)
}

/// Decrypts `ciphertext`, sealed bytes followed by their nonce, with the password `key`.
pub fn decrypt(ciphertext: &Vec<u8>, key: &str) -> (r: Result<Vec<u8>>)
    requires
        key.spec_bytes().len() <= KEY_SIZE,
    ensures
        match decrypt_outcome(ciphertext@, key.spec_bytes()) {
            Ok(p) => r matches Ok(v) && v@ == p,
            Err(m) => r matches Err(e) && e.message@ == m,
        },
        ciphertext@.len() < NONCE_SIZE + tag_size() ==> r is Err,
{
    let cipher = match get_cipher(key) {
        Ok(c) => c,
        Err(e) => {
            return Err(e);
        },
    };
    let split_at = ciphertext.len().saturating_sub(NONCE_SIZE);
    if split_at == 0 {
        return Err(AppError::new("file too small to decrypt"));
    }
    let (sealed, nonce_data) = ciphertext.as_slice().split_at(split_at);
    match aes256gcm_decrypt(&cipher, nonce_data, sealed) {
        Ok(p) => Ok(p),
        Err(e) => {
            let text = aead_error_text(&e);
            proof {
                reveal_strlit("decryption failure [");
                reveal_strlit("aead::Error");
                reveal_strlit("]");
                reveal_strlit("decryption failure [aead::Error]");
                assert("decryption failure ["@ + text@ + "]"@ =~= "decryption failure [aead::Error]"@);
            }
            Err(AppError::from_string(String::from_str("decryption failure [").concat(text.as_str()).concat("]")))
        },
    }
}

} // verus!
