//! A cipher for stored secrets: AES-256-GCM-SIV under a fixed key, each
//! message sealed under a fresh nonce that is kept in front of it.

use vstd::prelude::*;
use vstd::slice::slice_subrange;

verus! {

/// The length of a nonce, in bytes.
pub const NONCE_LEN: usize = 12;

/// The length of the tag that sealing adds, in bytes.
pub const TAG_LEN: usize = 16;

/// The greatest length of a message that can be sealed, in bytes.
pub const MAX_MESSAGE_LEN: u64 = 0x10_0000_0000;

/// What AES-256-GCM-SIV makes of a message under a key and a nonce, without
/// associated data: the encrypted message with its tag.
pub uninterp spec fn sealed(key: Seq<u8>, nonce: Seq<u8>, data: Seq<u8>) -> Seq<u8>;

/// What AES-256-GCM-SIV reads from a sealed message under a key and a nonce,
/// without associated data: the message, or nothing where the tag does not
/// fit.
pub uninterp spec fn opened(key: Seq<u8>, nonce: Seq<u8>, data: Seq<u8>) -> Option<Seq<u8>>;

/// Calls `Aes256GcmSiv::generate_nonce` with `rand::thread_rng()`. The bytes
/// are random: the contract claims their number only.
#[verifier::external_body]
fn fresh_nonce() -> (r: Vec<u8>)
    ensures
        r@.len() == NONCE_LEN,
{
    let nonce = <aes_gcm_siv::Aes256GcmSiv as aes_gcm_siv::AeadCore>::generate_nonce(rand::thread_rng());
    nonce.to_vec()
}

/// Calls `Aes256GcmSiv::new` and `Aead::encrypt`. Claims that the result
/// depends on key, nonce and message alone, that it is the message's length
/// and a tag long, and that `Aead::decrypt` under the same key and nonce
/// gives the message back. The call fails only on longer messages than the
/// contract admits.
#[verifier::external_body]
fn seal(key: &[u8; 32], nonce: &Vec<u8>, data: &[u8]) -> (r: Vec<u8>)
    requires
        nonce@.len() == NONCE_LEN,
        data@.len() <= MAX_MESSAGE_LEN,
        data@.len() + TAG_LEN <= usize::MAX,
    ensures
        r@ == sealed(key@, nonce@, data@),
        r@.len() == data@.len() + TAG_LEN,
        opened(key@, nonce@, r@) == Some(data@),
{
    let cipher = <aes_gcm_siv::Aes256GcmSiv as aes_gcm_siv::KeyInit>::new(key.into());
    let nonce = aes_gcm_siv::Nonce::from_slice(nonce);
    aes_gcm_siv::aead::Aead::encrypt(&cipher, nonce, data).expect("must not fail")
}

/// Calls `Aes256GcmSiv::new` and `Aead::decrypt`; an error of the call
/// comes back as nothing. Claims that the result depends on key, nonce and
/// sealed message alone.
#[verifier::external_body]
fn open(key: &[u8; 32], nonce: &[u8], data: &[u8]) -> (r: Option<Vec<u8>>)
    requires
        nonce@.len() == NONCE_LEN,
    ensures
        match r {
            Some(plain) => opened(key@, nonce@, data@) == Some(plain@),
            None => opened(key@, nonce@, data@) is None,
        },
{
    let cipher = <aes_gcm_siv::Aes256GcmSiv as aes_gcm_siv::KeyInit>::new(key.into());
    let nonce = aes_gcm_siv::Nonce::from_slice(nonce);
    aes_gcm_siv::aead::Aead::decrypt(&cipher, nonce, data).ok()
}

/// Why a sealed message could not be read: it is too short to hold a nonce,
/// or it was not sealed under this key, or it was changed since.
#[derive(Copy, Clone, PartialEq, Eq, Structural, Debug)]
pub struct CipherError;

/// A cipher under a fixed key.
pub struct AesCipher {
    key: [u8; 32],
}

impl AesCipher {
    /// The key.
    pub closed spec fn key(self) -> Seq<u8> {
        self.key@
    }

    /// What reading a sealed message gives: nothing where it is shorter than
    /// a nonce, else what the cipher reads from the rest under the nonce in
    /// front.
    pub open spec fn reads(self, data: Seq<u8>) -> Option<Seq<u8>> {
        if data.len() < NONCE_LEN {
            None
        } else {
            opened(
                self.key(),
                data.subrange(0, NONCE_LEN as int),
                data.subrange(NONCE_LEN as int, data.len() as int),
            )
        }
    }

    /// Whether `out` is a message sealed: a nonce, and behind it what the
    /// cipher makes of the message under that nonce.
    pub open spec fn seals(self, data: Seq<u8>, out: Seq<u8>) -> bool {
        &&& out.len() == NONCE_LEN + data.len() + TAG_LEN
        &&& out.subrange(NONCE_LEN as int, out.len() as int) == sealed(
            self.key(),
            out.subrange(0, NONCE_LEN as int),
            data,
        )
    }

    /// A cipher under the key.
    pub fn new(key: &[u8; 32]) -> (r: Self)
        ensures
            r.key() == key@,
    {
        AesCipher { key: *key }
    }

    /// Whether a message of this length can be sealed.
    pub open spec fn fits(len: nat) -> bool {
        len <= MAX_MESSAGE_LEN && NONCE_LEN + len + TAG_LEN <= usize::MAX
    }

    /// Seals a message under the nonce given: the nonce, and behind it what
    /// the cipher makes of the message under it. Reading the result gives the
    /// message back.
    pub fn encrypt_with_nonce(&self, nonce: &Vec<u8>, data: &[u8]) -> (r: Vec<u8>)
        requires
            nonce@.len() == NONCE_LEN,
            Self::fits(data@.len()),
        ensures
            r@ == nonce@ + sealed(self.key(), nonce@, data@),
            self.seals(data@, r@),
            self.reads(r@) == Some(data@),
    {
        let encrypted = seal(&self.key, nonce, data);
        let mut output: Vec<u8> = Vec::new();
        output.extend_from_slice(nonce.as_slice());
        output.extend_from_slice(encrypted.as_slice());
        proof {
            assert(output@ =~= nonce@ + encrypted@);
            assert(output@.subrange(0, NONCE_LEN as int) =~= nonce@);
            assert(output@.subrange(NONCE_LEN as int, output@.len() as int) =~= encrypted@);
        }
        output
    }

    /// Seals a message under a fresh nonce. Reading the result gives the
    /// message back.
    pub fn encrypt(&mut self, data: &[u8]) -> (r: Vec<u8>)
        requires
            Self::fits(data@.len()),
        ensures
            final(self).key() == old(self).key(),
            old(self).seals(data@, r@),
            old(self).reads(r@) == Some(data@),
    {
        let nonce = fresh_nonce();
        self.encrypt_with_nonce(&nonce, data)
    }

    /// Whether a message of this length can be sealed.
    pub fn can_encrypt(data: &[u8]) -> (r: bool)
        ensures
            r == Self::fits(data@.len()),
    {
        let len = data.len();
        len as u64 <= MAX_MESSAGE_LEN && len <= usize::MAX - NONCE_LEN - TAG_LEN
    }

    /// Reads a sealed message.
    pub fn decrypt(&mut self, data: &[u8]) -> (r: Result<Vec<u8>, CipherError>)
        ensures
            final(self).key() == old(self).key(),
            match r {
                Ok(plain) => old(self).reads(data@) == Some(plain@),
                Err(_) => old(self).reads(data@) is None,
            },
    {
        if data.len() < NONCE_LEN {
            return Err(CipherError);
        }
        let nonce = slice_subrange(data, 0, NONCE_LEN);
        let encrypted_data = slice_subrange(data, NONCE_LEN, data.len());
        match open(&self.key, nonce, encrypted_data) {
            Some(plain) => Ok(plain),
            None => Err(CipherError),
        }
    }
}

} // verus!
