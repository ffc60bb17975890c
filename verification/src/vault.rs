//! Secrets kept encrypted with AES-256-GCM under a key derived from the
//! machine's host name, each stored as `base64(nonce || ciphertext)`.

use vstd::prelude::*;
use vstd::utf8::{decode_utf8, encode_scalar, encode_utf8, encode_utf8_decode_utf8, valid_utf8, encode_utf8_valid_utf8};
use crate::models::{member_find, member_lookup, member_remove, member_set, mview, keys_unique};
use crate::text::owned;
use sha2::Digest;
use aes_gcm::aead::rand_core::RngCore;
use base64::Engine;
use aes_gcm::aead::{Aead, KeyInit};

verus! {

/// Errors of the encrypted secret store.
#[derive(Debug)]
pub enum StorageError {
    Io(String),
    Json(String),
    Encryption(String),
    NoConfigDir,
}

/// The message of a storage error.
pub open spec fn spec_storage_message(e: StorageError) -> Seq<char> {
    match e {
        StorageError::Io(m) => "IO error: "@ + m@,
        StorageError::Json(m) => "JSON error: "@ + m@,
        StorageError::Encryption(m) => "Encryption error: "@ + m@,
        StorageError::NoConfigDir => "Failed to determine config directory"@,
    }
}

impl StorageError {
    /// The message of this error.
    pub fn message(&self) -> (r: String)
        ensures
            r@ == spec_storage_message(*self),
    {
        match self {
            StorageError::Io(m) => owned("IO error: ").concat(m.as_str()),
            StorageError::Json(m) => owned("JSON error: ").concat(m.as_str()),
            StorageError::Encryption(m) => owned("Encryption error: ").concat(m.as_str()),
            StorageError::NoConfigDir => owned("Failed to determine config directory"),
        }
    }
}

/// The SHA-256 digest of `data`.
pub uninterp spec fn spec_sha256(data: Seq<u8>) -> Seq<u8>;

/// `base64` with the standard alphabet and padding.
pub uninterp spec fn spec_base64_encode(data: Seq<u8>) -> Seq<char>;

/// The bytes a standard, padded base64 text decodes to, if it is well formed.
pub uninterp spec fn spec_base64_decode(text: Seq<char>) -> Option<Seq<u8>>;

/// The AES-256-GCM ciphertext (with its tag) of `plaintext`, unless the plaintext is too long.
pub uninterp spec fn spec_aes_gcm_seal(key: Seq<u8>, nonce: Seq<u8>, plaintext: Seq<u8>) -> Option<Seq<u8>>;

/// The plaintext of an AES-256-GCM ciphertext, if it authenticates.
pub uninterp spec fn spec_aes_gcm_open(key: Seq<u8>, nonce: Seq<u8>, ciphertext: Seq<u8>) -> Option<Seq<u8>>;

/// The longest plaintext AES-GCM encrypts: 2^36 bytes.
pub open spec fn spec_plaintext_max() -> int {
    0x10_0000_0000
}

/// SHA-256 of `data`, by `sha2::Sha256::digest`.
#[verifier::external_body]
fn sha256(data: &[u8]) -> (r: [u8; 32])
    ensures
        r@ == spec_sha256(data@),
{
    sha2::Sha256::digest(data).into()
}

/// The machine's host name, by `hostname::get`, made valid UTF-8 lossily;
/// `None` when the system does not give one. Nothing is known of the name.
#[verifier::external_body]
fn host_name() -> (r: Option<String>) {
    hostname::get().ok().map(|h| h.to_string_lossy().to_string())
}

/// Twelve random bytes from the operating system, by `OsRng::fill_bytes` of
/// `aes_gcm::aead`. Nothing is known of them.
#[verifier::external_body]
fn random_nonce() -> (r: [u8; 12]) {
    let mut n = [0u8; 12];
    aes_gcm::aead::OsRng.fill_bytes(&mut n);
    n
}

/// Standard base64 of `data`, by `base64::engine::general_purpose::STANDARD.encode`:
/// four characters for every three bytes or part of three, padded; decoding
/// it gives `data` back.
#[verifier::external_body]
pub(crate) fn base64_encode(data: &[u8]) -> (r: String)
    requires
        (data.len() / 3) * 4 + 4 <= usize::MAX,
    ensures
        r@ == spec_base64_encode(data@),
        r@.len() == 4 * ((data@.len() + 2) / 3),
        spec_base64_decode(r@) == Some(data@),
{
    base64::engine::general_purpose::STANDARD.encode(data)
}

/// The bytes of a standard base64 text, by `STANDARD.decode`; the error is the
/// decoder's message. Decoding the encoding of some bytes gives those bytes.
#[verifier::external_body]
fn base64_decode(text: &str) -> (r: Result<Vec<u8>, String>)
    ensures
        r is Ok == spec_base64_decode(text@) is Some,
        r matches Ok(b) ==> spec_base64_decode(text@) == Some(b@),
        forall|b: Seq<u8>| spec_base64_encode(b) == text@ ==> (r is Ok && r->Ok_0@ == b),
{
    base64::engine::general_purpose::STANDARD.decode(text).map_err(|e| e.to_string())
}

/// AES-256-GCM encryption without associated data, by `Aes256Gcm::encrypt`
/// of a cipher built with `new_from_slice`; the error is the crate's message.
/// The ciphertext carries a 16-byte tag, and decrypting it with the same key
/// and nonce gives the plaintext back. It fails exactly when the plaintext
/// is longer than the crate's `P_MAX`, 2^36 bytes.
#[verifier::external_body]
fn aes_gcm_encrypt(key: &[u8; 32], nonce: &[u8; 12], plaintext: &[u8]) -> (r: Result<Vec<u8>, String>)
    ensures
        r is Ok <==> plaintext@.len() <= spec_plaintext_max(),
        r is Ok == spec_aes_gcm_seal(key@, nonce@, plaintext@) is Some,
        r matches Ok(c) ==> spec_aes_gcm_seal(key@, nonce@, plaintext@) == Some(c@),
        r matches Ok(c) ==> c@.len() == plaintext@.len() + 16,
        r is Ok ==> spec_aes_gcm_open(key@, nonce@, r->Ok_0@) == Some(plaintext@),
{
    let cipher = aes_gcm::Aes256Gcm::new_from_slice(key).map_err(|e| e.to_string())?;
    cipher.encrypt(aes_gcm::Nonce::from_slice(nonce), plaintext).map_err(|e| e.to_string())
}

/// AES-256-GCM decryption without associated data, by `Aes256Gcm::decrypt`;
/// the error is the crate's message. Opening what was sealed with the same
/// key and nonce gives back the plaintext.
#[verifier::external_body]
fn aes_gcm_decrypt(key: &[u8; 32], nonce: &[u8], ciphertext: &[u8]) -> (r: Result<Vec<u8>, String>)
    requires
        nonce.len() == 12,
    ensures
        r is Ok == spec_aes_gcm_open(key@, nonce@, ciphertext@) is Some,
        r matches Ok(p) ==> spec_aes_gcm_open(key@, nonce@, ciphertext@) == Some(p@),
        forall|p: Seq<u8>| spec_aes_gcm_seal(key@, nonce@, p) == Some(ciphertext@) ==> (r is Ok && r->Ok_0@ == p),
{
    let cipher = aes_gcm::Aes256Gcm::new_from_slice(key).map_err(|e| e.to_string())?;
    cipher.decrypt(aes_gcm::Nonce::from_slice(nonce), ciphertext).map_err(|e| e.to_string())
}

/// Text from UTF-8 bytes, by `String::from_utf8`; the error is std's message.
#[verifier::external_body]
fn utf8_to_string(bytes: Vec<u8>) -> (r: Result<String, String>)
    ensures
        r is Ok == valid_utf8(bytes@),
        r matches Ok(s) ==> s@ == decode_utf8(bytes@),
{
    String::from_utf8(bytes).map_err(|e| e.to_string())
}

/// `a` followed by `b`.
fn concat_bytes(a: &[u8], b: &[u8]) -> (r: Vec<u8>)
    ensures
        r@ == a@ + b@,
{
    let mut r: Vec<u8> = Vec::new();
    let mut i: usize = 0;
    while i < a.len()
        invariant
            i <= a.len(),
            r@ == a@.take(i as int),
        decreases a.len() - i,
    {
        r.push(a[i]);
        i = i + 1;
        assert(r@ =~= a@.take(i as int));
    }
    let mut j: usize = 0;
    while j < b.len()
        invariant
            j <= b.len(),
            r@ == a@ + b@.take(j as int),
        decreases b.len() - j,
    {
        r.push(b[j]);
        j = j + 1;
        assert(r@ =~= a@ + b@.take(j as int));
    }
    assert(a@.take(a.len() as int) =~= a@);
    assert(b@.take(b.len() as int) =~= b@);
    r
}

/// The salt mixed into the key.
pub open spec fn spec_salt() -> Seq<u8> {
    encode_utf8("freeddns-salt-v1"@)
}

/// The key derived from a host name: SHA-256 of the name's UTF-8 bytes followed by the salt.
pub open spec fn spec_key_for_host(host: Seq<char>) -> Seq<u8> {
    spec_sha256(encode_utf8(host) + spec_salt())
}

/// Derive the 32-byte key for a given host name.
pub fn derive_key_for_host(host: &str) -> (r: [u8; 32])
    ensures
        r@ == spec_key_for_host(host@),
{
    let data = concat_bytes(host.as_bytes(), "freeddns-salt-v1".as_bytes());
    sha256(data.as_slice())
}

/// The name the key is derived from: the host name the system gave, or
/// `unknown-host` when it gave none.
pub open spec fn spec_host_or_default(host: Option<Seq<char>>) -> Seq<char> {
    match host {
        Some(h) => h,
        None => "unknown-host"@,
    }
}

/// The key for the host name the system gave (`unknown-host` when it gave none).
pub fn key_for_host_name(host: Option<String>) -> (r: [u8; 32])
    ensures
        r@ == spec_key_for_host(spec_host_or_default(match host { Some(h) => Some(h@), None => None })),
{
    let name = match host {
        Some(h) => h,
        None => owned("unknown-host"),
    };
    derive_key_for_host(name.as_str())
}

/// Derive a 32-byte AES key from the machine's host name (`unknown-host`
/// when the system gives none).
pub fn derive_key() -> (r: [u8; 32])
    ensures
        exists|host: Option<Seq<char>>| r@ == spec_key_for_host(#[trigger] spec_host_or_default(host)),
{
    let host = host_name();
    let ghost h = match &host { Some(x) => Some(x@), None => None };
    let r = key_for_host_name(host);
    assert(r@ == spec_key_for_host(spec_host_or_default(h)));
    r
}

/// A text is never shorter, in characters, than its UTF-8 encoding is in bytes.
proof fn lemma_encode_utf8_len(chars: Seq<char>)
    ensures
        chars.len() <= encode_utf8(chars).len(),
    decreases chars.len(),
{
    if chars.len() > 0 {
        lemma_encode_utf8_len(chars.drop_first());
        assert(encode_utf8(chars) == encode_scalar(chars[0] as u32) + encode_utf8(chars.drop_first()));
    }
}

/// The stored form of `plaintext` encrypted under `key` with `nonce`: the
/// ciphertext carries the 16-byte tag after the encrypted bytes.
pub open spec fn spec_sealed(key: Seq<u8>, nonce: Seq<u8>, plaintext: Seq<char>) -> Option<Seq<char>> {
    match spec_aes_gcm_seal(key, nonce, encode_utf8(plaintext)) {
        Some(c) => if c.len() == encode_utf8(plaintext).len() + 16 {
            Some(spec_base64_encode(nonce + c))
        } else {
            None
        },
        None => None,
    }
}

/// Encrypt `plaintext` with the given nonce; returns `base64(nonce || ciphertext)`.
pub fn seal_secret(key: &[u8; 32], nonce: &[u8; 12], plaintext: &str) -> (r: Result<String, StorageError>)
    requires
        encode_utf8(plaintext@).len() <= usize::MAX / 2,
    ensures
        r is Ok <==> encode_utf8(plaintext@).len() <= spec_plaintext_max(),
        r is Ok == spec_sealed(key@, nonce@, plaintext@) is Some,
        r matches Ok(s) ==> spec_sealed(key@, nonce@, plaintext@) == Some(s@),
        r matches Ok(s) ==> spec_opened(key@, s@) == Some(plaintext@),
        r matches Ok(s) ==> s@.len() == 4 * ((encode_utf8(plaintext@).len() + 30) / 3),
        r matches Ok(s) ==> s@ != plaintext@,
        r matches Err(e) ==> e is Encryption,
        r matches Err(StorageError::Encryption(m)) ==> "Encryption failed: "@.is_prefix_of(m@),
{
    match aes_gcm_encrypt(key, nonce, plaintext.as_bytes()) {
        Ok(ciphertext) => {
            let combined = concat_bytes(nonce, ciphertext.as_slice());
            proof {
                let n = combined@.len();
                assert(n <= usize::MAX / 2 + 28);
                assert((n / 3) * 4 + 4 <= usize::MAX) by (nonlinear_arith)
                    requires
                        n <= usize::MAX / 2 + 28,
                        usize::MAX >= 0xffff_ffff;
            }
            let encoded = base64_encode(combined.as_slice());
            proof {
                assert(combined@.take(12) =~= nonce@);
                assert(combined@.skip(12) =~= ciphertext@);
                encode_utf8_valid_utf8(plaintext@);
                encode_utf8_decode_utf8(plaintext@);
                lemma_encode_utf8_len(plaintext@);
                let b = encode_utf8(plaintext@).len();
                assert(encoded@.len() == 4 * ((b + 30) / 3));
                assert(4 * ((b + 30) / 3) > b) by (nonlinear_arith)
                    requires b >= 0;
                assert(encoded@.len() != plaintext@.len());
            }
            Ok(encoded)
        },
        Err(e) => Err(StorageError::Encryption(owned("Encryption failed: ").concat(e.as_str()))),
    }
}

/// Encrypt plaintext using AES-256-GCM under a fresh random nonce. Returns base64(nonce || ciphertext).
pub fn encrypt_secret(key: &[u8; 32], plaintext: &str) -> (r: Result<String, StorageError>)
    requires
        encode_utf8(plaintext@).len() <= usize::MAX / 2,
    ensures
        r is Ok <==> encode_utf8(plaintext@).len() <= spec_plaintext_max(),
        r matches Ok(s) ==> exists|n: Seq<u8>| n.len() == 12 && spec_sealed(key@, n, plaintext@) == Some(s@),
        r matches Ok(s) ==> spec_opened(key@, s@) == Some(plaintext@),
        r matches Ok(s) ==> s@.len() == 4 * ((encode_utf8(plaintext@).len() + 30) / 3),
        r matches Ok(s) ==> s@ != plaintext@,
        r matches Err(e) ==> e is Encryption,
        r matches Err(StorageError::Encryption(m)) ==> "Encryption failed: "@.is_prefix_of(m@),
{
    let nonce = random_nonce();
    seal_secret(key, &nonce, plaintext)
}

/// The plaintext of a stored secret, when it decodes, is long enough,
/// authenticates and is UTF-8.
pub open spec fn spec_opened(key: Seq<u8>, encoded: Seq<char>) -> Option<Seq<char>> {
    match spec_base64_decode(encoded) {
        Some(b) => if b.len() < 13 {
            None
        } else {
            match spec_aes_gcm_open(key, b.take(12), b.skip(12)) {
                Some(p) => if valid_utf8(p) { Some(decode_utf8(p)) } else { None },
                None => None,
            }
        },
        None => None,
    }
}

/// Decrypt a base64(nonce || ciphertext) string using AES-256-GCM.
pub fn decrypt_secret(key: &[u8; 32], encoded: &str) -> (r: Result<String, StorageError>)
    ensures
        r is Ok == spec_opened(key@, encoded@) is Some,
        r matches Ok(s) ==> spec_opened(key@, encoded@) == Some(s@),
        r matches Err(e) ==> e is Encryption,
        (spec_base64_decode(encoded@) matches Some(b) && b.len() < 13) ==>
            (r matches Err(StorageError::Encryption(m)) && m@ == "Encrypted data too short"@),
        spec_base64_decode(encoded@) is None ==>
            (r matches Err(StorageError::Encryption(m)) && "Base64 decode failed: "@.is_prefix_of(m@)),
        (spec_base64_decode(encoded@) matches Some(b) && b.len() >= 13 && spec_aes_gcm_open(key@, b.take(12), b.skip(12)) is None) ==>
            (r matches Err(StorageError::Encryption(m)) && "Decryption failed: "@.is_prefix_of(m@)),
        (spec_base64_decode(encoded@) matches Some(b) && b.len() >= 13
            && (spec_aes_gcm_open(key@, b.take(12), b.skip(12)) matches Some(p) && !valid_utf8(p))) ==>
            (r matches Err(StorageError::Encryption(m)) && "UTF-8 decode failed: "@.is_prefix_of(m@)),
        forall|n: Seq<u8>, p: Seq<char>| n.len() == 12 && spec_sealed(key@, n, p) == Some(encoded@) ==> (r is Ok && r->Ok_0@ == p),
{
    let combined = match base64_decode(encoded) {
        Ok(b) => b,
        Err(e) => {
            return Err(StorageError::Encryption(owned("Base64 decode failed: ").concat(e.as_str())));
        },
    };
    if combined.len() < 13 {
        proof {
            assert forall|n: Seq<u8>, p: Seq<char>| n.len() == 12 && spec_sealed(key@, n, p) == Some(encoded@) implies false by {
                let c = spec_aes_gcm_seal(key@, n, encode_utf8(p))->0;
                assert(combined@ == n + c);
            }
        }
        return Err(StorageError::Encryption(owned("Encrypted data too short")));
    }
    let ghost whole = combined@;
    let mut nonce_bytes = combined;
    let ciphertext = nonce_bytes.split_off(12);
    proof {
        assert(nonce_bytes@ =~= whole.take(12));
        assert(ciphertext@ =~= whole.skip(12));
        assert forall|n: Seq<u8>, p: Seq<char>| n.len() == 12 && spec_sealed(key@, n, p) == Some(encoded@) implies nonce_bytes@ == n && ciphertext@ == spec_aes_gcm_seal(key@, n, encode_utf8(p))->0 by {
            let c = spec_aes_gcm_seal(key@, n, encode_utf8(p))->0;
            assert(whole =~= n + c);
            assert(nonce_bytes@ =~= n);
            assert(ciphertext@ =~= c);
        }
    }
    let plaintext = match aes_gcm_decrypt(key, nonce_bytes.as_slice(), ciphertext.as_slice()) {
        Ok(p) => p,
        Err(e) => {
            return Err(StorageError::Encryption(owned("Decryption failed: ").concat(e.as_str())));
        },
    };
    proof {
        assert forall|n: Seq<u8>, p: Seq<char>| n.len() == 12 && spec_sealed(key@, n, p) == Some(encoded@) implies valid_utf8(plaintext@) && decode_utf8(plaintext@) == p by {
            encode_utf8_valid_utf8(p);
            encode_utf8_decode_utf8(p);
        }
    }
    match utf8_to_string(plaintext) {
        Ok(s) => Ok(s),
        Err(e) => Err(StorageError::Encryption(owned("UTF-8 decode failed: ").concat(e.as_str()))),
    }
}


/// What loading the secret stored under `id` gives: the plaintext of what is
/// stored there, when something is and it decrypts.
pub open spec fn spec_loaded(key: Seq<u8>, secrets: Seq<(String, String)>, id: Seq<char>) -> Option<Seq<char>> {
    match member_lookup(mview(secrets), id) {
        Some(enc) => spec_opened(key, enc),
        None => None,
    }
}

/// Loading gives back what was saved: once `save_secret` has stored `secret`
/// under `id` (it then leaves `spec_loaded` giving `secret`), every later
/// store that leaves the entry of `id` alone, whatever else was saved or
/// deleted since, still loads `secret` under the same key.
pub proof fn law_load_after_save(key: Seq<u8>, saved: Seq<(String, String)>, later: Seq<(String, String)>, id: Seq<char>, secret: Seq<char>)
    requires
        spec_loaded(key, saved, id) == Some(secret),
        member_lookup(mview(later), id) == member_lookup(mview(saved), id),
    ensures
        spec_loaded(key, later, id) == Some(secret),
{
}

/// The stored secrets: pairs of profile id and encrypted secret, each id at most once.
pub open spec fn secrets_wf(secrets: Seq<(String, String)>) -> bool {
    keys_unique(mview(secrets))
}

/// Secrets encrypted under a key derived from this machine; the stored form
/// of the secrets is kept by the caller and handed to each call.
pub struct StorageManager {
    encryption_key: [u8; 32],
}

impl StorageManager {
    /// The key secrets are encrypted under.
    pub closed spec fn key(&self) -> Seq<u8> {
        self.encryption_key@
    }

    /// A manager whose key is derived from this machine's host name.
    pub fn new() -> (r: StorageManager)
        ensures
            exists|host: Option<Seq<char>>| r.key() == spec_key_for_host(#[trigger] spec_host_or_default(host)),
    {
        StorageManager { encryption_key: derive_key() }
    }

    /// A manager that encrypts under `key`.
    pub fn with_key(key: [u8; 32]) -> (r: StorageManager)
        ensures
            r.key() == key@,
    {
        StorageManager { encryption_key: key }
    }

    /// Encrypts `secret` and stores it under `profile_id`, replacing what was
    /// stored there; loading `profile_id` afterwards gives `secret` back.
    pub fn save_secret(&self, secrets: &mut Vec<(String, String)>, profile_id: &str, secret: &str) -> (r: Result<(), StorageError>)
        requires
            secrets_wf(old(secrets)@),
            encode_utf8(secret@).len() <= usize::MAX / 2,
        ensures
            secrets_wf(final(secrets)@),
            r is Ok <==> encode_utf8(secret@).len() <= spec_plaintext_max(),
            r is Err ==> final(secrets)@ == old(secrets)@,
            r matches Err(e) ==> e is Encryption,
            r is Ok ==> exists|n: Seq<u8>| n.len() == 12 && spec_sealed(self.key(), n, secret@) == member_lookup(mview(final(secrets)@), profile_id@),
            r is Ok ==> forall|k: Seq<char>| k != profile_id@ ==> member_lookup(mview(final(secrets)@), k) == member_lookup(mview(old(secrets)@), k),
            r is Ok ==> spec_loaded(self.key(), final(secrets)@, profile_id@) == Some(secret@),
    {
        let encrypted = encrypt_secret(&self.encryption_key, secret)?;
        member_set(secrets, profile_id, encrypted);
        Ok(())
    }

    /// The plaintext of the secret stored under `profile_id`.
    pub fn load_secret(&self, secrets: &Vec<(String, String)>, profile_id: &str) -> (r: Result<String, StorageError>)
        ensures
            r is Ok <==> spec_loaded(self.key(), secrets@, profile_id@) is Some,
            r matches Ok(s) ==> spec_loaded(self.key(), secrets@, profile_id@) == Some(s@),
            r matches Err(e) ==> e is Encryption,
            member_lookup(mview(secrets@), profile_id@) is None ==>
                (r matches Err(StorageError::Encryption(m)) && m@ == "No secret found for profile '"@ + profile_id@ + "'"@),
            member_lookup(mview(secrets@), profile_id@) matches Some(enc) ==> (r is Ok == spec_opened(self.key(), enc) is Some),
            member_lookup(mview(secrets@), profile_id@) matches Some(enc) ==> (r matches Ok(s) ==> spec_opened(self.key(), enc) == Some(s@)),
            forall|n: Seq<u8>, p: Seq<char>| n.len() == 12 && member_lookup(mview(secrets@), profile_id@) == spec_sealed(self.key(), n, p) && spec_sealed(self.key(), n, p) is Some ==> (r is Ok && r->Ok_0@ == p),
    {
        match member_find(secrets, profile_id) {
            Some(i) => decrypt_secret(&self.encryption_key, secrets[i].1.as_str()),
            None => {
                let msg = owned("No secret found for profile '").concat(profile_id).concat("'");
                Err(StorageError::Encryption(msg))
            },
        }
    }

    /// Removes the secret stored under `profile_id`, if any.
    pub fn delete_secret(&self, secrets: &mut Vec<(String, String)>, profile_id: &str) -> (r: Result<(), StorageError>)
        requires
            secrets_wf(old(secrets)@),
        ensures
            r is Ok,
            secrets_wf(final(secrets)@),
            member_lookup(mview(final(secrets)@), profile_id@) is None,
            forall|k: Seq<char>| k != profile_id@ ==> member_lookup(mview(final(secrets)@), k) == member_lookup(mview(old(secrets)@), k),
    {
        member_remove(secrets, profile_id);
        Ok(())
    }
}

} // verus!
