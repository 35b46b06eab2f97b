//! The password vault: a startup password checked against a stored argon2
//! hash, a 32-byte master key derived from it, and files sealed with that key
//! as `[nonce (12 bytes)][AES-256-GCM ciphertext]`.
//!
//! Reading and writing the files is the host's part: the vault computes the
//! record to store, checks a stored record, and seals and opens bytes.
use vstd::prelude::*;
use aes_gcm::aead::{Aead, AeadCore, KeyInit};
use argon2::{PasswordHasher, PasswordVerifier};
use zeroize::Zeroize;
use vstd::string::StringSliceAdditionalSpecFns;
use vstd::utf8::encode_utf8;
use crate::config::path_join;
use crate::json::{
    empty_map, entries_of, json_str, into_object, map_get, map_insert, object_entries,
    object_value, parse_json, parsed_json, string_value,
};

verus! {

/// Name of the vault's record in the application directory.
pub const SECURITY_FILE: &'static str = "security.json";

/// Length of the master key, in bytes.
pub const KEY_LEN: usize = 32;

/// Length of the nonce at the head of a sealed file, in bytes.
pub const NONCE_LEN: usize = 12;

/// The argon2id key (default costs, 32 bytes) of a password and a salt.
pub uninterp spec fn argon2id_key(password: Seq<u8>, salt: Seq<u8>) -> Seq<u8>;

/// The PHC string of the default argon2 hash of a password with a salt given
/// as base64 text; `None` when the salt is not valid or hashing fails.
pub uninterp spec fn phc_hash(password: Seq<u8>, salt: Seq<char>) -> Option<Seq<char>>;

/// Whether argon2 accepts a password against a PHC string; `None` when the
/// string is not a PHC hash.
pub uninterp spec fn phc_verdict(password: Seq<u8>, phc: Seq<char>) -> Option<bool>;

/// The AES-256-GCM ciphertext of a plaintext under a key and nonce.
pub uninterp spec fn gcm_sealed(key: Seq<u8>, nonce: Seq<u8>, plaintext: Seq<u8>) -> Option<Seq<u8>>;

/// The plaintext of an AES-256-GCM ciphertext under a key and nonce, when it
/// authenticates.
pub uninterp spec fn gcm_opened(key: Seq<u8>, nonce: Seq<u8>, ciphertext: Seq<u8>) -> Option<Seq<u8>>;

/// The pretty-printed JSON text of a value.
pub uninterp spec fn json_pretty(v: serde_json::Value) -> Seq<char>;

/// Relies on `Argon2::hash_password_into` with the argon2id algorithm,
/// version 0x13, default costs and a 32-byte output; the stack copy of the key
/// is zeroed with `zeroize`.
#[verifier::external_body]
fn derive_key(password: &[u8], salt: &[u8]) -> (r: Option<Vec<u8>>)
    ensures
        match r {
            Some(k) => k@ == argon2id_key(password@, salt@) && k@.len() == KEY_LEN,
            None => true,
        },
{
    let params = argon2::Params::new(argon2::Params::DEFAULT_M_COST, argon2::Params::DEFAULT_T_COST, argon2::Params::DEFAULT_P_COST, Some(KEY_LEN)).ok()?;
    let kdf = argon2::Argon2::new(argon2::Algorithm::Argon2id, argon2::Version::V0x13, params);
    let mut material = [0u8; KEY_LEN];
    let outcome = kdf.hash_password_into(password, salt, &mut material);
    let key = material.to_vec();
    material.zeroize();
    outcome.ok().map(|_| key)
}

/// Relies on `PasswordHasher::hash_password` of the default `Argon2`, with
/// the salt read by `SaltString::from_b64`.
#[verifier::external_body]
fn hash_password(password: &[u8], salt: &str) -> (r: Option<String>)
    ensures
        match r {
            Some(h) => phc_hash(password@, salt@) == Some(h@),
            None => phc_hash(password@, salt@) is None,
        },
{
    let salt = argon2::password_hash::SaltString::from_b64(salt).ok()?;
    argon2::Argon2::default().hash_password(password, &salt).ok().map(|h| h.to_string())
}

/// Relies on `PasswordHash::new` to read a PHC string and on
/// `PasswordVerifier::verify_password` of the default `Argon2`.
#[verifier::external_body]
fn check_password(password: &[u8], phc: &str) -> (r: Option<bool>)
    ensures
        r == phc_verdict(password@, phc@),
{
    let parsed = argon2::password_hash::PasswordHash::new(phc).ok()?;
    Some(argon2::Argon2::default().verify_password(password, &parsed).is_ok())
}

/// Relies on `SaltString::generate` with the operating system's generator:
/// a fresh random salt, as base64 text.
#[verifier::external_body]
fn generate_salt() -> (r: String) {
    argon2::password_hash::SaltString::generate(&mut argon2::password_hash::rand_core::OsRng).as_str().to_string()
}

/// Relies on `AeadCore::generate_nonce` of `Aes256Gcm` with the operating
/// system's generator: a fresh random nonce of 12 bytes.
#[verifier::external_body]
fn generate_nonce() -> (r: Vec<u8>)
    ensures
        r@.len() == NONCE_LEN,
{
    aes_gcm::Aes256Gcm::generate_nonce(&mut aes_gcm::aead::OsRng).to_vec()
}

/// Relies on `Aead::encrypt` of `Aes256Gcm`; `Key::from_slice` and
/// `Nonce::from_slice` take exactly 32 and 12 bytes.
#[verifier::external_body]
fn gcm_encrypt(key: &[u8], nonce: &[u8], plaintext: &[u8]) -> (r: Option<Vec<u8>>)
    requires
        key@.len() == KEY_LEN,
        nonce@.len() == NONCE_LEN,
    ensures
        match r {
            Some(c) => gcm_sealed(key@, nonce@, plaintext@) == Some(c@),
            None => gcm_sealed(key@, nonce@, plaintext@) is None,
        },
{
    let cipher = aes_gcm::Aes256Gcm::new(aes_gcm::Key::<aes_gcm::Aes256Gcm>::from_slice(key));
    cipher.encrypt(aes_gcm::Nonce::from_slice(nonce), plaintext).ok()
}

/// Relies on `Aead::decrypt` of `Aes256Gcm`; `Key::from_slice` and
/// `Nonce::from_slice` take exactly 32 and 12 bytes.
#[verifier::external_body]
fn gcm_decrypt(key: &[u8], nonce: &[u8], ciphertext: &[u8]) -> (r: Option<Vec<u8>>)
    requires
        key@.len() == KEY_LEN,
        nonce@.len() == NONCE_LEN,
    ensures
        match r {
            Some(p) => gcm_opened(key@, nonce@, ciphertext@) == Some(p@),
            None => gcm_opened(key@, nonce@, ciphertext@) is None,
        },
{
    let cipher = aes_gcm::Aes256Gcm::new(aes_gcm::Key::<aes_gcm::Aes256Gcm>::from_slice(key));
    cipher.decrypt(aes_gcm::Nonce::from_slice(nonce), ciphertext).ok()
}

/// Relies on `serde_json::to_string_pretty`.
#[verifier::external_body]
fn to_json_pretty(v: &serde_json::Value) -> (r: Option<String>)
    ensures
        match r {
            Some(t) => t@ == json_pretty(*v),
            None => true,
        },
{
    serde_json::to_string_pretty(v).ok()
}

/// What can go wrong in the vault.
#[derive(Clone, Copy, Debug, PartialEq, Eq, Structural)]
pub enum VaultError {
    /// No master key: the vault was not unlocked.
    Locked,
    /// A sealed file shorter than its nonce.
    FileTooShort,
    /// The key derivation failed.
    KeyDerivation,
    /// Hashing the password failed.
    Hashing,
    /// The stored record is not the vault's JSON record.
    InvalidRecord,
    /// The stored hash is not a PHC string.
    InvalidHash,
    /// Encryption failed.
    Encryption,
    /// The ciphertext does not authenticate under the key.
    Decryption,
}

impl VaultError {
    /// A description for people.
    pub fn message(&self) -> (r: String) {
        match self {
            VaultError::Locked => String::from_str("Vault locked"),
            VaultError::FileTooShort => String::from_str("File too short"),
            VaultError::KeyDerivation => String::from_str("Key derivation failed"),
            VaultError::Hashing => String::from_str("Hashing failed"),
            VaultError::InvalidRecord => String::from_str("Invalid vault record"),
            VaultError::InvalidHash => String::from_str("Invalid hash format"),
            VaultError::Encryption => String::from_str("Encryption failed"),
            VaultError::Decryption => String::from_str("Decryption failed"),
        }
    }
}

/// The hash and salt that a record's text holds: a JSON object with a
/// string under `password_hash` and a string under `salt`.
pub open spec fn record_fields(text: Seq<char>) -> Option<(Seq<char>, Seq<char>)> {
    match parsed_json(text) {
        Some(v) => match entries_of(v) {
            Some(e) => if e.contains_key("password_hash"@) && e.contains_key("salt"@) {
                match (json_str(e["password_hash"@]), json_str(e["salt"@])) {
                    (Some(h), Some(s)) => Some((h, s)),
                    _ => None,
                }
            } else {
                None
            },
            None => None,
        },
        None => None,
    }
}

/// `v` is the record of a hash and a salt: an object holding exactly those
/// two strings.
pub open spec fn record_holds(v: serde_json::Value, hash: Seq<char>, salt: Seq<char>) -> bool {
    match entries_of(v) {
        Some(e) => e.dom() == set!["password_hash"@, "salt"@]
            && json_str(e["password_hash"@]) == Some(hash)
            && json_str(e["salt"@]) == Some(salt),
        None => false,
    }
}

/// The vault of one application directory. Its master key, when present,
/// has 32 bytes.
pub struct SecurityManager {
    app_dir: std::path::PathBuf,
    master_key: Option<Vec<u8>>,
}

impl SecurityManager {
    #[verifier::type_invariant]
    spec fn key_is_full(&self) -> bool {
        match self.master_key {
            Some(k) => k@.len() == KEY_LEN,
            None => true,
        }
    }

    /// The master key held, if the vault is unlocked.
    pub closed spec fn key(&self) -> Option<Seq<u8>> {
        match self.master_key {
            Some(k) => Some(k@),
            None => None,
        }
    }

    /// A locked vault for the directory.
    pub fn new(app_dir: std::path::PathBuf) -> (r: SecurityManager)
        ensures
            r.key() is None,
    {
        SecurityManager { app_dir, master_key: None }
    }

    /// Where the vault's record is kept.
    pub fn config_path(&self) -> (r: std::path::PathBuf) {
        path_join(&self.app_dir, SECURITY_FILE)
    }

    /// A copy of the master key, if the vault is unlocked.
    pub fn get_master_key(&self) -> (r: Option<Vec<u8>>)
        ensures
            match r {
                Some(k) => self.key() == Some(k@),
                None => self.key() is None,
            },
    {
        match &self.master_key {
            Some(k) => Some(k.clone()),
            None => None,
        }
    }

    /// Derives the master key from the password and the stored salt and
    /// keeps it.
    pub fn derive_and_store_key(&mut self, password: &str, salt: &str) -> (r: Result<(), VaultError>)
        ensures
            match r {
                Ok(()) => final(self).key() == Some(argon2id_key(password.spec_bytes(), salt.spec_bytes())),
                Err(e) => e == VaultError::KeyDerivation && final(self).key() == old(self).key(),
            },
    {
        match derive_key(password.as_bytes(), salt.as_bytes()) {
            Some(k) => {
                self.master_key = Some(k);
                Ok(())
            },
            None => Err(VaultError::KeyDerivation),
        }
    }

    /// Sets the vault up with a password and a salt: hashes the password,
    /// unlocks the vault, and returns the record to store, the pretty JSON of
    /// `{password_hash, salt}`.
    pub fn init_with_salt(&mut self, password: &str, salt: &str) -> (r: Result<String, VaultError>)
        ensures
            phc_hash(password.spec_bytes(), salt@) is None ==> r == Err::<String, VaultError>(VaultError::Hashing),
            r is Err ==> final(self).key() == old(self).key(),
            r is Ok ==> phc_hash(password.spec_bytes(), salt@) is Some
                && final(self).key() == Some(argon2id_key(password.spec_bytes(), salt.spec_bytes()))
                && exists|v: serde_json::Value| #[trigger] json_pretty(v) == r->Ok_0@
                    && record_holds(v, phc_hash(password.spec_bytes(), salt@)->Some_0, salt@),
    {
        let hash = match hash_password(password.as_bytes(), salt) {
            Some(h) => h,
            None => {
                return Err(VaultError::Hashing);
            },
        };
        let ghost h = hash@;
        let mut m = empty_map();
        map_insert(&mut m, String::from_str("password_hash"), string_value(hash));
        map_insert(&mut m, String::from_str("salt"), string_value(String::from_str(salt)));
        proof {
            reveal_strlit("password_hash");
            reveal_strlit("salt");
            assert("password_hash"@.len() != "salt"@.len());
            assert(object_entries(m).dom() =~= set!["password_hash"@, "salt"@]);
        }
        let record = object_value(m);
        let text = match to_json_pretty(&record) {
            Some(t) => t,
            None => {
                return Err(VaultError::InvalidRecord);
            },
        };
        self.derive_and_store_key(password, salt)?;
        proof {
            assert(record_holds(record, h, salt@));
        }
        Ok(text)
    }

    /// Sets the vault up with a password and a fresh random salt; see
    /// `init_with_salt`.
    pub fn init(&mut self, password: &str) -> (r: Result<String, VaultError>)
        ensures
            r is Ok ==> final(self).key() is Some,
            r is Err ==> final(self).key() == old(self).key(),
    {
        let salt = generate_salt();
        self.init_with_salt(password, salt.as_str())
    }

    /// Checks a password against the stored record. A match unlocks the
    /// vault and gives `true`; a mismatch gives `false`.
    pub fn unlock(&mut self, record: &str, password: &str) -> (r: Result<bool, VaultError>)
        ensures
            match record_fields(record@) {
                None => r == Err::<bool, VaultError>(VaultError::InvalidRecord) && final(self).key() == old(self).key(),
                Some((hash, salt)) => match phc_verdict(password.spec_bytes(), hash) {
                    None => r == Err::<bool, VaultError>(VaultError::InvalidHash) && final(self).key() == old(self).key(),
                    Some(false) => r == Ok::<bool, VaultError>(false) && final(self).key() == old(self).key(),
                    Some(true) => (r == Ok::<bool, VaultError>(true) && final(self).key() == Some(argon2id_key(password.spec_bytes(), encode_utf8(salt))))
                        || (r == Err::<bool, VaultError>(VaultError::KeyDerivation) && final(self).key() == old(self).key()),
                },
            },
    {
        let v = match parse_json(record) {
            Some(v) => v,
            None => {
                return Err(VaultError::InvalidRecord);
            },
        };
        let fields = match into_object(v) {
            Ok(m) => m,
            Err(_) => {
                return Err(VaultError::InvalidRecord);
            },
        };
        let hash = match map_get(&fields, "password_hash") {
            Some(h) => match h.as_str() {
                Some(t) => t,
                None => {
                    return Err(VaultError::InvalidRecord);
                },
            },
            None => {
                return Err(VaultError::InvalidRecord);
            },
        };
        let salt = match map_get(&fields, "salt") {
            Some(s) => match s.as_str() {
                Some(t) => t,
                None => {
                    return Err(VaultError::InvalidRecord);
                },
            },
            None => {
                return Err(VaultError::InvalidRecord);
            },
        };
        match check_password(password.as_bytes(), hash) {
            None => Err(VaultError::InvalidHash),
            Some(false) => Ok(false),
            Some(true) => {
                self.derive_and_store_key(password, salt)?;
                Ok(true)
            },
        }
    }

    /// Seals a plaintext under the master key with the given nonce:
    /// `[nonce][ciphertext]`.
    pub fn seal_with(&self, nonce: &[u8], plaintext: &[u8]) -> (r: Result<Vec<u8>, VaultError>)
        requires
            nonce@.len() == NONCE_LEN,
        ensures
            match self.key() {
                None => r == Err::<Vec<u8>, VaultError>(VaultError::Locked),
                Some(k) => match gcm_sealed(k, nonce@, plaintext@) {
                    Some(c) => r is Ok && r->Ok_0@ == nonce@ + c,
                    None => r == Err::<Vec<u8>, VaultError>(VaultError::Encryption),
                },
            },
    {
        proof {
            use_type_invariant(self);
        }
        let key = match &self.master_key {
            Some(k) => k,
            None => {
                return Err(VaultError::Locked);
            },
        };
        let sealed = match gcm_encrypt(key.as_slice(), nonce, plaintext) {
            Some(c) => c,
            None => {
                return Err(VaultError::Encryption);
            },
        };
        let mut out: Vec<u8> = Vec::new();
        out.extend_from_slice(nonce);
        out.extend_from_slice(sealed.as_slice());
        Ok(out)
    }

    /// Seals a plaintext under the master key with a fresh random nonce.
    pub fn seal(&self, plaintext: &[u8]) -> (r: Result<Vec<u8>, VaultError>)
        ensures
            self.key() is None ==> r == Err::<Vec<u8>, VaultError>(VaultError::Locked),
            r is Ok ==> r->Ok_0@.len() >= NONCE_LEN && gcm_sealed(
                self.key()->Some_0,
                r->Ok_0@.take(NONCE_LEN as int),
                plaintext@,
            ) == Some(r->Ok_0@.skip(NONCE_LEN as int)),
    {
        let nonce = generate_nonce();
        let r = self.seal_with(nonce.as_slice(), plaintext);
        proof {
            if r is Ok {
                let c = gcm_sealed(self.key()->Some_0, nonce@, plaintext@)->Some_0;
                assert(r->Ok_0@.take(NONCE_LEN as int) =~= nonce@);
                assert(r->Ok_0@.skip(NONCE_LEN as int) =~= c);
            }
        }
        r
    }

    /// Opens a sealed file's bytes, `[nonce][ciphertext]`, under the master key.
    pub fn open(&self, data: &[u8]) -> (r: Result<Vec<u8>, VaultError>)
        ensures
            match self.key() {
                None => r == Err::<Vec<u8>, VaultError>(VaultError::Locked),
                Some(k) => if data@.len() < NONCE_LEN {
                    r == Err::<Vec<u8>, VaultError>(VaultError::FileTooShort)
                } else {
                    match gcm_opened(k, data@.take(NONCE_LEN as int), data@.skip(NONCE_LEN as int)) {
                        Some(p) => r is Ok && r->Ok_0@ == p,
                        None => r == Err::<Vec<u8>, VaultError>(VaultError::Decryption),
                    }
                },
            },
    {
        proof {
            use_type_invariant(self);
        }
        let key = match &self.master_key {
            Some(k) => k,
            None => {
                return Err(VaultError::Locked);
            },
        };
        if data.len() < NONCE_LEN {
            return Err(VaultError::FileTooShort);
        }
        let (nonce, body) = data.split_at(NONCE_LEN);
        proof {
            assert(nonce@ =~= data@.take(NONCE_LEN as int));
            assert(body@ =~= data@.skip(NONCE_LEN as int));
        }
        match gcm_decrypt(key.as_slice(), nonce, body) {
            Some(p) => Ok(p),
            None => Err(VaultError::Decryption),
        }
    }
}

} // verus!
