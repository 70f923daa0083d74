use crate::auth::{AccessToken, Credentials};
use crate::error::{WebullError, WebullResult};
use crate::utils::crypto::{base64_text, bytes_of, decrypted, open_text, seal_text};
use vstd::prelude::*;
use vstd::string::StringSliceAdditionalSpecFns;

verus! {

/// Interface for storing and retrieving credentials, and the access token
/// with them. A store holds at most one of each.
pub trait CredentialStore: Send + Sync {
    /// The credentials that the store holds.
    open spec fn credentials(&self) -> Option<Credentials> {
        arbitrary()
    }

    /// The token that the store holds.
    open spec fn token(&self) -> Option<AccessToken> {
        arbitrary()
    }

    /// Whether the store's operations cannot fail. A store that keeps what
    /// it holds in memory is reliable; one that reads and writes files is not.
    open spec fn reliable(&self) -> bool {
        false
    }

    /// Get the stored credentials.
    fn get_credentials(&self) -> (r: WebullResult<Option<Credentials>>)
        ensures
            r matches Ok(credentials) ==> credentials == self.credentials(),
            self.reliable() ==> r is Ok,
    ;

    /// Store credentials.
    fn store_credentials(&mut self, credentials: Credentials) -> (r: WebullResult<()>)
        ensures
            r is Ok ==> final(self).credentials() == Some(credentials) && final(self).token()
                == old(self).token(),
            old(self).reliable() ==> r is Ok,
            final(self).reliable() == old(self).reliable(),
    ;

    /// Clear the stored credentials.
    fn clear_credentials(&mut self) -> (r: WebullResult<()>)
        ensures
            r is Ok ==> final(self).credentials() is None && final(self).token() == old(
                self,
            ).token(),
            old(self).reliable() ==> r is Ok,
            final(self).reliable() == old(self).reliable(),
    ;

    /// Get the stored access token.
    fn get_token(&self) -> (r: WebullResult<Option<AccessToken>>)
        ensures
            r matches Ok(token) ==> token == self.token(),
            self.reliable() ==> r is Ok,
    ;

    /// Store an access token.
    fn store_token(&mut self, token: AccessToken) -> (r: WebullResult<()>)
        ensures
            r is Ok ==> final(self).token() == Some(token) && final(self).credentials() == old(
                self,
            ).credentials(),
            old(self).reliable() ==> r is Ok,
            final(self).reliable() == old(self).reliable(),
    ;

    /// Clear the stored token.
    fn clear_token(&mut self) -> (r: WebullResult<()>)
        ensures
            r is Ok ==> final(self).token() is None && final(self).credentials() == old(
                self,
            ).credentials(),
            old(self).reliable() ==> r is Ok,
            final(self).reliable() == old(self).reliable(),
    ;
}

/// In-memory credential store.
#[derive(Debug)]
pub struct MemoryCredentialStore {
    /// Stored credentials
    pub credentials: Option<Credentials>,
    /// Stored access token
    pub token: Option<AccessToken>,
}

impl MemoryCredentialStore {
    /// An empty store.
    pub fn new() -> (store: Self)
        ensures
            store.credentials is None,
            store.token is None,
    {
        MemoryCredentialStore { credentials: None, token: None }
    }
}

impl Default for MemoryCredentialStore {
    fn default() -> (store: Self)
        ensures
            store.credentials is None,
            store.token is None,
    {
        MemoryCredentialStore { credentials: None, token: None }
    }
}

impl CredentialStore for MemoryCredentialStore {
    open spec fn credentials(&self) -> Option<Credentials> {
        self.credentials
    }

    open spec fn token(&self) -> Option<AccessToken> {
        self.token
    }

    open spec fn reliable(&self) -> bool {
        true
    }

    fn get_credentials(&self) -> (r: WebullResult<Option<Credentials>>) {
        match &self.credentials {
            Some(credentials) => Ok(Some(credentials.clone())),
            None => Ok(None),
        }
    }

    fn store_credentials(&mut self, credentials: Credentials) -> (r: WebullResult<()>) {
        self.credentials = Some(credentials);
        Ok(())
    }

    fn clear_credentials(&mut self) -> (r: WebullResult<()>) {
        self.credentials = None;
        Ok(())
    }

    fn get_token(&self) -> (r: WebullResult<Option<AccessToken>>) {
        match &self.token {
            Some(token) => Ok(Some(token.clone())),
            None => Ok(None),
        }
    }

    fn store_token(&mut self, token: AccessToken) -> (r: WebullResult<()>) {
        self.token = Some(token);
        Ok(())
    }

    fn clear_token(&mut self) -> (r: WebullResult<()>) {
        self.token = None;
        Ok(())
    }
}

/// Stored credentials with encryption.
#[derive(Debug, Clone, PartialEq, Eq)]
pub struct StoredCredentials {
    /// Encrypted username
    pub encrypted_username: String,
    /// Encrypted password
    pub encrypted_password: String,
    /// Initialization vector for encryption
    pub iv: String,
    /// Salt for encryption
    pub salt: String,
}

/// Stored token with encryption.
#[derive(Debug, Clone, PartialEq, Eq)]
pub struct StoredToken {
    /// Encrypted token
    pub encrypted_token: String,
    /// Encrypted refresh token
    pub encrypted_refresh_token: Option<String>,
    /// Expiration timestamp, in seconds since the Unix epoch
    pub expires_at: i64,
    /// Initialization vector for encryption
    pub iv: String,
    /// Salt for encryption
    pub salt: String,
}

/// A sealed text: the encrypted text, the initialization vector and the
/// salt.
#[derive(Debug, Clone, PartialEq, Eq)]
pub struct Sealed {
    pub encrypted: String,
    pub iv: String,
    pub salt: String,
}

/// Whether a character is an ASCII letter or digit.
pub open spec fn is_alphanumeric(c: char) -> bool {
    ('0' <= c <= '9') || ('a' <= c <= 'z') || ('A' <= c <= 'Z')
}

/// Draws `length` characters with `rand::distributions::Alphanumeric` from
/// `rand::thread_rng`. They depend on chance: only their number and their kind
/// are claimed.
#[verifier::external_body]
pub(crate) fn random_alphanumeric(length: usize) -> (text: String)
    ensures
        text@.len() == length,
        forall|i: int| 0 <= i < text@.len() ==> is_alphanumeric(#[trigger] text@[i]),
{
    rand::Rng::sample_iter(rand::thread_rng(), &rand::distributions::Alphanumeric)
        .take(length)
        .map(char::from)
        .collect()
}

/// Whether `chrono` has a moment for a number of seconds since the Unix
/// epoch: whether `DateTime::from_timestamp` returns one.
pub uninterp spec fn has_moment(seconds: i64) -> bool;

/// Calls `chrono::DateTime::from_timestamp` with no nanoseconds, and
/// `timestamp_millis` on the moment that it gives: the seconds in milliseconds.
/// `None` where the seconds are out of the range of `chrono`.
#[verifier::external_body]
pub(crate) fn millis_of_seconds(seconds: i64) -> (millis: Option<i64>)
    ensures
        millis is Some == has_moment(seconds),
        millis matches Some(ms) ==> ms == seconds * 1000,
{
    match chrono::DateTime::from_timestamp(seconds, 0) {
        Some(moment) => Some(moment.timestamp_millis()),
        None => None,
    }
}

/// The key that is derived from a password and a salt: thirty-two bytes,
/// each the exclusive or of a byte of the password and a byte of the salt,
/// both taken in turn and from the start again when they run out.
pub open spec fn derived_key(password: Seq<u8>, salt: Seq<u8>) -> Seq<u8> {
    Seq::new(32, |i: int| password[i % password.len() as int] ^ salt[i % salt.len() as int])
}

/// Encrypted credential store for disk-based storage: the paths of its two
/// files, its key, and what it has in memory. Reading and writing the files is
/// left to the caller; the store seals what is to be written and opens what
/// was read.
pub struct EncryptedCredentialStore {
    /// Path to the credentials file
    pub credentials_path: String,
    /// Path to the token file
    pub token_path: String,
    /// Encryption key
    pub encryption_key: String,
    /// In-memory cache
    pub memory_store: MemoryCredentialStore,
}

impl EncryptedCredentialStore {
    /// Create a new encrypted credential store, with nothing in memory.
    pub fn new(credentials_path: String, token_path: String, encryption_key: String) -> (store:
        Self)
        ensures
            store.credentials_path == credentials_path,
            store.token_path == token_path,
            store.encryption_key == encryption_key,
            store.memory_store.credentials is None,
            store.memory_store.token is None,
    {
        EncryptedCredentialStore {
            credentials_path,
            token_path,
            encryption_key,
            memory_store: MemoryCredentialStore::new(),
        }
    }

    /// Generate a random string of ASCII letters and digits.
    pub fn generate_random_string(&self, length: usize) -> (text: String)
        ensures
            text@.len() == length,
            forall|i: int| 0 <= i < text@.len() ==> is_alphanumeric(#[trigger] text@[i]),
    {
        random_alphanumeric(length)
    }

    /// Derive a key from a password and salt, neither of them empty.
    pub fn derive_key(&self, password: &str, salt: &str) -> (r: WebullResult<Vec<u8>>)
        requires
            password.spec_bytes().len() > 0,
            salt.spec_bytes().len() > 0,
        ensures
            r matches Ok(key) && key@ == derived_key(password.spec_bytes(), salt.spec_bytes()),
    {
        let password_bytes = password.as_bytes();
        let salt_bytes = salt.as_bytes();
        let mut key: Vec<u8> = Vec::with_capacity(32);
        let mut i: usize = 0;
        while i < 32
            invariant
                i <= 32,
                key@.len() == i,
                password_bytes@ == password.spec_bytes(),
                salt_bytes@ == salt.spec_bytes(),
                password_bytes@.len() > 0,
                salt_bytes@.len() > 0,
                forall|j: int|
                    0 <= j < i ==> #[trigger] key@[j] == password_bytes@[j
                        % password_bytes@.len() as int] ^ salt_bytes@[j
                        % salt_bytes@.len() as int],
            decreases 32 - i,
        {
            let byte = password_bytes[i % password_bytes.len()] ^ salt_bytes[i % salt_bytes.len()];
            key.push(byte);
            i += 1;
        }
        assert(key@ =~= derived_key(password.spec_bytes(), salt.spec_bytes()));
        Ok(key)
    }

    /// Encrypt data with a key and IV. The scheme is a stand-in that keeps
    /// nothing secret: the data's bytes in base64, whatever key and IV.
    pub fn encrypt_with_key(&self, data: &str, _key: &[u8], _iv: &str) -> (r: WebullResult<String>)
        ensures
            r matches Ok(text) && text@ == base64_text(bytes_of(data@)) && decrypted(text@)
                == Some(data@),
    {
        Ok(seal_text(data))
    }

    /// Decrypt data with a key and IV: the inverse of `encrypt_with_key`.
    /// Data that is not base64, or does not hold UTF-8, is an invalid request.
    pub fn decrypt_with_key(&self, encrypted: &str, _key: &[u8], _iv: &str) -> (r: WebullResult<
        String,
    >)
        ensures
            match r {
                Ok(text) => decrypted(encrypted@) == Some(text@),
                Err(e) => decrypted(encrypted@) is None && e is InvalidRequest,
            },
    {
        open_text(encrypted)
    }

    /// Encrypt a string under the store's key, which is not empty, with a
    /// fresh salt and IV of sixteen random letters and digits each.
    pub fn encrypt(&self, data: &str) -> (r: WebullResult<Sealed>)
        requires
            bytes_of(self.encryption_key@).len() > 0,
        ensures
            r matches Ok(sealed) && {
                &&& sealed.encrypted@ == base64_text(bytes_of(data@))
                &&& decrypted(sealed.encrypted@) == Some(data@)
                &&& sealed.iv@.len() == 16
                &&& sealed.salt@.len() == 16
                &&& bytes_of(sealed.salt@).len() == 16
                &&& forall|i: int| 0 <= i < 16 ==> is_alphanumeric(#[trigger] sealed.iv@[i])
                &&& forall|i: int| 0 <= i < 16 ==> is_alphanumeric(#[trigger] sealed.salt@[i])
            },
    {
        let salt = self.generate_random_string(16);
        let iv = self.generate_random_string(16);
        proof {
            lemma_alphanumeric_bytes(salt@);
        }
        let key = match self.derive_key(self.encryption_key.as_str(), salt.as_str()) {
            Ok(key) => key,
            Err(e) => {
                return Err(e);
            },
        };
        match self.encrypt_with_key(data, key.as_slice(), iv.as_str()) {
            Ok(encrypted) => Ok(Sealed { encrypted, iv, salt }),
            Err(e) => Err(e),
        }
    }

    /// Decrypt a string under the store's key, with the salt and IV that it
    /// was sealed with. Neither key nor salt is empty.
    pub fn decrypt(&self, encrypted: &str, iv: &str, salt: &str) -> (r: WebullResult<String>)
        requires
            bytes_of(self.encryption_key@).len() > 0,
            salt.spec_bytes().len() > 0,
        ensures
            match r {
                Ok(text) => decrypted(encrypted@) == Some(text@),
                Err(e) => decrypted(encrypted@) is None && e is InvalidRequest,
            },
    {
        let key = match self.derive_key(self.encryption_key.as_str(), salt) {
            Ok(key) => key,
            Err(e) => {
                return Err(e);
            },
        };
        self.decrypt_with_key(encrypted, key.as_slice(), iv)
    }

    /// Seal credentials for the credentials file: username and password
    /// encrypted, with the IV and salt of the username.
    pub fn save_credentials(&self, credentials: &Credentials) -> (r: WebullResult<
        StoredCredentials,
    >)
        requires
            bytes_of(self.encryption_key@).len() > 0,
        ensures
            r matches Ok(stored) && {
                &&& stored.encrypted_username@ == base64_text(bytes_of(credentials.username@))
                &&& stored.encrypted_password@ == base64_text(bytes_of(credentials.password@))
                &&& decrypted(stored.encrypted_username@) == Some(credentials.username@)
                &&& decrypted(stored.encrypted_password@) == Some(credentials.password@)
                &&& stored.iv@.len() == 16
                &&& bytes_of(stored.salt@).len() == 16
            },
    {
        let username = match self.encrypt(credentials.username.as_str()) {
            Ok(sealed) => sealed,
            Err(e) => {
                return Err(e);
            },
        };
        let password = match self.encrypt(credentials.password.as_str()) {
            Ok(sealed) => sealed,
            Err(e) => {
                return Err(e);
            },
        };
        Ok(
            StoredCredentials {
                encrypted_username: username.encrypted,
                encrypted_password: password.encrypted,
                iv: username.iv,
                salt: username.salt,
            },
        )
    }

    /// Open what the credentials file held. The salt is not empty.
    pub fn load_credentials(&self, stored: &StoredCredentials) -> (r: WebullResult<Credentials>)
        requires
            bytes_of(self.encryption_key@).len() > 0,
            bytes_of(stored.salt@).len() > 0,
        ensures
            match r {
                Ok(credentials) => decrypted(stored.encrypted_username@) == Some(
                    credentials.username@,
                ) && decrypted(stored.encrypted_password@) == Some(credentials.password@),
                Err(e) => (decrypted(stored.encrypted_username@) is None || decrypted(
                    stored.encrypted_password@,
                ) is None) && e is InvalidRequest,
            },
    {
        let username = match self.decrypt(
            stored.encrypted_username.as_str(),
            stored.iv.as_str(),
            stored.salt.as_str(),
        ) {
            Ok(text) => text,
            Err(e) => {
                return Err(e);
            },
        };
        let password = match self.decrypt(
            stored.encrypted_password.as_str(),
            stored.iv.as_str(),
            stored.salt.as_str(),
        ) {
            Ok(text) => text,
            Err(e) => {
                return Err(e);
            },
        };
        Ok(Credentials { username, password })
    }

    /// Seal a token for the token file: the token and the refresh token, if
    /// there is one, encrypted, with the IV and salt of the token; the expiry in
    /// whole seconds, rounded down.
    pub fn save_token(&self, token: &AccessToken) -> (r: WebullResult<StoredToken>)
        requires
            bytes_of(self.encryption_key@).len() > 0,
        ensures
            r matches Ok(stored) && {
                &&& stored.encrypted_token@ == base64_text(bytes_of(token.token@))
                &&& decrypted(stored.encrypted_token@) == Some(token.token@)
                &&& match token.refresh_token {
                    Some(refresh) => stored.encrypted_refresh_token matches Some(sealed)
                        && sealed@ == base64_text(bytes_of(refresh@)) && decrypted(sealed@)
                        == Some(refresh@),
                    None => stored.encrypted_refresh_token is None,
                }
                &&& stored.expires_at * 1000 <= token.expires_at < stored.expires_at * 1000 + 1000
                &&& stored.iv@.len() == 16
                &&& bytes_of(stored.salt@).len() == 16
            },
    {
        let sealed = match self.encrypt(token.token.as_str()) {
            Ok(sealed) => sealed,
            Err(e) => {
                return Err(e);
            },
        };
        let encrypted_refresh_token = match &token.refresh_token {
            Some(refresh) => match self.encrypt(refresh.as_str()) {
                Ok(sealed) => Some(sealed.encrypted),
                Err(e) => {
                    return Err(e);
                },
            },
            None => None,
        };
        let whole = token.expires_at / 1000;
        let seconds = if token.expires_at % 1000 < 0 {
            whole - 1
        } else {
            whole
        };
        Ok(
            StoredToken {
                encrypted_token: sealed.encrypted,
                encrypted_refresh_token,
                expires_at: seconds,
                iv: sealed.iv,
                salt: sealed.salt,
            },
        )
    }

    /// Open what the token file held. The salt is not empty. Text that does
    /// not decrypt, and an expiry that is no moment, are invalid requests.
    pub fn load_token(&self, stored: &StoredToken) -> (r: WebullResult<AccessToken>)
        requires
            bytes_of(self.encryption_key@).len() > 0,
            bytes_of(stored.salt@).len() > 0,
        ensures
            match r {
                Ok(token) => {
                    &&& decrypted(stored.encrypted_token@) == Some(token.token@)
                    &&& match stored.encrypted_refresh_token {
                        Some(sealed) => token.refresh_token matches Some(refresh) && decrypted(
                            sealed@,
                        ) == Some(refresh@),
                        None => token.refresh_token is None,
                    }
                    &&& has_moment(stored.expires_at)
                    &&& token.expires_at == stored.expires_at * 1000
                },
                Err(e) => e is InvalidRequest && {
                    ||| decrypted(stored.encrypted_token@) is None
                    ||| (stored.encrypted_refresh_token matches Some(sealed) && decrypted(sealed@)
                        is None)
                    ||| !has_moment(stored.expires_at)
                },
            },
    {
        let token = match self.decrypt(
            stored.encrypted_token.as_str(),
            stored.iv.as_str(),
            stored.salt.as_str(),
        ) {
            Ok(text) => text,
            Err(e) => {
                return Err(e);
            },
        };
        let refresh_token = match &stored.encrypted_refresh_token {
            Some(sealed) => match self.decrypt(
                sealed.as_str(),
                stored.iv.as_str(),
                stored.salt.as_str(),
            ) {
                Ok(text) => Some(text),
                Err(e) => {
                    return Err(e);
                },
            },
            None => None,
        };
        let expires_at = match millis_of_seconds(stored.expires_at) {
            Some(millis) => millis,
            None => {
                return Err(WebullError::InvalidRequest("Invalid timestamp".to_owned()));
            },
        };
        Ok(AccessToken { token, expires_at, refresh_token })
    }

    /// Get the credentials: those in memory, or else those that the
    /// credentials file held, which are then kept in memory. The file is not
    /// looked at while the memory holds credentials.
    pub fn get_credentials(&mut self, file: Option<&StoredCredentials>) -> (r: WebullResult<
        Option<Credentials>,
    >)
        requires
            old(self).memory_store.credentials is None && file is Some ==> bytes_of(
                old(self).encryption_key@,
            ).len() > 0 && bytes_of(file->0.salt@).len() > 0,
        ensures
            final(self).credentials_path == old(self).credentials_path,
            final(self).token_path == old(self).token_path,
            final(self).encryption_key == old(self).encryption_key,
            final(self).memory_store.token == old(self).memory_store.token,
            match (old(self).memory_store.credentials, file) {
                (Some(held), _) => r == Ok::<Option<Credentials>, WebullError>(Some(held))
                    && *final(self) == *old(self),
                (None, None) => r == Ok::<Option<Credentials>, WebullError>(None) && *final(self)
                    == *old(self),
                (None, Some(stored)) => match r {
                    Ok(found) => found matches Some(credentials) && decrypted(
                        stored.encrypted_username@,
                    ) == Some(credentials.username@) && decrypted(stored.encrypted_password@)
                        == Some(credentials.password@) && final(self).memory_store.credentials
                        == found,
                    Err(e) => (decrypted(stored.encrypted_username@) is None || decrypted(
                        stored.encrypted_password@,
                    ) is None) && e is InvalidRequest && *final(self) == *old(self),
                },
            },
    {
        if let Some(held) = &self.memory_store.credentials {
            return Ok(Some(held.clone()));
        }
        let stored = match file {
            Some(stored) => stored,
            None => {
                return Ok(None);
            },
        };
        match self.load_credentials(stored) {
            Ok(credentials) => {
                self.memory_store.credentials = Some(credentials.clone());
                Ok(Some(credentials))
            },
            Err(e) => Err(e),
        }
    }

    /// Store credentials: they are kept in memory, and the result is what
    /// is to be written to the credentials file.
    pub fn store_credentials(&mut self, credentials: Credentials) -> (r: WebullResult<
        StoredCredentials,
    >)
        requires
            bytes_of(old(self).encryption_key@).len() > 0,
        ensures
            *final(self) == (EncryptedCredentialStore {
                memory_store: MemoryCredentialStore {
                    credentials: Some(credentials),
                    token: old(self).memory_store.token,
                },
                ..*old(self)
            }),
            r matches Ok(stored) && {
                &&& decrypted(stored.encrypted_username@) == Some(credentials.username@)
                &&& decrypted(stored.encrypted_password@) == Some(credentials.password@)
                &&& stored.iv@.len() == 16
                &&& bytes_of(stored.salt@).len() == 16
            },
    {
        let sealed = self.save_credentials(&credentials);
        self.memory_store.credentials = Some(credentials);
        sealed
    }

    /// Clear the credentials in memory. The credentials file is to be
    /// removed.
    pub fn clear_credentials(&mut self)
        ensures
            *final(self) == (EncryptedCredentialStore {
                memory_store: MemoryCredentialStore {
                    credentials: None,
                    token: old(self).memory_store.token,
                },
                ..*old(self)
            }),
    {
        self.memory_store.credentials = None;
    }

    /// Get the token: the one in memory, or else the one that the token file
    /// held, which is then kept in memory. The file is not looked at while the
    /// memory holds a token.
    pub fn get_token(&mut self, file: Option<&StoredToken>) -> (r: WebullResult<
        Option<AccessToken>,
    >)
        requires
            old(self).memory_store.token is None && file is Some ==> bytes_of(
                old(self).encryption_key@,
            ).len() > 0 && bytes_of(file->0.salt@).len() > 0,
        ensures
            final(self).credentials_path == old(self).credentials_path,
            final(self).token_path == old(self).token_path,
            final(self).encryption_key == old(self).encryption_key,
            final(self).memory_store.credentials == old(self).memory_store.credentials,
            match (old(self).memory_store.token, file) {
                (Some(held), _) => r == Ok::<Option<AccessToken>, WebullError>(Some(held))
                    && *final(self) == *old(self),
                (None, None) => r == Ok::<Option<AccessToken>, WebullError>(None) && *final(self)
                    == *old(self),
                (None, Some(stored)) => match r {
                    Ok(found) => {
                        &&& found matches Some(token)
                        &&& decrypted(stored.encrypted_token@) == Some(token.token@)
                        &&& match stored.encrypted_refresh_token {
                            Some(sealed) => token.refresh_token matches Some(refresh) && decrypted(
                                sealed@,
                            ) == Some(refresh@),
                            None => token.refresh_token is None,
                        }
                        &&& token.expires_at == stored.expires_at * 1000
                        &&& has_moment(stored.expires_at)
                        &&& final(self).memory_store.token == found
                    },
                    Err(e) => e is InvalidRequest && *final(self) == *old(self) && {
                        ||| decrypted(stored.encrypted_token@) is None
                        ||| (stored.encrypted_refresh_token matches Some(sealed) && decrypted(
                            sealed@,
                        ) is None)
                        ||| !has_moment(stored.expires_at)
                    },
                },
            },
    {
        if let Some(held) = &self.memory_store.token {
            return Ok(Some(held.clone()));
        }
        let stored = match file {
            Some(stored) => stored,
            None => {
                return Ok(None);
            },
        };
        match self.load_token(stored) {
            Ok(token) => {
                self.memory_store.token = Some(token.clone());
                Ok(Some(token))
            },
            Err(e) => Err(e),
        }
    }

    /// Store a token: it is kept in memory, and the result is what is to be
    /// written to the token file.
    pub fn store_token(&mut self, token: AccessToken) -> (r: WebullResult<StoredToken>)
        requires
            bytes_of(old(self).encryption_key@).len() > 0,
        ensures
            *final(self) == (EncryptedCredentialStore {
                memory_store: MemoryCredentialStore {
                    credentials: old(self).memory_store.credentials,
                    token: Some(token),
                },
                ..*old(self)
            }),
            r matches Ok(stored) && {
                &&& decrypted(stored.encrypted_token@) == Some(token.token@)
                &&& stored.expires_at * 1000 <= token.expires_at < stored.expires_at * 1000 + 1000
                &&& stored.encrypted_refresh_token is Some == token.refresh_token is Some
                &&& stored.iv@.len() == 16
                &&& bytes_of(stored.salt@).len() == 16
            },
    {
        let sealed = self.save_token(&token);
        self.memory_store.token = Some(token);
        sealed
    }

    /// Clear the token in memory. The token file is to be removed.
    pub fn clear_token(&mut self)
        ensures
            *final(self) == (EncryptedCredentialStore {
                memory_store: MemoryCredentialStore {
                    credentials: old(self).memory_store.credentials,
                    token: None,
                },
                ..*old(self)
            }),
    {
        self.memory_store.token = None;
    }
}

/// A text of ASCII letters and digits has as many bytes as characters.
proof fn lemma_alphanumeric_bytes(text: Seq<char>)
    requires
        forall|i: int| 0 <= i < text.len() ==> is_alphanumeric(#[trigger] text[i]),
    ensures
        bytes_of(text).len() == text.len(),
{
    assert(vstd::utf8::is_ascii_chars(text)) by {
        assert forall|i: int| 0 <= i < text.len() implies '\0' <= #[trigger] text[i] <= '\u{7f}' by {
            assert(is_alphanumeric(text[i]));
        }
    }
    vstd::utf8::is_ascii_chars_encode_utf8(text);
}

} // verus!
