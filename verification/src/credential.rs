//! User credentials and the per-call authentication metadata.

use crate::error::STATUS_UNAUTHENTICATED;
use tonic::metadata::MetadataMap;
use vstd::prelude::*;
use vstd::string::*;

verus! {

/// `tonic::metadata::MetadataMap`, the key-value collection that travels
/// with every call.
#[verifier::external_type_specification]
#[verifier::external_body]
pub struct ExMetadataMap(MetadataMap);

/// The text entries of a metadata map: each key with the value that a lookup
/// of the key finds.
pub uninterp spec fn metadata_entries(map: MetadataMap) -> Map<Seq<char>, Seq<char>>;

/// How many entries a metadata map holds, whatever their keys.
pub uninterp spec fn metadata_len(map: MetadataMap) -> nat;

/// The number of entries from which on a metadata map may refuse one more.
/// The map keeps its entries in a table of 32768 slots at most. It grows the
/// table when three quarters of it are taken, and, where many keys fall on
/// the same slots, as soon as a fifth of it is taken: with 32768 slots that
/// is from 6554 entries on. Below that number the map takes every entry.
pub const METADATA_ROOM: usize = 6554;

/// A key that can be written into call metadata: lower-case letters only.
pub open spec fn is_metadata_key(key: Seq<char>) -> bool {
    &&& 0 < key.len() < 64
    &&& forall|i: int| 0 <= i < key.len() ==> 'a' <= #[trigger] key[i] <= 'z'
}

/// A character that call metadata can carry: any but the control
/// characters of ASCII, of which only the tab is taken.
pub open spec fn is_metadata_char(c: char) -> bool {
    (' ' <= c && c != '\x7f') || c == '\t'
}

/// A value that can be written into call metadata.
pub open spec fn is_metadata_value(value: Seq<char>) -> bool {
    forall|i: int| 0 <= i < value.len() ==> is_metadata_char(#[trigger] value[i])
}

/// Calls `MetadataMap::insert` with the value converted by `TryFrom<&str>`.
/// The key is lower-case letters and the value holds no control character
/// but the tab, so neither conversion fails; and the map holds fewer entries
/// than it takes for its table to refuse to grow, so the insertion does not
/// fail either. As tonic documents, the value replaces whatever the key
/// held, no other key changes, and the map grows by one entry at most.
#[verifier::external_body]
fn metadata_insert(map: &mut MetadataMap, key: &'static str, value: &str)
    requires
        is_metadata_key(key@),
        is_metadata_value(value@),
        metadata_len(*old(map)) < METADATA_ROOM,
    ensures
        metadata_entries(*final(map)) == metadata_entries(*old(map)).insert(key@, value@),
        metadata_len(*final(map)) <= metadata_len(*old(map)) + 1,
{
    map.insert(key, value.try_into().unwrap());
}

/// Calls `MetadataMap::len`: the number of entries of the map.
#[verifier::external_body]
fn metadata_count(map: &MetadataMap) -> (count: usize)
    ensures
        count == metadata_len(*map),
{
    map.len()
}

/// Whether a text can be written into call metadata as a value.
pub fn is_metadata_text(text: &str) -> (ok: bool)
    ensures
        ok == is_metadata_value(text@),
{
    let n = text.unicode_len();
    let mut i: usize = 0;
    while i < n
        invariant
            n == text@.len(),
            i <= n,
            forall|j: int| 0 <= j < i ==> is_metadata_char(#[trigger] text@[j]),
        decreases n - i,
    {
        let c = text.get_char(i);
        if !((' ' <= c && c != '\x7f') || c == '\t') {
            return false;
        }
        i += 1;
    }
    true
}

/// What a user presents to the server: a name, a password, and whether the
/// connection is encrypted, with an optional root CA certificate.
#[derive(Debug)]
pub struct Credential {
    username: String,
    password: String,
    is_tls_enabled: bool,
    tls_root_ca: Option<String>,
}

/// The mathematical value of a [`Credential`].
pub struct CredentialView {
    pub username: Seq<char>,
    pub password: Seq<char>,
    pub is_tls_enabled: bool,
    pub tls_root_ca: Option<Seq<char>>,
}

impl View for Credential {
    type V = CredentialView;

    closed spec fn view(&self) -> CredentialView {
        CredentialView {
            username: self.username@,
            password: self.password@,
            is_tls_enabled: self.is_tls_enabled,
            tls_root_ca: match self.tls_root_ca {
                Some(path) => Some(path@),
                None => None,
            },
        }
    }
}

impl Clone for Credential {
    fn clone(&self) -> (res: Self)
        ensures
            res@ == self@,
    {
        Credential {
            username: self.username.clone(),
            password: self.password.clone(),
            is_tls_enabled: self.is_tls_enabled,
            tls_root_ca: match &self.tls_root_ca {
                Some(path) => Some(path.clone()),
                None => None,
            },
        }
    }
}

impl Credential {
    /// A credential for an encrypted connection. The root CA is the path of a
    /// certificate file, or `None` for the system's roots.
    pub fn new_with_tls(username: &str, password: &str, tls_root_ca: Option<&str>) -> (res: Self)
        ensures
            res@ == (CredentialView {
                username: username@,
                password: password@,
                is_tls_enabled: true,
                tls_root_ca: match tls_root_ca {
                    Some(path) => Some(path@),
                    None => None,
                },
            }),
    {
        Credential {
            username: username.to_owned(),
            password: password.to_owned(),
            is_tls_enabled: true,
            tls_root_ca: match tls_root_ca {
                Some(path) => Some(path.to_owned()),
                None => None,
            },
        }
    }

    /// A credential for a plaintext connection.
    pub fn new_without_tls(username: &str, password: &str) -> (res: Self)
        ensures
            res@ == (CredentialView {
                username: username@,
                password: password@,
                is_tls_enabled: false,
                tls_root_ca: None,
            }),
    {
        Credential {
            username: username.to_owned(),
            password: password.to_owned(),
            is_tls_enabled: false,
            tls_root_ca: None,
        }
    }

    /// The user's name.
    pub fn username(&self) -> (name: &str)
        ensures
            name@ == self@.username,
    {
        self.username.as_str()
    }

    /// The user's password.
    pub fn password(&self) -> (password: &str)
        ensures
            password@ == self@.password,
    {
        self.password.as_str()
    }

    /// Whether the connection is to be encrypted.
    pub fn is_tls_enabled(&self) -> (enabled: bool)
        ensures
            enabled == self@.is_tls_enabled,
    {
        self.is_tls_enabled
    }

    /// The path of the root CA certificate, if one was given.
    pub fn tls_root_ca(&self) -> (path: Option<&str>)
        ensures
            match path {
                Some(p) => self@.tls_root_ca == Some(p@),
                None => self@.tls_root_ca is None,
            },
    {
        match &self.tls_root_ca {
            Some(path) => Some(path.as_str()),
            None => None,
        }
    }
}

/// A credential in use on a channel, with the token that the server issued
/// for it, once there is one.
#[derive(Debug)]
pub struct CallCredentials {
    credential: Credential,
    token: Option<String>,
}

/// The mathematical value of [`CallCredentials`].
pub struct CallCredentialsView {
    pub credential: CredentialView,
    pub token: Option<Seq<char>>,
}

impl CallCredentialsView {
    /// The secret that the next call presents: the token if one is cached,
    /// the password otherwise.
    pub open spec fn secret(self) -> Seq<char> {
        match self.token {
            Some(token) => token,
            None => self.credential.password,
        }
    }

    /// Whether every text that a call presents can be written as metadata.
    pub open spec fn is_presentable(self) -> bool {
        is_metadata_value(self.credential.username) && is_metadata_value(self.secret())
    }

    /// The metadata of a call: what `base` held, then `username`, then either
    /// `token` or `password`.
    pub open spec fn decorate(self, base: Map<Seq<char>, Seq<char>>) -> Map<
        Seq<char>,
        Seq<char>,
    > {
        let named = base.insert("username"@, self.credential.username);
        match self.token {
            Some(token) => named.insert("token"@, token),
            None => named.insert("password"@, self.credential.password),
        }
    }

    /// The credentials after a reply: an authentication error clears the
    /// token, and any other reply that carries a fresh token sets it.
    pub open spec fn after_reply(self, code: i32, fresh: Option<Seq<char>>) -> CallCredentialsView {
        if code == STATUS_UNAUTHENTICATED {
            CallCredentialsView { credential: self.credential, token: None }
        } else {
            match fresh {
                Some(token) => self.with_token(token),
                None => self,
            }
        }
    }

    /// The credentials after the server issued `token`.
    pub open spec fn with_token(self, token: Seq<char>) -> CallCredentialsView {
        CallCredentialsView { credential: self.credential, token: Some(token) }
    }
}

impl View for CallCredentials {
    type V = CallCredentialsView;

    closed spec fn view(&self) -> CallCredentialsView {
        CallCredentialsView {
            credential: self.credential@,
            token: match self.token {
                Some(token) => Some(token@),
                None => None,
            },
        }
    }
}

impl CallCredentials {
    /// Call credentials without a token.
    pub fn new(credential: Credential) -> (res: Self)
        ensures
            res@ == (CallCredentialsView { credential: credential@, token: None }),
    {
        CallCredentials { credential, token: None }
    }

    /// The user's name.
    pub fn username(&self) -> (name: &str)
        ensures
            name@ == self@.credential.username,
    {
        self.credential.username()
    }

    /// The user's password.
    pub fn password(&self) -> (password: &str)
        ensures
            password@ == self@.credential.password,
    {
        self.credential.password()
    }

    /// The cached token, if the server has issued one.
    pub fn token(&self) -> (token: Option<&str>)
        ensures
            match token {
                Some(t) => self@.token == Some(t@),
                None => self@.token is None,
            },
    {
        match &self.token {
            Some(token) => Some(token.as_str()),
            None => None,
        }
    }

    /// Caches the token that the server issued. Later calls present it in
    /// place of the password.
    pub fn set_token(&mut self, token: String)
        ensures
            final(self)@ == old(self)@.with_token(token@),
    {
        self.token = Some(token);
    }

    /// Forgets the token, as after an authentication error. Later calls
    /// present the password again.
    pub fn reset_token(&mut self)
        ensures
            final(self)@ == (CallCredentialsView { credential: old(self)@.credential, token: None }),
    {
        self.token = None;
    }

    /// Takes what a reply says of the credentials: its status code, and the
    /// token that it carries, if it carries one. An authentication error
    /// clears the cached token; any other reply that carries a token caches
    /// it.
    pub fn on_reply(&mut self, code: i32, fresh_token: Option<String>)
        ensures
            final(self)@ == old(self)@.after_reply(
                code,
                match fresh_token {
                    Some(token) => Some(token@),
                    None => None,
                },
            ),
    {
        if code == STATUS_UNAUTHENTICATED {
            self.token = None;
        } else {
            match fresh_token {
                Some(token) => {
                    self.token = Some(token);
                },
                None => {},
            }
        }
    }

    /// Whether every text that a call presents can be written as metadata.
    pub fn is_presentable(&self) -> (ok: bool)
        ensures
            ok == self@.is_presentable(),
    {
        if !is_metadata_text(self.credential.username()) {
            return false;
        }
        match &self.token {
            Some(token) => is_metadata_text(token.as_str()),
            None => is_metadata_text(self.credential.password()),
        }
    }

    /// Decorates the metadata of an outbound call: `username`, then `token`
    /// if one is cached, `password` otherwise.
    pub fn inject(&self, metadata: &mut MetadataMap)
        requires
            self@.is_presentable(),
            metadata_len(*old(metadata)) + 2 <= METADATA_ROOM,
        ensures
            metadata_entries(*final(metadata)) == self@.decorate(metadata_entries(*old(metadata))),
            metadata_len(*final(metadata)) <= metadata_len(*old(metadata)) + 2,
    {
        proof {
            reveal_strlit("username");
            reveal_strlit("token");
            reveal_strlit("password");
        }
        metadata_insert(metadata, "username", self.credential.username());
        match &self.token {
            Some(token) => metadata_insert(metadata, "token", token.as_str()),
            None => metadata_insert(metadata, "password", self.credential.password()),
        }
    }

    /// Decorates the metadata of an outbound call where the credentials can
    /// be written as metadata and the metadata has room for them, and
    /// reports whether it did. Otherwise the metadata is left as it was.
    pub fn try_inject(&self, metadata: &mut MetadataMap) -> (done: bool)
        ensures
            done == (self@.is_presentable() && metadata_len(*old(metadata)) + 2 <= METADATA_ROOM),
            done ==> metadata_entries(*final(metadata)) == self@.decorate(
                metadata_entries(*old(metadata)),
            ),
            !done ==> *final(metadata) == *old(metadata),
    {
        if self.is_presentable() && metadata_count(metadata) <= METADATA_ROOM - 2 {
            self.inject(metadata);
            true
        } else {
            false
        }
    }
}

/// Once a token is cached, a call carries `username` and `token`, and it
/// carries no `password` unless the metadata held one before.
pub proof fn lemma_token_replaces_password(
    credentials: CallCredentialsView,
    token: Seq<char>,
    base: Map<Seq<char>, Seq<char>>,
)
    requires
        !base.dom().contains("password"@),
    ensures
        ({
            let sent = credentials.with_token(token).decorate(base);
            &&& sent.dom().contains("username"@)
            &&& sent["username"@] == credentials.credential.username
            &&& sent.dom().contains("token"@)
            &&& sent["token"@] == token
            &&& !sent.dom().contains("password"@)
        }),
{
    reveal_strlit("username");
    reveal_strlit("token");
    reveal_strlit("password");
    assert("username"@.len() != "token"@.len());
    assert("username"@[0] != "password"@[0]);
    assert("token"@[0] != "password"@[0]);
}

/// Credential token refresh. After a reply that carries a token and is no
/// authentication error, a call carries `username` and that token, and it
/// carries no `password` unless the metadata held one before.
pub proof fn lemma_reply_with_token_replaces_password(
    credentials: CallCredentialsView,
    code: i32,
    token: Seq<char>,
    base: Map<Seq<char>, Seq<char>>,
)
    requires
        code != STATUS_UNAUTHENTICATED,
        !base.dom().contains("password"@),
    ensures
        ({
            let sent = credentials.after_reply(code, Some(token)).decorate(base);
            &&& sent.dom().contains("username"@)
            &&& sent["username"@] == credentials.credential.username
            &&& sent.dom().contains("token"@)
            &&& sent["token"@] == token
            &&& !sent.dom().contains("password"@)
        }),
{
    lemma_token_replaces_password(credentials, token, base);
}

/// Without a token a call carries `username` and `password`, and it carries
/// no `token` unless the metadata held one before.
pub proof fn lemma_password_without_token(
    credential: CredentialView,
    base: Map<Seq<char>, Seq<char>>,
)
    requires
        !base.dom().contains("token"@),
    ensures
        ({
            let sent = (CallCredentialsView { credential, token: None }).decorate(base);
            &&& sent.dom().contains("username"@)
            &&& sent["username"@] == credential.username
            &&& sent.dom().contains("password"@)
            &&& sent["password"@] == credential.password
            &&& !sent.dom().contains("token"@)
        }),
{
    reveal_strlit("username");
    reveal_strlit("token");
    reveal_strlit("password");
    assert("username"@.len() != "token"@.len());
    assert("username"@[0] != "password"@[0]);
    assert("token"@[0] != "password"@[0]);
}

/// Whether a token is to be fetched and the call made once more: after a
/// call that was refused for want of authentication, on a channel that has
/// credentials, where no token is cached.
pub fn should_renew(rejected: bool, has_credentials: bool, has_token: bool) -> (renew: bool)
    ensures
        renew == (rejected && has_credentials && !has_token),
{
    rejected && has_credentials && !has_token
}

} // verus!
