//! Access tokens in the key-value store: the key is the token, the value
//! the identifier of the user it was given to.

use vstd::prelude::*;

use crate::error::AppError;
use crate::id::{uuid_text, UserId};
use crate::kv_store::{RedisKey, RedisValue};
use crate::model::{AccessToken, CreateToken};

verus! {

/// A user with the hash of their password.
#[derive(Clone, Debug, PartialEq, Eq)]
pub struct UserItem {
    pub user_id: UserId,
    pub password_hash: String,
}

/// The store key of an access token: the token's text.
#[derive(Clone, Debug, PartialEq, Eq)]
pub struct AuthorizationKey(pub String);

/// The store value of an access token: the user it belongs to.
#[derive(Clone, Copy, Debug, PartialEq, Eq)]
pub struct AuhtorizedUserId(pub UserId);

/// The key and value under which a new token is stored.
pub fn from(event: CreateToken) -> (entry: (AuthorizationKey, AuhtorizedUserId))
    ensures
        entry.0.0 == event.access_token,
        entry.1.0 == event.user_id,
{
    (AuthorizationKey(event.access_token), AuhtorizedUserId(event.user_id))
}

impl From<AuthorizationKey> for AccessToken {
    fn from(value: AuthorizationKey) -> (token: AccessToken) {
        AccessToken(value.0)
    }
}

impl vstd::std_specs::convert::FromSpecImpl<AuthorizationKey> for AccessToken {
    open spec fn obeys_from_spec() -> bool {
        true
    }

    open spec fn from_spec(value: AuthorizationKey) -> AccessToken {
        AccessToken(value.0)
    }
}

impl From<AccessToken> for AuthorizationKey {
    fn from(value: AccessToken) -> (key: AuthorizationKey) {
        AuthorizationKey(value.0)
    }
}

impl vstd::std_specs::convert::FromSpecImpl<AccessToken> for AuthorizationKey {
    open spec fn obeys_from_spec() -> bool {
        true
    }

    open spec fn from_spec(value: AccessToken) -> AuthorizationKey {
        AuthorizationKey(value.0)
    }
}

impl<'a> From<&'a AccessToken> for AuthorizationKey {
    fn from(value: &'a AccessToken) -> (key: AuthorizationKey) {
        AuthorizationKey(value.0.clone())
    }
}

impl<'a> vstd::std_specs::convert::FromSpecImpl<&'a AccessToken> for AuthorizationKey {
    open spec fn obeys_from_spec() -> bool {
        true
    }

    open spec fn from_spec(value: &'a AccessToken) -> AuthorizationKey {
        AuthorizationKey(value.0)
    }
}

impl RedisKey for AuthorizationKey {
    type Value = AuhtorizedUserId;

    open spec fn key_text(&self) -> Seq<char> {
        self.0@
    }

    fn inner(&self) -> (text: String) {
        self.0.clone()
    }
}

impl RedisValue for AuhtorizedUserId {
    open spec fn value_text(&self) -> Seq<char> {
        uuid_text(self.0.0)
    }

    fn inner(&self) -> (text: String) {
        self.0.to_text()
    }
}

impl TryFrom<String> for AuhtorizedUserId {
    type Error = AppError;

    /// Reads a stored value back: the text must be a UUID, and a refused
    /// text gives a conversion error whose message is the parse error's
    /// text. Any value's own text reads back as that value.
    fn try_from(s: String) -> (res: Result<AuhtorizedUserId, AppError>)
        ensures
            match res {
                Ok(v) => crate::id::uuid_parse(s@) == Ok::<u128, uuid::Error>(v.0.0)
                    && (forall|w: AuhtorizedUserId| s@ == w.value_text() ==> w == v),
                Err(e) => crate::id::uuid_parse(s@) is Err
                    && (forall|w: AuhtorizedUserId| s@ != w.value_text())
                    && (e matches AppError::ConversionEntityError(m)
                    && vstd::string::to_string_from_display_ensures::<uuid::Error>(
                    &crate::id::uuid_parse(s@)->Err_0,
                    m,
                )),
            },
    {
        match UserId::from_text(s.as_str()) {
            Ok(id) => Ok(AuhtorizedUserId(id)),
            Err(e) => Err(AppError::ConversionEntityError(e.to_string())),
        }
    }
}

impl vstd::std_specs::convert::TryFromSpecImpl<String> for AuhtorizedUserId {
    open spec fn obeys_try_from_spec() -> bool {
        false
    }

    open spec fn try_from_spec(s: String) -> Result<AuhtorizedUserId, AppError> {
        arbitrary()
    }
}

impl AuhtorizedUserId {
    /// The user the token belongs to.
    pub fn into_inner(self) -> (id: UserId)
        ensures
            id == self.0,
    {
        self.0
    }
}

/// An access token turned into its store key and back is the same token,
/// and a key turned into a token and back is the same key; the key's store
/// text is the token's text.
pub proof fn lemma_token_key_round_trip(token: AccessToken, key: AuthorizationKey)
    ensures
        <AccessToken as vstd::std_specs::convert::FromSpec<AuthorizationKey>>::from_spec(
            <AuthorizationKey as vstd::std_specs::convert::FromSpec<AccessToken>>::from_spec(token),
        ) == token,
        <AuthorizationKey as vstd::std_specs::convert::FromSpec<AccessToken>>::from_spec(
            <AccessToken as vstd::std_specs::convert::FromSpec<AuthorizationKey>>::from_spec(key),
        ) == key,
        <AuthorizationKey as vstd::std_specs::convert::FromSpec<AccessToken>>::from_spec(
            token,
        ).key_text() == token.0@,
{
}

} // verus!
