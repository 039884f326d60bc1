//! The minimal identity model the interceptor operates on.
//!
//! A [`User`] is produced per request by the identity-resolution
//! collaborator and is treated by the interceptor as an opaque proof of identity:
//! the interceptor only inspects its presence or absence, never its fields.

use vstd::prelude::*;

verus! {

/// The OAuth providers a user can have authenticated with.
#[derive(Clone, Copy, Debug, PartialEq, Eq, Structural)]
pub enum Provider {
    Discord,
    Google,
}

/// How a user authenticated: a password credential, or an OAuth provider
/// together with its token. Exactly one variant is populated; no method is
/// ever empty.
#[derive(Debug, PartialEq)]
pub enum Method {
    Password(String),
    OAuth(Provider, String),
}

/// Mathematical model of an authentication method.
pub enum MethodModel {
    Password(Seq<char>),
    OAuth(Provider, Seq<char>),
}

impl View for Method {
    type V = MethodModel;

    open spec fn view(&self) -> MethodModel {
        match self {
            Method::Password(secret) => MethodModel::Password(secret@),
            Method::OAuth(provider, token) => MethodModel::OAuth(*provider, token@),
        }
    }
}

impl Clone for Method {
    fn clone(&self) -> (cloned: Self)
        ensures
            cloned == *self,
    {
        match self {
            Method::Password(secret) => Method::Password(secret.clone()),
            Method::OAuth(provider, token) => Method::OAuth(*provider, token.clone()),
        }
    }
}

/// An email address together with whether it has been verified.
#[derive(Debug, PartialEq)]
pub struct Email {
    address: String,
    verified: bool,
}

/// Mathematical model of an email record.
pub struct EmailModel {
    pub address: Seq<char>,
    pub verified: bool,
}

impl View for Email {
    type V = EmailModel;

    closed spec fn view(&self) -> EmailModel {
        EmailModel { address: self.address@, verified: self.verified }
    }
}

impl Email {
    /// An email record with the given address and verification state.
    pub fn new(address: String, verified: bool) -> (email: Email)
        ensures
            email@ == (EmailModel { address: address@, verified }),
    {
        Email { address, verified }
    }

    /// The address the record holds.
    pub fn address(&self) -> (address: &String)
        ensures
            address@ == self@.address,
    {
        &self.address
    }

    /// Whether the address has been verified.
    pub fn verified(&self) -> (verified: bool)
        ensures
            verified == self@.verified,
    {
        self.verified
    }
}

impl Clone for Email {
    fn clone(&self) -> (cloned: Self)
        ensures
            cloned == *self,
    {
        Email { address: self.address.clone(), verified: self.verified }
    }
}

/// An identity record: id, username, authentication method and an optional
/// verified email. Ephemeral: it exists only for the duration of one
/// request's evaluation.
#[derive(Debug, PartialEq)]
pub struct User {
    /// The user's unique id, as the 128-bit value of its UUID.
    pub id: u128,
    pub username: String,
    pub method: Method,
    pub email: Option<Email>,
}

/// Mathematical model of an identity record.
pub struct UserModel {
    pub id: u128,
    pub username: Seq<char>,
    pub method: MethodModel,
    pub email: Option<EmailModel>,
}

impl View for User {
    type V = UserModel;

    open spec fn view(&self) -> UserModel {
        UserModel {
            id: self.id,
            username: self.username@,
            method: self.method@,
            email: match &self.email {
                Some(email) => Some(email@),
                None => None,
            },
        }
    }
}

impl Clone for User {
    fn clone(&self) -> (cloned: Self)
        ensures
            cloned == *self,
    {
        User {
            id: self.id,
            username: self.username.clone(),
            method: self.method.clone(),
            email: match &self.email {
                Some(email) => Some(email.clone()),
                None => None,
            },
        }
    }
}

} // verus!
