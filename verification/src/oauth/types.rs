//! The records that the authorization flow keeps, each with a view over the
//! characters of its strings.

use crate::text::{clone_list, clone_opt};
use vstd::prelude::*;

verus! {

/// The view of an optional value.
pub open spec fn opt_view<T: View>(o: Option<T>) -> Option<T::V> {
    match o {
        Some(t) => Some(t@),
        None => None,
    }
}

/// A point in time: whole seconds since the Unix epoch, and the nanoseconds
/// within that second.
#[derive(Clone, Copy, Debug, PartialEq, Eq, Structural)]
pub struct Timestamp {
    pub seconds: i64,
    pub nanos: u32,
}

/// A registered client. It is never changed after registration.
#[derive(Debug)]
pub struct ClientDescriptor {
    pub client_id: String,
    pub client_secret: Option<String>,
    pub redirect_uri: String,
    pub scopes: Vec<String>,
}

/// What a `ClientDescriptor` holds.
pub struct ClientDescriptorView {
    pub client_id: Seq<char>,
    pub client_secret: Option<Seq<char>>,
    pub redirect_uri: Seq<char>,
    pub scopes: Seq<Seq<char>>,
}

impl View for ClientDescriptor {
    type V = ClientDescriptorView;

    open spec fn view(&self) -> ClientDescriptorView {
        ClientDescriptorView {
            client_id: self.client_id@,
            client_secret: self.client_secret.deep_view(),
            redirect_uri: self.redirect_uri@,
            scopes: self.scopes.deep_view(),
        }
    }
}

impl Clone for ClientDescriptor {
    fn clone(&self) -> (r: Self)
        ensures
            r@ == self@,
    {
        ClientDescriptor {
            client_id: self.client_id.clone(),
            client_secret: clone_opt(&self.client_secret),
            redirect_uri: self.redirect_uri.clone(),
            scopes: clone_list(&self.scopes),
        }
    }
}

/// The credential obtained upstream when the user approves a request.
#[derive(Debug)]
pub struct ThirdPartyToken {
    pub access_token: String,
    pub token_type: String,
    pub expires_in: u64,
    pub refresh_token: String,
    pub scope: Option<String>,
}

/// What a `ThirdPartyToken` holds.
pub struct ThirdPartyTokenView {
    pub access_token: Seq<char>,
    pub token_type: Seq<char>,
    pub expires_in: u64,
    pub refresh_token: Seq<char>,
    pub scope: Option<Seq<char>>,
}

impl View for ThirdPartyToken {
    type V = ThirdPartyTokenView;

    open spec fn view(&self) -> ThirdPartyTokenView {
        ThirdPartyTokenView {
            access_token: self.access_token@,
            token_type: self.token_type@,
            expires_in: self.expires_in,
            refresh_token: self.refresh_token@,
            scope: self.scope.deep_view(),
        }
    }
}

impl Clone for ThirdPartyToken {
    fn clone(&self) -> (r: Self)
        ensures
            r@ == self@,
    {
        ThirdPartyToken {
            access_token: self.access_token.clone(),
            token_type: self.token_type.clone(),
            expires_in: self.expires_in,
            refresh_token: self.refresh_token.clone(),
            scope: clone_opt(&self.scope),
        }
    }
}

/// An authorization request that the user approved.
#[derive(Debug)]
pub struct AuthSession {
    pub session_id: String,
    pub client_id: String,
    pub scope: Option<String>,
    pub state: Option<String>,
    pub created_at: Timestamp,
    pub third_party_token: Option<ThirdPartyToken>,
}

/// What an `AuthSession` holds.
pub struct AuthSessionView {
    pub session_id: Seq<char>,
    pub client_id: Seq<char>,
    pub scope: Option<Seq<char>>,
    pub state: Option<Seq<char>>,
    pub created_at: Timestamp,
    pub third_party_token: Option<ThirdPartyTokenView>,
}


impl View for AuthSession {
    type V = AuthSessionView;

    open spec fn view(&self) -> AuthSessionView {
        AuthSessionView {
            session_id: self.session_id@,
            client_id: self.client_id@,
            scope: self.scope.deep_view(),
            state: self.state.deep_view(),
            created_at: self.created_at,
            third_party_token: opt_view(self.third_party_token),
        }
    }
}

impl Clone for AuthSession {
    fn clone(&self) -> (r: Self)
        ensures
            r@ == self@,
    {
        let third_party_token = match &self.third_party_token {
            Some(t) => Some(t.clone()),
            None => None,
        };
        AuthSession {
            session_id: self.session_id.clone(),
            client_id: self.client_id.clone(),
            scope: clone_opt(&self.scope),
            state: clone_opt(&self.state),
            created_at: self.created_at,
            third_party_token,
        }
    }
}

/// An access token that this server issued for a consumed authorization code.
#[derive(Debug)]
pub struct IssuedAccessToken {
    pub access_token: String,
    pub token_type: String,
    pub expires_in: u64,
    pub refresh_token: String,
    pub scope: Option<String>,
    pub third_party_token: ThirdPartyToken,
    pub client_id: String,
}

/// What an `IssuedAccessToken` holds.
pub struct IssuedAccessTokenView {
    pub access_token: Seq<char>,
    pub token_type: Seq<char>,
    pub expires_in: u64,
    pub refresh_token: Seq<char>,
    pub scope: Option<Seq<char>>,
    pub third_party_token: ThirdPartyTokenView,
    pub client_id: Seq<char>,
}

impl View for IssuedAccessToken {
    type V = IssuedAccessTokenView;

    open spec fn view(&self) -> IssuedAccessTokenView {
        IssuedAccessTokenView {
            access_token: self.access_token@,
            token_type: self.token_type@,
            expires_in: self.expires_in,
            refresh_token: self.refresh_token@,
            scope: self.scope.deep_view(),
            third_party_token: self.third_party_token@,
            client_id: self.client_id@,
        }
    }
}

impl Clone for IssuedAccessToken {
    fn clone(&self) -> (r: Self)
        ensures
            r@ == self@,
    {
        IssuedAccessToken {
            access_token: self.access_token.clone(),
            token_type: self.token_type.clone(),
            expires_in: self.expires_in,
            refresh_token: self.refresh_token.clone(),
            scope: clone_opt(&self.scope),
            third_party_token: self.third_party_token.clone(),
            client_id: self.client_id.clone(),
        }
    }
}

} // verus!
