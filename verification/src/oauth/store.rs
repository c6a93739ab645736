//! The three stores of the authorization server: registered clients, approved
//! sessions and issued access tokens.

use crate::oauth::fresh::{is_hyphenated_uuid, random_uuid, utc_now};
use crate::oauth::types::{
    opt_view, AuthSession, AuthSessionView, ClientDescriptor, ClientDescriptorView,
    IssuedAccessToken, IssuedAccessTokenView, ThirdPartyToken, ThirdPartyTokenView, Timestamp,
};
use crate::string_map::StringMap;
use crate::text::{clone_opt, concat_str, contains, contains_seq};
use vstd::prelude::*;

verus! {

/// Why a store operation failed.
#[derive(Clone, Copy, Debug, PartialEq, Eq, Structural)]
pub enum StoreError {
    /// No session is stored under the id.
    SessionNotFound,
    /// The session has no upstream token yet.
    NoThirdPartyToken,
}

impl StoreError {
    /// The sentence that describes the failure.
    pub open spec fn message_seq(self) -> Seq<char> {
        match self {
            StoreError::SessionNotFound => "Session not found"@,
            StoreError::NoThirdPartyToken => "No third-party token available for session"@,
        }
    }

    /// The sentence that describes the failure.
    pub fn message(&self) -> (r: &'static str)
        ensures
            r@ == self.message_seq(),
    {
        match self {
            StoreError::SessionNotFound => "Session not found",
            StoreError::NoThirdPartyToken => "No third-party token available for session",
        }
    }
}

/// The clients, sessions and access tokens that the server knows.
pub struct OauthStore {
    clients: StringMap<ClientDescriptor>,
    auth_sessions: StringMap<AuthSession>,
    access_tokens: StringMap<IssuedAccessToken>,
}

/// What an `OauthStore` holds: three maps, each keyed by the characters of an
/// identifier.
pub struct OauthStoreView {
    pub clients: Map<Seq<char>, ClientDescriptorView>,
    pub sessions: Map<Seq<char>, AuthSessionView>,
    pub tokens: Map<Seq<char>, IssuedAccessTokenView>,
}

/// The id of the client that is registered from the start.
pub open spec fn bootstrap_client_id() -> Seq<char> {
    "mcp-client"@
}

/// The client that is registered from the start.
pub open spec fn bootstrap_client() -> ClientDescriptorView {
    ClientDescriptorView {
        client_id: bootstrap_client_id(),
        client_secret: Some("mcp-client-secret"@),
        redirect_uri: "http://localhost:8080/callback"@,
        scopes: seq!["profile"@, "email"@],
    }
}

/// The store of a server that has just started.
pub open spec fn initial_store() -> OauthStoreView {
    OauthStoreView {
        clients: Map::<Seq<char>, ClientDescriptorView>::empty().insert(
            bootstrap_client_id(),
            bootstrap_client(),
        ),
        sessions: Map::empty(),
        tokens: Map::empty(),
    }
}

/// Every record is stored under its own identifier.
pub open spec fn keyed_by_id(s: OauthStoreView) -> bool {
    &&& forall|k: Seq<char>| #[trigger] s.clients.contains_key(k) ==> s.clients[k].client_id == k
    &&& forall|k: Seq<char>| #[trigger]
        s.sessions.contains_key(k) ==> s.sessions[k].session_id == k
    &&& forall|k: Seq<char>| #[trigger] s.tokens.contains_key(k) ==> s.tokens[k].access_token == k
}

/// The client registered under `client_id`, where there is one and the
/// redirect URI it was registered with contains `redirect_uri`.
pub open spec fn validate_client_spec(
    clients: Map<Seq<char>, ClientDescriptorView>,
    client_id: Seq<char>,
    redirect_uri: Seq<char>,
) -> Option<ClientDescriptorView> {
    if clients.contains_key(client_id) && contains_seq(
        clients[client_id].redirect_uri,
        redirect_uri,
    ) {
        Some(clients[client_id])
    } else {
        None
    }
}

/// A session as it is when it is created: without an upstream token.
pub open spec fn new_session(
    client_id: Seq<char>,
    scope: Option<Seq<char>>,
    state: Option<Seq<char>>,
    session_id: Seq<char>,
    created_at: Timestamp,
) -> AuthSessionView {
    AuthSessionView { session_id, client_id, scope, state, created_at, third_party_token: None }
}

/// The sessions after `token` was attached to the session `session_id`, or
/// the reason why it cannot be attached.
pub open spec fn attach_token_spec(
    sessions: Map<Seq<char>, AuthSessionView>,
    session_id: Seq<char>,
    token: ThirdPartyTokenView,
) -> Result<Map<Seq<char>, AuthSessionView>, StoreError> {
    if sessions.contains_key(session_id) {
        Ok(
            sessions.insert(
                session_id,
                AuthSessionView { third_party_token: Some(token), ..sessions[session_id] },
            ),
        )
    } else {
        Err(StoreError::SessionNotFound)
    }
}

/// The access token issued for the session `session_id` from the fresh
/// identifiers `access_id` and `refresh_id`, or the reason why none is issued.
pub open spec fn issue_spec(
    sessions: Map<Seq<char>, AuthSessionView>,
    session_id: Seq<char>,
    access_id: Seq<char>,
    refresh_id: Seq<char>,
) -> Result<IssuedAccessTokenView, StoreError> {
    if !sessions.contains_key(session_id) {
        Err(StoreError::SessionNotFound)
    } else {
        match sessions[session_id].third_party_token {
            None => Err(StoreError::NoThirdPartyToken),
            Some(upstream) => Ok(
                IssuedAccessTokenView {
                    access_token: "mcp-token-"@ + access_id,
                    token_type: "Bearer"@,
                    expires_in: 3600,
                    refresh_token: "mcp-refresh-"@ + refresh_id,
                    scope: sessions[session_id].scope,
                    third_party_token: upstream,
                    client_id: sessions[session_id].client_id,
                },
            ),
        }
    }
}

/// The store after an attempt to issue an access token: a token that was
/// issued is stored under its own characters, and nothing else changes.
pub open spec fn store_after_issue(
    s: OauthStoreView,
    issued: Result<IssuedAccessTokenView, StoreError>,
) -> OauthStoreView {
    match issued {
        Ok(t) => OauthStoreView { tokens: s.tokens.insert(t.access_token, t), ..s },
        Err(_) => s,
    }
}

/// Mapping the values of a map commutes with inserting into it.
pub proof fn lemma_map_values_insert<K, V, W>(m: Map<K, V>, f: spec_fn(V) -> W, k: K, v: V)
    ensures
        m.insert(k, v).map_values(f) == m.map_values(f).insert(k, f(v)),
{
    assert(m.insert(k, v).map_values(f) =~= m.map_values(f).insert(k, f(v)));
}

impl View for OauthStore {
    type V = OauthStoreView;

    closed spec fn view(&self) -> OauthStoreView {
        OauthStoreView {
            clients: self.clients@.map_values(|c: ClientDescriptor| c@),
            sessions: self.auth_sessions@.map_values(|s: AuthSession| s@),
            tokens: self.access_tokens@.map_values(|t: IssuedAccessToken| t@),
        }
    }
}

impl OauthStore {
    /// The stores are sound and every record is stored under its own id.
    pub closed spec fn wf(&self) -> bool {
        &&& self.clients.wf()
        &&& self.auth_sessions.wf()
        &&& self.access_tokens.wf()
        &&& keyed_by_id(self@)
    }

    /// In a sound store every record is stored under its own identifier.
    pub proof fn lemma_keyed_by_id(&self)
        requires
            self.wf(),
        ensures
            keyed_by_id(self@),
    {
    }

    /// A store that holds the bootstrap client and nothing else.
    pub fn new() -> (s: Self)
        ensures
            s.wf(),
            s@ == initial_store(),
    {
        let mut clients: StringMap<ClientDescriptor> = StringMap::new();
        let mut scopes: Vec<String> = Vec::new();
        scopes.push(String::from_str("profile"));
        scopes.push(String::from_str("email"));
        let bootstrap = ClientDescriptor {
            client_id: String::from_str("mcp-client"),
            client_secret: Some(String::from_str("mcp-client-secret")),
            scopes,
            redirect_uri: String::from_str("http://localhost:8080/callback"),
        };
        proof {
            assert(bootstrap.scopes.deep_view() =~= seq!["profile"@, "email"@]);
            assert(bootstrap@ == bootstrap_client());
            lemma_map_values_insert(
                Map::<Seq<char>, ClientDescriptor>::empty(),
                |c: ClientDescriptor| c@,
                "mcp-client"@,
                bootstrap,
            );
        }
        clients.insert(String::from_str("mcp-client"), bootstrap);
        let s = OauthStore {
            clients,
            auth_sessions: StringMap::new(),
            access_tokens: StringMap::new(),
        };
        proof {
            assert(s@.clients =~= initial_store().clients);
            assert(s@.sessions =~= initial_store().sessions);
            assert(s@.tokens =~= initial_store().tokens);
        }
        s
    }

    /// The client registered under `client_id`, where there is one and the
    /// redirect URI it was registered with contains `redirect_uri`.
    pub fn validate_client(&self, client_id: &str, redirect_uri: &str) -> (r: Option<
        ClientDescriptor,
    >)
        requires
            self.wf(),
        ensures
            opt_view(r) == validate_client_spec(self@.clients, client_id@, redirect_uri@),
            r matches Some(client) ==> client@.client_id == client_id@,
    {
        match self.clients.get(client_id) {
            Some(client) => {
                if contains(client.redirect_uri.as_str(), redirect_uri) {
                    Some(client.clone())
                } else {
                    None
                }
            },
            None => None,
        }
    }

    /// Stores `client` under its own id, in place of any client that was
    /// stored there.
    pub fn register_client(&mut self, client: ClientDescriptor)
        requires
            old(self).wf(),
        ensures
            final(self).wf(),
            final(self)@ == (OauthStoreView {
                clients: old(self)@.clients.insert(client@.client_id, client@),
                ..old(self)@
            }),
    {
        proof {
            lemma_map_values_insert(
                self.clients@,
                |c: ClientDescriptor| c@,
                client.client_id@,
                client,
            );
        }
        let key = client.client_id.clone();
        self.clients.insert(key, client);
    }

    /// Stores a new session under `session_id`, created at `created_at`, in
    /// place of any session that was stored there. Returns `session_id`.
    pub fn create_auth_session_at(
        &mut self,
        client_id: String,
        scope: Option<String>,
        state: Option<String>,
        session_id: String,
        created_at: Timestamp,
    ) -> (r: String)
        requires
            old(self).wf(),
        ensures
            final(self).wf(),
            r@ == session_id@,
            final(self)@ == (OauthStoreView {
                sessions: old(self)@.sessions.insert(
                    session_id@,
                    new_session(
                        client_id@,
                        scope.deep_view(),
                        state.deep_view(),
                        session_id@,
                        created_at,
                    ),
                ),
                ..old(self)@
            }),
    {
        let session = AuthSession {
            session_id: session_id.clone(),
            client_id,
            scope,
            state,
            created_at,
            third_party_token: None,
        };
        proof {
            lemma_map_values_insert(
                self.auth_sessions@,
                |s: AuthSession| s@,
                session_id@,
                session,
            );
        }
        self.auth_sessions.insert(session_id.clone(), session);
        session_id
    }

    /// Stores a new session under `session_id`, created now, in place of any
    /// session that was stored there. Returns `session_id`.
    pub fn create_auth_session(
        &mut self,
        client_id: String,
        scope: Option<String>,
        state: Option<String>,
        session_id: String,
    ) -> (r: String)
        requires
            old(self).wf(),
        ensures
            final(self).wf(),
            r@ == session_id@,
            exists|created_at: Timestamp|
                final(self)@ == (OauthStoreView {
                    sessions: old(self)@.sessions.insert(
                        session_id@,
                        #[trigger] new_session(
                            client_id@,
                            scope.deep_view(),
                            state.deep_view(),
                            session_id@,
                            created_at,
                        ),
                    ),
                    ..old(self)@
                }),
    {
        let created_at = utc_now();
        self.create_auth_session_at(client_id, scope, state, session_id, created_at)
    }

    /// The session stored under `session_id`, if there is one.
    pub fn get_session(&self, session_id: &str) -> (r: Option<AuthSession>)
        requires
            self.wf(),
        ensures
            opt_view(r) == (if self@.sessions.contains_key(session_id@) {
                Some(self@.sessions[session_id@])
            } else {
                None
            }),
            r matches Some(session) ==> session@.session_id == session_id@,
    {
        match self.auth_sessions.get(session_id) {
            Some(session) => Some(session.clone()),
            None => None,
        }
    }

    /// Attaches `token` to the session `session_id`, in place of any token
    /// that it had.
    pub fn update_auth_session_token(&mut self, session_id: &str, token: ThirdPartyToken) -> (r:
        Result<(), StoreError>)
        requires
            old(self).wf(),
        ensures
            final(self).wf(),
            match attach_token_spec(old(self)@.sessions, session_id@, token@) {
                Ok(sessions) => r is Ok && final(self)@ == (OauthStoreView {
                    sessions,
                    ..old(self)@
                }),
                Err(e) => r == Err::<(), StoreError>(e) && final(self)@ == old(self)@,
            },
    {
        match self.auth_sessions.get(session_id) {
            Some(session) => {
                let updated = AuthSession {
                    session_id: session.session_id.clone(),
                    client_id: session.client_id.clone(),
                    scope: clone_opt(&session.scope),
                    state: clone_opt(&session.state),
                    created_at: session.created_at,
                    third_party_token: Some(token),
                };
                proof {
                    lemma_map_values_insert(
                        self.auth_sessions@,
                        |s: AuthSession| s@,
                        session_id@,
                        updated,
                    );
                }
                self.auth_sessions.insert(String::from_str(session_id), updated);
                Ok(())
            },
            None => Err(StoreError::SessionNotFound),
        }
    }

    /// Issues an access token for the session `session_id`, built from the
    /// fresh identifiers `access_id` and `refresh_id`, and stores it.
    pub fn create_mcp_token_with(
        &mut self,
        session_id: &str,
        access_id: &str,
        refresh_id: &str,
    ) -> (r: Result<IssuedAccessToken, StoreError>)
        requires
            old(self).wf(),
        ensures
            final(self).wf(),
            match issue_spec(old(self)@.sessions, session_id@, access_id@, refresh_id@) {
                Ok(t) => r is Ok && r->Ok_0@ == t,
                Err(e) => r == Err::<IssuedAccessToken, StoreError>(e),
            },
            final(self)@ == store_after_issue(
                old(self)@,
                issue_spec(old(self)@.sessions, session_id@, access_id@, refresh_id@),
            ),
    {
        match self.auth_sessions.get(session_id) {
            Some(session) => {
                match &session.third_party_token {
                    Some(upstream) => {
                        let access_token = concat_str("mcp-token-", access_id);
                        let token = IssuedAccessToken {
                            access_token: access_token.clone(),
                            token_type: String::from_str("Bearer"),
                            expires_in: 3600,
                            refresh_token: concat_str("mcp-refresh-", refresh_id),
                            scope: clone_opt(&session.scope),
                            third_party_token: upstream.clone(),
                            client_id: session.client_id.clone(),
                        };
                        let issued = token.clone();
                        proof {
                            lemma_map_values_insert(
                                self.access_tokens@,
                                |t: IssuedAccessToken| t@,
                                access_token@,
                                token,
                            );
                        }
                        self.access_tokens.insert(access_token, token);
                        Ok(issued)
                    },
                    None => Err(StoreError::NoThirdPartyToken),
                }
            },
            None => Err(StoreError::SessionNotFound),
        }
    }

    /// Issues an access token for the session `session_id`, with fresh random
    /// identifiers, and stores it.
    pub fn create_mcp_token(&mut self, session_id: &str) -> (r: Result<
        IssuedAccessToken,
        StoreError,
    >)
        requires
            old(self).wf(),
        ensures
            final(self).wf(),
            exists|access_id: Seq<char>, refresh_id: Seq<char>|
                {
                    let issued = #[trigger] issue_spec(
                        old(self)@.sessions,
                        session_id@,
                        access_id,
                        refresh_id,
                    );
                    &&& is_hyphenated_uuid(access_id)
                    &&& is_hyphenated_uuid(refresh_id)
                    &&& final(self)@ == store_after_issue(old(self)@, issued)
                    &&& match issued {
                        Ok(t) => r is Ok && r->Ok_0@ == t,
                        Err(e) => r == Err::<IssuedAccessToken, StoreError>(e),
                    }
                },
    {
        let access_id = random_uuid();
        let refresh_id = random_uuid();
        self.create_mcp_token_with(session_id, access_id.as_str(), refresh_id.as_str())
    }

    /// The access token stored under `token`, if there is one.
    pub fn validate_token(&self, token: &str) -> (r: Option<IssuedAccessToken>)
        requires
            self.wf(),
        ensures
            opt_view(r) == (if self@.tokens.contains_key(token@) {
                Some(self@.tokens[token@])
            } else {
                None
            }),
            r matches Some(issued) ==> issued@.access_token == token@,
    {
        match self.access_tokens.get(token) {
            Some(t) => Some(t.clone()),
            None => None,
        }
    }
}

} // verus!
