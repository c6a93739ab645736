//! The endpoints of the authorization-code flow as functions from the store
//! and a request to the store and a response.

use crate::constants::AppState;
use crate::oauth::fresh::{
    generate_random_string, is_alphanumeric_seq, is_hyphenated_uuid, random_uuid, utc_now,
};
use crate::oauth::store::{
    bootstrap_client_id, issue_spec, store_after_issue, validate_client_spec, OauthStore,
    OauthStoreView, StoreError,
};
use crate::oauth::types::{
    AuthSessionView, ClientDescriptor, ClientDescriptorView, IssuedAccessTokenView,
    ThirdPartyToken, ThirdPartyTokenView, Timestamp,
};
use crate::oauth::wire::{
    ApprovalForm, ApprovalFormView, AuthorizationMetadata, AuthorizationMetadataView,
    AuthorizeOutcome, AuthorizeOutcomeView, AuthorizeQuery, AuthorizeQueryView,
    ClientRegistrationRequest, ClientRegistrationRequestView, ClientRegistrationResponse,
    ClientRegistrationResponseView, ConsentPage, ConsentPageView, ErrorKind, ErrorResponse,
    ErrorResponseView, GateDecision, RegistrationOutcome, RegistrationOutcomeView,
    TokenBody, TokenBodyView, TokenGrant, TokenGrantView, TokenRequest, TokenRequestView,
    TokenResponse, TokenResponseView,
};
use crate::simple_oauth::{bearer_token, extract_token};
use crate::text::{concat_str, str_eq, strip_prefix};
use vstd::prelude::*;

verus! {

/// The prefix that turns a session id into an authorization code.
pub open spec fn code_prefix() -> Seq<char> {
    "mcp-code-"@
}

/// The authorization code of a session.
pub open spec fn authorization_code(session_id: Seq<char>) -> Seq<char> {
    code_prefix() + session_id
}

/// The failure that the token endpoint reports for every grant type but
/// `authorization_code`.
pub open spec fn unsupported_grant_type() -> ErrorResponseView {
    ErrorResponseView {
        status: 400,
        kind: ErrorKind::UnsupportedGrantType,
        description: "only authorization_code is supported"@,
    }
}

/// The failure that the token endpoint reports for a code without the
/// code prefix.
pub open spec fn invalid_grant() -> ErrorResponseView {
    ErrorResponseView {
        status: 400,
        kind: ErrorKind::InvalidGrant,
        description: "invalid authorization code"@,
    }
}

/// The failure that the token endpoint reports for an unknown client or a
/// redirect URI that does not match.
pub open spec fn invalid_client() -> ErrorResponseView {
    ErrorResponseView {
        status: 400,
        kind: ErrorKind::InvalidClient,
        description: "invalid client id or redirect uri"@,
    }
}

/// The failure that the token endpoint reports when no token can be issued
/// for the session.
pub open spec fn server_error(e: StoreError) -> ErrorResponseView {
    ErrorResponseView {
        status: 500,
        kind: ErrorKind::ServerError,
        description: "failed to create access token: "@ + e.message_seq(),
    }
}

/// The client id that a token request stands for: the bootstrap client where
/// the request names none.
pub open spec fn effective_client_id(client_id: Seq<char>) -> Seq<char> {
    if client_id.len() == 0 {
        bootstrap_client_id()
    } else {
        client_id
    }
}

/// The session id that an authorization code stands for: what follows the
/// code prefix.
pub open spec fn session_of_code(code: Seq<char>) -> Seq<char> {
    code.skip(code_prefix().len() as int)
}

/// The body that tells a client of an issued access token.
pub open spec fn grant_of(t: IssuedAccessTokenView) -> TokenGrantView {
    TokenGrantView {
        access_token: t.access_token,
        token_type: t.token_type,
        expires_in: t.expires_in,
        refresh_token: t.refresh_token,
        scope: t.scope,
    }
}

/// The response to a parsed token request, given the fresh identifiers that
/// a new access token would be built from.
pub open spec fn exchange_response(
    s: OauthStoreView,
    req: TokenRequestView,
    access_id: Seq<char>,
    refresh_id: Seq<char>,
) -> TokenResponseView {
    if req.grant_type != "authorization_code"@ {
        TokenResponseView::Failed(unsupported_grant_type())
    } else if !code_prefix().is_prefix_of(req.code) {
        TokenResponseView::Failed(invalid_grant())
    } else if validate_client_spec(
        s.clients,
        effective_client_id(req.client_id),
        req.redirect_uri,
    ) is None {
        TokenResponseView::Failed(invalid_client())
    } else {
        match issue_spec(s.sessions, session_of_code(req.code), access_id, refresh_id) {
            Ok(t) => TokenResponseView::Issued(grant_of(t)),
            Err(e) => TokenResponseView::Failed(server_error(e)),
        }
    }
}

/// The store after a parsed token request: it holds one more access token
/// where one was issued, and is unchanged otherwise.
pub open spec fn exchange_store(
    s: OauthStoreView,
    req: TokenRequestView,
    access_id: Seq<char>,
    refresh_id: Seq<char>,
) -> OauthStoreView {
    if exchange_response(s, req, access_id, refresh_id) is Issued {
        store_after_issue(
            s,
            issue_spec(s.sessions, session_of_code(req.code), access_id, refresh_id),
        )
    } else {
        s
    }
}

/// Answers a parsed token request. A new access token is built from the
/// fresh identifiers `access_id` and `refresh_id`.
pub fn exchange_with(
    store: &mut OauthStore,
    req: &TokenRequest,
    access_id: &str,
    refresh_id: &str,
) -> (r: TokenResponse)
    requires
        old(store).wf(),
    ensures
        final(store).wf(),
        r@ == exchange_response(old(store)@, req@, access_id@, refresh_id@),
        final(store)@ == exchange_store(old(store)@, req@, access_id@, refresh_id@),
{
    if !str_eq(req.grant_type.as_str(), "authorization_code") {
        return TokenResponse::Failed(
            ErrorResponse::new(
                400,
                ErrorKind::UnsupportedGrantType,
                "only authorization_code is supported",
            ),
        );
    }
    let session_id = match strip_prefix(req.code.as_str(), "mcp-code-") {
        Some(session_id) => session_id,
        None => {
            return TokenResponse::Failed(
                ErrorResponse::new(400, ErrorKind::InvalidGrant, "invalid authorization code"),
            );
        },
    };
    let client_id = if req.client_id.as_str().is_empty() {
        String::from_str("mcp-client")
    } else {
        req.client_id.clone()
    };
    match store.validate_client(client_id.as_str(), req.redirect_uri.as_str()) {
        Some(_) => {
            match store.create_mcp_token_with(session_id.as_str(), access_id, refresh_id) {
                Ok(token) => TokenResponse::Issued(
                    TokenGrant {
                        access_token: token.access_token,
                        token_type: token.token_type,
                        expires_in: token.expires_in,
                        refresh_token: token.refresh_token,
                        scope: token.scope,
                    },
                ),
                Err(e) => TokenResponse::Failed(
                    ErrorResponse {
                        status: 500,
                        kind: ErrorKind::ServerError,
                        description: concat_str("failed to create access token: ", e.message()),
                    },
                ),
            }
        },
        None => TokenResponse::Failed(
            ErrorResponse::new(400, ErrorKind::InvalidClient, "invalid client id or redirect uri"),
        ),
    }
}

/// The failure that the token endpoint reports for a body it could not read.
pub open spec fn unreadable_body() -> ErrorResponseView {
    ErrorResponseView {
        status: 400,
        kind: ErrorKind::InvalidRequest,
        description: "can't read request body"@,
    }
}

/// The failure that the token endpoint reports for a body that did not
/// parse, with the parser's message.
pub open spec fn malformed_body(message: Seq<char>) -> ErrorResponseView {
    ErrorResponseView {
        status: 422,
        kind: ErrorKind::InvalidRequest,
        description: "can't parse form data: "@ + message,
    }
}

/// The response of the token endpoint.
pub open spec fn token_response(
    s: OauthStoreView,
    body: TokenBodyView,
    access_id: Seq<char>,
    refresh_id: Seq<char>,
) -> TokenResponseView {
    match body {
        TokenBodyView::Unreadable => TokenResponseView::Failed(unreadable_body()),
        TokenBodyView::Malformed(m) => TokenResponseView::Failed(malformed_body(m)),
        TokenBodyView::Parsed(req) => exchange_response(s, req, access_id, refresh_id),
    }
}

/// The store after a request to the token endpoint.
pub open spec fn token_store(
    s: OauthStoreView,
    body: TokenBodyView,
    access_id: Seq<char>,
    refresh_id: Seq<char>,
) -> OauthStoreView {
    match body {
        TokenBodyView::Parsed(req) => exchange_store(s, req, access_id, refresh_id),
        _ => s,
    }
}

/// The token endpoint. The response and the new store are those that
/// `token_response` and `token_store` give for some pair of fresh UUIDs.
pub fn handle_post_oauth_token(store: &mut OauthStore, body: TokenBody) -> (r: TokenResponse)
    requires
        old(store).wf(),
    ensures
        final(store).wf(),
        exists|access_id: Seq<char>, refresh_id: Seq<char>|
            {
                &&& is_hyphenated_uuid(access_id)
                &&& is_hyphenated_uuid(refresh_id)
                &&& r@ == #[trigger] token_response(old(store)@, body@, access_id, refresh_id)
                &&& final(store)@ == token_store(old(store)@, body@, access_id, refresh_id)
            },
{
    let access_id = random_uuid();
    let refresh_id = random_uuid();
    let r = match &body {
        TokenBody::Unreadable => TokenResponse::Failed(
            ErrorResponse::new(400, ErrorKind::InvalidRequest, "can't read request body"),
        ),
        TokenBody::Malformed(message) => TokenResponse::Failed(
            ErrorResponse {
                status: 422,
                kind: ErrorKind::InvalidRequest,
                description: concat_str("can't parse form data: ", message.as_str()),
            },
        ),
        TokenBody::Parsed(req) => exchange_with(store, req, access_id.as_str(), refresh_id.as_str()),
    };
    proof {
        assert(r@ == token_response(old(store)@, body@, access_id@, refresh_id@));
    }
    r
}

/// What is appended to a redirect to hand `state` back: nothing where it is
/// empty.
pub open spec fn state_suffix(state: Seq<char>) -> Seq<char> {
    if state.len() == 0 {
        Seq::<char>::empty()
    } else {
        "&state="@ + state
    }
}

/// Where the user agent is sent after the user denied the request.
pub open spec fn denial_redirect(form: ApprovalFormView) -> Seq<char> {
    form.redirect_uri
        + "?error=access_denied&error_description=user rejected the authorization request"@
        + state_suffix(form.state)
}

/// Where the user agent is sent after the user approved the request.
pub open spec fn approval_redirect(form: ApprovalFormView, session_id: Seq<char>) -> Seq<char> {
    form.redirect_uri + "?code="@ + authorization_code(session_id) + state_suffix(form.state)
}

/// The upstream credential that stands behind an approved session.
pub open spec fn upstream_token(
    scope: Seq<char>,
    access_id: Seq<char>,
    refresh_id: Seq<char>,
) -> ThirdPartyTokenView {
    ThirdPartyTokenView {
        access_token: "tp-token-"@ + access_id,
        token_type: "Bearer"@,
        expires_in: 3600,
        refresh_token: "tp-refresh-"@ + refresh_id,
        scope: Some(scope),
    }
}

/// The session that an approval records.
pub open spec fn approved_session(
    form: ApprovalFormView,
    session_id: Seq<char>,
    access_id: Seq<char>,
    refresh_id: Seq<char>,
    now: Timestamp,
) -> AuthSessionView {
    AuthSessionView {
        session_id,
        client_id: form.client_id,
        scope: Some(form.scope),
        state: Some(form.state),
        created_at: now,
        third_party_token: Some(upstream_token(form.scope, access_id, refresh_id)),
    }
}

/// Whether the form says that the user approved.
pub open spec fn is_approved(form: ApprovalFormView) -> bool {
    form.approved == "true"@
}

/// Where the user agent is sent after the form was submitted.
pub open spec fn approve_redirect(form: ApprovalFormView, session_id: Seq<char>) -> Seq<char> {
    if is_approved(form) {
        approval_redirect(form, session_id)
    } else {
        denial_redirect(form)
    }
}

/// The store after the form was submitted: an approval records a session
/// with its upstream token under `session_id`; a denial records nothing.
pub open spec fn approve_store(
    s: OauthStoreView,
    form: ApprovalFormView,
    session_id: Seq<char>,
    access_id: Seq<char>,
    refresh_id: Seq<char>,
    now: Timestamp,
) -> OauthStoreView {
    if is_approved(form) {
        OauthStoreView {
            sessions: s.sessions.insert(
                session_id,
                approved_session(form, session_id, access_id, refresh_id, now),
            ),
            ..s
        }
    } else {
        s
    }
}

/// What is appended to a redirect to hand `state` back.
fn state_suffix_of(state: &str) -> (r: String)
    ensures
        r@ == state_suffix(state@),
{
    if state.is_empty() {
        String::new()
    } else {
        concat_str("&state=", state)
    }
}

/// Handles a submitted consent form. An approval is recorded under
/// `session_id`, at the time `now`, with an upstream token built from the
/// fresh identifiers `access_id` and `refresh_id`. Returns where the user
/// agent is sent.
pub fn approve_with(
    store: &mut OauthStore,
    form: ApprovalForm,
    session_id: String,
    access_id: &str,
    refresh_id: &str,
    now: Timestamp,
) -> (r: String)
    requires
        old(store).wf(),
    ensures
        final(store).wf(),
        r@ == approve_redirect(form@, session_id@),
        final(store)@ == approve_store(
            old(store)@,
            form@,
            session_id@,
            access_id@,
            refresh_id@,
            now,
        ),
{
    let suffix = state_suffix_of(form.state.as_str());
    if !str_eq(form.approved.as_str(), "true") {
        let mut url = concat_str(
            form.redirect_uri.as_str(),
            "?error=access_denied&error_description=user rejected the authorization request",
        );
        url.append(suffix.as_str());
        return url;
    }
    let mut auth_code = concat_str("mcp-code-", session_id.as_str());
    let session_id = store.create_auth_session_at(
        form.client_id.clone(),
        Some(form.scope.clone()),
        Some(form.state.clone()),
        session_id,
        now,
    );
    let created_token = ThirdPartyToken {
        access_token: concat_str("tp-token-", access_id),
        token_type: String::from_str("Bearer"),
        expires_in: 3600,
        refresh_token: concat_str("tp-refresh-", refresh_id),
        scope: Some(form.scope),
    };
    let ghost created = created_token@;
    let ghost mid = store@;
    let attached = store.update_auth_session_token(session_id.as_str(), created_token);
    proof {
        assert(mid.sessions.contains_key(session_id@));
        assert(attached is Ok);
        assert(store@.sessions =~= approve_store(
            old(store)@,
            form@,
            session_id@,
            access_id@,
            refresh_id@,
            now,
        ).sessions);
    }
    let mut url = concat_str(form.redirect_uri.as_str(), "?code=");
    url.append(auth_code.as_str());
    url.append(suffix.as_str());
    url
}

/// The approval endpoint. A denial leaves the store unchanged. An approval
/// is recorded under a fresh UUID, with an upstream token built from two
/// more, at the time the clock shows.
pub fn handle_post_oauth_approve(store: &mut OauthStore, form: ApprovalForm) -> (r: String)
    requires
        old(store).wf(),
    ensures
        final(store).wf(),
        exists|session_id: Seq<char>, access_id: Seq<char>, refresh_id: Seq<char>, now: Timestamp|
            {
                &&& is_hyphenated_uuid(session_id)
                &&& is_hyphenated_uuid(access_id)
                &&& is_hyphenated_uuid(refresh_id)
                &&& r@ == approve_redirect(form@, session_id)
                &&& final(store)@ == #[trigger] approve_store(
                    old(store)@,
                    form@,
                    session_id,
                    access_id,
                    refresh_id,
                    now,
                )
            },
{
    let session_id = random_uuid();
    let access_id = random_uuid();
    let refresh_id = random_uuid();
    let now = utc_now();
    let ghost sid = session_id@;
    let r = approve_with(store, form, session_id, access_id.as_str(), refresh_id.as_str(), now);
    proof {
        assert(store@ == approve_store(old(store)@, form@, sid, access_id@, refresh_id@, now));
    }
    r
}

/// The failure that the registration endpoint reports for a request
/// without a redirect URI.
pub open spec fn missing_redirect_uri() -> ErrorResponseView {
    ErrorResponseView {
        status: 400,
        kind: ErrorKind::InvalidRequest,
        description: "at least one redirect uri is required"@,
    }
}

/// The id of a client that was registered with the fresh identifier `id`.
pub open spec fn registered_client_id(id: Seq<char>) -> Seq<char> {
    "client-"@ + id
}

/// The descriptor that a registration stores: the first redirect URI of the
/// request, and no scopes.
pub open spec fn registered_client(
    req: ClientRegistrationRequestView,
    id: Seq<char>,
    secret: Seq<char>,
) -> ClientDescriptorView
    recommends
        req.redirect_uris.len() > 0,
{
    ClientDescriptorView {
        client_id: registered_client_id(id),
        client_secret: Some(secret),
        redirect_uri: req.redirect_uris[0],
        scopes: Seq::<Seq<char>>::empty(),
    }
}

/// What the registration endpoint answers.
pub open spec fn register_outcome(
    req: ClientRegistrationRequestView,
    id: Seq<char>,
    secret: Seq<char>,
) -> RegistrationOutcomeView {
    if req.redirect_uris.len() == 0 {
        RegistrationOutcomeView::Rejected(missing_redirect_uri())
    } else {
        RegistrationOutcomeView::Registered(
            ClientRegistrationResponseView {
                client_id: registered_client_id(id),
                client_secret: Some(secret),
                client_name: req.client_name,
                redirect_uris: req.redirect_uris,
            },
        )
    }
}

/// The store after a registration request: an accepted one adds its client.
pub open spec fn register_store(
    s: OauthStoreView,
    req: ClientRegistrationRequestView,
    id: Seq<char>,
    secret: Seq<char>,
) -> OauthStoreView {
    if req.redirect_uris.len() == 0 {
        s
    } else {
        OauthStoreView {
            clients: s.clients.insert(registered_client_id(id), registered_client(req, id, secret)),
            ..s
        }
    }
}

/// Handles a registration request. An accepted client gets an id built from
/// the fresh identifier `id`, and the secret `secret`.
pub fn register_with(
    store: &mut OauthStore,
    req: ClientRegistrationRequest,
    id: &str,
    secret: String,
) -> (r: RegistrationOutcome)
    requires
        old(store).wf(),
    ensures
        final(store).wf(),
        r@ == register_outcome(req@, id@, secret@),
        final(store)@ == register_store(old(store)@, req@, id@, secret@),
{
    if req.redirect_uris.len() == 0 {
        return RegistrationOutcome::Rejected(
            ErrorResponse::new(
                400,
                ErrorKind::InvalidRequest,
                "at least one redirect uri is required",
            ),
        );
    }
    let client_id = concat_str("client-", id);
    let client = ClientDescriptor {
        client_id: client_id.clone(),
        client_secret: Some(secret.clone()),
        redirect_uri: req.redirect_uris[0].clone(),
        scopes: Vec::new(),
    };
    proof {
        assert(client.scopes.deep_view() =~= Seq::<Seq<char>>::empty());
        assert(req.redirect_uris.deep_view()[0] == req.redirect_uris@[0]@);
    }
    store.register_client(client);
    RegistrationOutcome::Registered(
        ClientRegistrationResponse {
            client_id,
            client_secret: Some(secret),
            client_name: req.client_name,
            redirect_uris: req.redirect_uris,
        },
    )
}

/// The registration endpoint. An accepted client gets an id built from a
/// fresh UUID and a random secret of 32 letters and digits.
pub fn handle_post_oauth_register(store: &mut OauthStore, req: ClientRegistrationRequest) -> (r:
    RegistrationOutcome)
    requires
        old(store).wf(),
    ensures
        final(store).wf(),
        exists|id: Seq<char>, secret: Seq<char>|
            {
                &&& is_hyphenated_uuid(id)
                &&& secret.len() == 32
                &&& is_alphanumeric_seq(secret)
                &&& r@ == #[trigger] register_outcome(req@, id, secret)
                &&& final(store)@ == register_store(old(store)@, req@, id, secret)
            },
{
    let id = random_uuid();
    let secret = generate_random_string(32);
    let ghost chosen = secret@;
    let r = register_with(store, req, id.as_str(), secret);
    proof {
        assert(r@ == register_outcome(req@, id@, chosen));
    }
    r
}

/// The failure that the authorization endpoint reports for an unknown
/// client or a redirect URI that does not match.
pub open spec fn invalid_authorization_request() -> ErrorResponseView {
    ErrorResponseView {
        status: 400,
        kind: ErrorKind::InvalidRequest,
        description: "invalid client id or redirect uri"@,
    }
}

/// The consent page for a query: the query's parameters as they came, and
/// the scope to show.
pub open spec fn consent_page(q: AuthorizeQueryView) -> ConsentPageView {
    ConsentPageView {
        client_id: q.client_id,
        redirect_uri: q.redirect_uri,
        scope: match q.scope {
            Some(scope) => scope,
            None => Seq::<char>::empty(),
        },
        state: match q.state {
            Some(state) => state,
            None => Seq::<char>::empty(),
        },
        scopes: match q.scope {
            Some(scope) => scope,
            None => "Basic scope"@,
        },
    }
}

/// What the authorization endpoint answers.
pub open spec fn authorize_outcome(
    clients: Map<Seq<char>, ClientDescriptorView>,
    q: AuthorizeQueryView,
) -> AuthorizeOutcomeView {
    if validate_client_spec(clients, q.client_id, q.redirect_uri) is Some {
        AuthorizeOutcomeView::Consent(consent_page(q))
    } else {
        AuthorizeOutcomeView::Rejected(invalid_authorization_request())
    }
}

/// The authorization endpoint: a consent page for a registered client with
/// a matching redirect URI, a failure otherwise. The store is only read.
pub fn handle_get_oauth_authorize(store: &OauthStore, params: AuthorizeQuery) -> (r:
    AuthorizeOutcome)
    requires
        store.wf(),
    ensures
        r@ == authorize_outcome(store@.clients, params@),
{
    match store.validate_client(params.client_id.as_str(), params.redirect_uri.as_str()) {
        Some(_) => {
            let scope = match &params.scope {
                Some(scope) => scope.clone(),
                None => String::new(),
            };
            let state = match &params.state {
                Some(state) => state.clone(),
                None => String::new(),
            };
            let scopes = match &params.scope {
                Some(scope) => scope.clone(),
                None => String::from_str("Basic scope"),
            };
            AuthorizeOutcome::Consent(
                ConsentPage {
                    client_id: params.client_id,
                    redirect_uri: params.redirect_uri,
                    scope,
                    state,
                    scopes,
                },
            )
        },
        None => AuthorizeOutcome::Rejected(
            ErrorResponse::new(400, ErrorKind::InvalidRequest, "invalid client id or redirect uri"),
        ),
    }
}

/// What the bearer gate does with a request that carries the given
/// `Authorization` header, if any.
pub open spec fn gate_decision(
    tokens: Map<Seq<char>, IssuedAccessTokenView>,
    authorization: Option<Seq<char>>,
) -> GateDecision {
    match bearer_token(authorization) {
        Some(token) => if tokens.contains_key(token) {
            GateDecision::Forward
        } else {
            GateDecision::Unauthorized
        },
        None => GateDecision::Unauthorized,
    }
}

/// The bearer gate: forwards a request whose `Authorization` header carries
/// an issued access token, and turns every other request away.
pub fn oauth_middleware(store: &OauthStore, authorization: Option<&str>) -> (r: GateDecision)
    requires
        store.wf(),
    ensures
        r == gate_decision(store@.tokens, authorization.deep_view()),
{
    match extract_token(authorization) {
        Some(token) => {
            match store.validate_token(token.as_str()) {
                Some(_) => GateDecision::Forward,
                None => GateDecision::Unauthorized,
            }
        },
        None => GateDecision::Unauthorized,
    }
}

/// An address on the server `fqdn`.
pub open spec fn endpoint(fqdn: Seq<char>, path: Seq<char>) -> Seq<char> {
    "https://"@ + fqdn + path
}

/// The discovery document of a server that clients reach under
/// `public_fqdn`.
pub open spec fn metadata(public_fqdn: Seq<char>) -> AuthorizationMetadataView {
    AuthorizationMetadataView {
        authorization_endpoint: endpoint(public_fqdn, "/oauth/authorize"@),
        token_endpoint: endpoint(public_fqdn, "/oauth/token"@),
        registration_endpoint: endpoint(public_fqdn, "/oauth/register"@),
        issuer: Some(public_fqdn),
        jwks_uri: Some(endpoint(public_fqdn, "/oauth/jwks"@)),
        scopes_supported: Some(seq!["profile"@, "email"@]),
        response_types_supported: seq!["code"@],
        code_challenge_methods_supported: seq!["S256"@],
    }
}

/// An address on the server `fqdn`.
fn endpoint_of(fqdn: &str, path: &str) -> (r: String)
    ensures
        r@ == endpoint(fqdn@, path@),
{
    let mut r = concat_str("https://", fqdn);
    r.append(path);
    r
}

/// The discovery endpoint.
pub fn handle_get_oauth_metadata(app_state: &AppState) -> (r: AuthorizationMetadata)
    ensures
        r@ == metadata(app_state.public_fqdn@),
{
    let fqdn = app_state.public_fqdn.as_str();
    let mut scopes: Vec<String> = Vec::new();
    scopes.push(String::from_str("profile"));
    scopes.push(String::from_str("email"));
    let mut response_types: Vec<String> = Vec::new();
    response_types.push(String::from_str("code"));
    let mut methods: Vec<String> = Vec::new();
    methods.push(String::from_str("S256"));
    proof {
        assert(scopes.deep_view() =~= seq!["profile"@, "email"@]);
        assert(response_types.deep_view() =~= seq!["code"@]);
        assert(methods.deep_view() =~= seq!["S256"@]);
    }
    AuthorizationMetadata {
        authorization_endpoint: endpoint_of(fqdn, "/oauth/authorize"),
        token_endpoint: endpoint_of(fqdn, "/oauth/token"),
        scopes_supported: Some(scopes),
        registration_endpoint: endpoint_of(fqdn, "/oauth/register"),
        issuer: Some(String::from_str(fqdn)),
        jwks_uri: Some(endpoint_of(fqdn, "/oauth/jwks")),
        response_types_supported: response_types,
        code_challenge_methods_supported: methods,
    }
}

} // verus!
