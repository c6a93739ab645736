//! What the endpoints take and give back, as plain values: requests as they
//! were parsed, responses before they are rendered.

use vstd::prelude::*;

verus! {

/// The query of an authorization request.
#[derive(Debug)]
pub struct AuthorizeQuery {
    pub response_type: String,
    pub client_id: String,
    pub redirect_uri: String,
    pub scope: Option<String>,
    pub state: Option<String>,
}

/// What an `AuthorizeQuery` holds.
pub struct AuthorizeQueryView {
    pub response_type: Seq<char>,
    pub client_id: Seq<char>,
    pub redirect_uri: Seq<char>,
    pub scope: Option<Seq<char>>,
    pub state: Option<Seq<char>>,
}

impl View for AuthorizeQuery {
    type V = AuthorizeQueryView;

    open spec fn view(&self) -> AuthorizeQueryView {
        AuthorizeQueryView {
            response_type: self.response_type@,
            client_id: self.client_id@,
            redirect_uri: self.redirect_uri@,
            scope: self.scope.deep_view(),
            state: self.state.deep_view(),
        }
    }
}

/// The form that the consent page submits.
#[derive(Debug)]
pub struct ApprovalForm {
    pub client_id: String,
    pub redirect_uri: String,
    pub scope: String,
    pub state: String,
    pub approved: String,
}

/// What an `ApprovalForm` holds.
pub struct ApprovalFormView {
    pub client_id: Seq<char>,
    pub redirect_uri: Seq<char>,
    pub scope: Seq<char>,
    pub state: Seq<char>,
    pub approved: Seq<char>,
}

impl View for ApprovalForm {
    type V = ApprovalFormView;

    open spec fn view(&self) -> ApprovalFormView {
        ApprovalFormView {
            client_id: self.client_id@,
            redirect_uri: self.redirect_uri@,
            scope: self.scope@,
            state: self.state@,
            approved: self.approved@,
        }
    }
}

/// The form of a token request. Fields that the client left out are empty.
#[derive(Debug)]
pub struct TokenRequest {
    pub grant_type: String,
    pub code: String,
    pub client_id: String,
    pub client_secret: String,
    pub redirect_uri: String,
    pub code_verifier: Option<String>,
    pub refresh_token: String,
}

/// What a `TokenRequest` holds.
pub struct TokenRequestView {
    pub grant_type: Seq<char>,
    pub code: Seq<char>,
    pub client_id: Seq<char>,
    pub client_secret: Seq<char>,
    pub redirect_uri: Seq<char>,
    pub code_verifier: Option<Seq<char>>,
    pub refresh_token: Seq<char>,
}

impl View for TokenRequest {
    type V = TokenRequestView;

    open spec fn view(&self) -> TokenRequestView {
        TokenRequestView {
            grant_type: self.grant_type@,
            code: self.code@,
            client_id: self.client_id@,
            client_secret: self.client_secret@,
            redirect_uri: self.redirect_uri@,
            code_verifier: self.code_verifier.deep_view(),
            refresh_token: self.refresh_token@,
        }
    }
}

/// The body of a token request as the transport hands it over.
#[derive(Debug)]
pub enum TokenBody {
    /// The body could not be read.
    Unreadable,
    /// The body is no form of the expected shape; the parser's message.
    Malformed(String),
    /// The body parsed into a token request.
    Parsed(TokenRequest),
}

/// What a `TokenBody` holds.
pub enum TokenBodyView {
    Unreadable,
    Malformed(Seq<char>),
    Parsed(TokenRequestView),
}

impl View for TokenBody {
    type V = TokenBodyView;

    open spec fn view(&self) -> TokenBodyView {
        match self {
            TokenBody::Unreadable => TokenBodyView::Unreadable,
            TokenBody::Malformed(m) => TokenBodyView::Malformed(m@),
            TokenBody::Parsed(req) => TokenBodyView::Parsed(req@),
        }
    }
}

/// A request to register a client.
#[derive(Debug)]
pub struct ClientRegistrationRequest {
    pub redirect_uris: Vec<String>,
    pub client_name: Option<String>,
}

/// What a `ClientRegistrationRequest` holds.
pub struct ClientRegistrationRequestView {
    pub redirect_uris: Seq<Seq<char>>,
    pub client_name: Option<Seq<char>>,
}

impl View for ClientRegistrationRequest {
    type V = ClientRegistrationRequestView;

    open spec fn view(&self) -> ClientRegistrationRequestView {
        ClientRegistrationRequestView {
            redirect_uris: self.redirect_uris.deep_view(),
            client_name: self.client_name.deep_view(),
        }
    }
}

/// What a newly registered client is told.
#[derive(Debug)]
pub struct ClientRegistrationResponse {
    pub client_id: String,
    pub client_secret: Option<String>,
    pub client_name: Option<String>,
    pub redirect_uris: Vec<String>,
}

/// What a `ClientRegistrationResponse` holds.
pub struct ClientRegistrationResponseView {
    pub client_id: Seq<char>,
    pub client_secret: Option<Seq<char>>,
    pub client_name: Option<Seq<char>>,
    pub redirect_uris: Seq<Seq<char>>,
}

impl View for ClientRegistrationResponse {
    type V = ClientRegistrationResponseView;

    open spec fn view(&self) -> ClientRegistrationResponseView {
        ClientRegistrationResponseView {
            client_id: self.client_id@,
            client_secret: self.client_secret.deep_view(),
            client_name: self.client_name.deep_view(),
            redirect_uris: self.redirect_uris.deep_view(),
        }
    }
}

/// The kinds of failure that a client can be told of.
#[derive(Clone, Copy, Debug, PartialEq, Eq, Structural)]
pub enum ErrorKind {
    InvalidRequest,
    InvalidClient,
    InvalidGrant,
    UnsupportedGrantType,
    Unauthorized,
    ServerError,
}

impl ErrorKind {
    /// The short code that names the kind on the wire.
    pub open spec fn code_seq(self) -> Seq<char> {
        match self {
            ErrorKind::InvalidRequest => "invalid_request"@,
            ErrorKind::InvalidClient => "invalid_client"@,
            ErrorKind::InvalidGrant => "invalid_grant"@,
            ErrorKind::UnsupportedGrantType => "unsupported_grant_type"@,
            ErrorKind::Unauthorized => "unauthorized"@,
            ErrorKind::ServerError => "server_error"@,
        }
    }

    /// The short code that names the kind on the wire.
    pub fn code(&self) -> (r: &'static str)
        ensures
            r@ == self.code_seq(),
    {
        match self {
            ErrorKind::InvalidRequest => "invalid_request",
            ErrorKind::InvalidClient => "invalid_client",
            ErrorKind::InvalidGrant => "invalid_grant",
            ErrorKind::UnsupportedGrantType => "unsupported_grant_type",
            ErrorKind::Unauthorized => "unauthorized",
            ErrorKind::ServerError => "server_error",
        }
    }
}

/// A failure as the client is told of it: a status, a kind and a sentence.
#[derive(Debug)]
pub struct ErrorResponse {
    pub status: u16,
    pub kind: ErrorKind,
    pub description: String,
}

/// What an `ErrorResponse` holds.
pub struct ErrorResponseView {
    pub status: u16,
    pub kind: ErrorKind,
    pub description: Seq<char>,
}

impl View for ErrorResponse {
    type V = ErrorResponseView;

    open spec fn view(&self) -> ErrorResponseView {
        ErrorResponseView { status: self.status, kind: self.kind, description: self.description@ }
    }
}

impl ErrorResponse {
    /// A failure with the given status, kind and sentence.
    pub fn new(status: u16, kind: ErrorKind, description: &str) -> (r: Self)
        ensures
            r@ == (ErrorResponseView { status, kind, description: description@ }),
    {
        ErrorResponse { status, kind, description: String::from_str(description) }
    }

    /// The value of the `error` member of the body.
    pub fn error(&self) -> (r: &'static str)
        ensures
            r@ == self.kind.code_seq(),
    {
        self.kind.code()
    }
}

/// The body of a successful token exchange.
#[derive(Debug)]
pub struct TokenGrant {
    pub access_token: String,
    pub token_type: String,
    pub expires_in: u64,
    pub refresh_token: String,
    pub scope: Option<String>,
}

/// What a `TokenGrant` holds.
pub struct TokenGrantView {
    pub access_token: Seq<char>,
    pub token_type: Seq<char>,
    pub expires_in: u64,
    pub refresh_token: Seq<char>,
    pub scope: Option<Seq<char>>,
}

impl View for TokenGrant {
    type V = TokenGrantView;

    open spec fn view(&self) -> TokenGrantView {
        TokenGrantView {
            access_token: self.access_token@,
            token_type: self.token_type@,
            expires_in: self.expires_in,
            refresh_token: self.refresh_token@,
            scope: self.scope.deep_view(),
        }
    }
}

/// How a token request ended.
#[derive(Debug)]
pub enum TokenResponse {
    Issued(TokenGrant),
    Failed(ErrorResponse),
}

/// What a `TokenResponse` holds.
pub enum TokenResponseView {
    Issued(TokenGrantView),
    Failed(ErrorResponseView),
}

impl View for TokenResponse {
    type V = TokenResponseView;

    open spec fn view(&self) -> TokenResponseView {
        match self {
            TokenResponse::Issued(g) => TokenResponseView::Issued(g@),
            TokenResponse::Failed(e) => TokenResponseView::Failed(e@),
        }
    }
}

impl TokenResponse {
    /// The HTTP status of the response.
    pub fn status(&self) -> (r: u16)
        ensures
            r == match self@ {
                TokenResponseView::Issued(_) => 200u16,
                TokenResponseView::Failed(e) => e.status,
            },
    {
        match self {
            TokenResponse::Issued(_) => 200,
            TokenResponse::Failed(e) => e.status,
        }
    }
}

/// What the consent page shows.
#[derive(Debug)]
pub struct ConsentPage {
    pub client_id: String,
    pub redirect_uri: String,
    pub scope: String,
    pub state: String,
    pub scopes: String,
}

/// What a `ConsentPage` holds.
pub struct ConsentPageView {
    pub client_id: Seq<char>,
    pub redirect_uri: Seq<char>,
    pub scope: Seq<char>,
    pub state: Seq<char>,
    pub scopes: Seq<char>,
}

impl View for ConsentPage {
    type V = ConsentPageView;

    open spec fn view(&self) -> ConsentPageView {
        ConsentPageView {
            client_id: self.client_id@,
            redirect_uri: self.redirect_uri@,
            scope: self.scope@,
            state: self.state@,
            scopes: self.scopes@,
        }
    }
}

/// How an authorization request ended.
#[derive(Debug)]
pub enum AuthorizeOutcome {
    Consent(ConsentPage),
    Rejected(ErrorResponse),
}

/// What an `AuthorizeOutcome` holds.
pub enum AuthorizeOutcomeView {
    Consent(ConsentPageView),
    Rejected(ErrorResponseView),
}

impl View for AuthorizeOutcome {
    type V = AuthorizeOutcomeView;

    open spec fn view(&self) -> AuthorizeOutcomeView {
        match self {
            AuthorizeOutcome::Consent(p) => AuthorizeOutcomeView::Consent(p@),
            AuthorizeOutcome::Rejected(e) => AuthorizeOutcomeView::Rejected(e@),
        }
    }
}

impl AuthorizeOutcome {
    /// The HTTP status of the response.
    pub fn status(&self) -> (r: u16)
        ensures
            r == match self@ {
                AuthorizeOutcomeView::Consent(_) => 200u16,
                AuthorizeOutcomeView::Rejected(e) => e.status,
            },
    {
        match self {
            AuthorizeOutcome::Consent(_) => 200,
            AuthorizeOutcome::Rejected(e) => e.status,
        }
    }
}

/// How a registration request ended.
#[derive(Debug)]
pub enum RegistrationOutcome {
    Registered(ClientRegistrationResponse),
    Rejected(ErrorResponse),
}

/// What a `RegistrationOutcome` holds.
pub enum RegistrationOutcomeView {
    Registered(ClientRegistrationResponseView),
    Rejected(ErrorResponseView),
}

impl View for RegistrationOutcome {
    type V = RegistrationOutcomeView;

    open spec fn view(&self) -> RegistrationOutcomeView {
        match self {
            RegistrationOutcome::Registered(r) => RegistrationOutcomeView::Registered(r@),
            RegistrationOutcome::Rejected(e) => RegistrationOutcomeView::Rejected(e@),
        }
    }
}

impl RegistrationOutcome {
    /// The HTTP status of the response.
    pub fn status(&self) -> (r: u16)
        ensures
            r == match self@ {
                RegistrationOutcomeView::Registered(_) => 201u16,
                RegistrationOutcomeView::Rejected(e) => e.status,
            },
    {
        match self {
            RegistrationOutcome::Registered(_) => 201,
            RegistrationOutcome::Rejected(e) => e.status,
        }
    }
}

/// What the bearer gate does with a request.
#[derive(Clone, Copy, Debug, PartialEq, Eq, Structural)]
pub enum GateDecision {
    Forward,
    Unauthorized,
}

impl GateDecision {
    /// The HTTP status with which a request is turned away, if it is.
    pub fn rejection_status(&self) -> (r: Option<u16>)
        ensures
            r == match *self {
                GateDecision::Forward => None::<u16>,
                GateDecision::Unauthorized => Some(401u16),
            },
    {
        match self {
            GateDecision::Forward => None,
            GateDecision::Unauthorized => Some(401),
        }
    }
}

/// The discovery document of the authorization server.
#[derive(Debug)]
pub struct AuthorizationMetadata {
    pub authorization_endpoint: String,
    pub token_endpoint: String,
    pub registration_endpoint: String,
    pub issuer: Option<String>,
    pub jwks_uri: Option<String>,
    pub scopes_supported: Option<Vec<String>>,
    pub response_types_supported: Vec<String>,
    pub code_challenge_methods_supported: Vec<String>,
}

/// What an `AuthorizationMetadata` holds.
pub struct AuthorizationMetadataView {
    pub authorization_endpoint: Seq<char>,
    pub token_endpoint: Seq<char>,
    pub registration_endpoint: Seq<char>,
    pub issuer: Option<Seq<char>>,
    pub jwks_uri: Option<Seq<char>>,
    pub scopes_supported: Option<Seq<Seq<char>>>,
    pub response_types_supported: Seq<Seq<char>>,
    pub code_challenge_methods_supported: Seq<Seq<char>>,
}

impl View for AuthorizationMetadata {
    type V = AuthorizationMetadataView;

    open spec fn view(&self) -> AuthorizationMetadataView {
        AuthorizationMetadataView {
            authorization_endpoint: self.authorization_endpoint@,
            token_endpoint: self.token_endpoint@,
            registration_endpoint: self.registration_endpoint@,
            issuer: self.issuer.deep_view(),
            jwks_uri: self.jwks_uri.deep_view(),
            scopes_supported: self.scopes_supported.deep_view(),
            response_types_supported: self.response_types_supported.deep_view(),
            code_challenge_methods_supported: self.code_challenge_methods_supported.deep_view(),
        }
    }
}

} // verus!
