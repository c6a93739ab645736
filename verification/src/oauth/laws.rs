//! What holds of the flow as a whole, proved from the functions that the
//! endpoints' contracts are stated with.

use crate::oauth::flow::{
    approve_redirect, approve_store, approved_session, authorization_code, code_prefix,
    effective_client_id, exchange_response, exchange_store, gate_decision, grant_of, invalid_grant,
    is_approved, register_store, registered_client, registered_client_id, server_error,
    session_of_code, state_suffix, unsupported_grant_type,
};
use crate::oauth::store::{
    initial_store, keyed_by_id, validate_client_spec, OauthStoreView, StoreError,
};
use crate::oauth::types::{IssuedAccessTokenView, Timestamp};
use crate::oauth::wire::{
    ApprovalFormView, ClientRegistrationRequestView, GateDecision, TokenRequestView,
    TokenResponseView,
};
use crate::simple_oauth::{bearer_prefix, bearer_token};
use crate::text::{contains_seq, lemma_contains_self};
use vstd::prelude::*;

verus! {

/// Validation succeeds exactly for a registered client id together with a
/// redirect URI that the registered one contains, and then returns the
/// descriptor stored under that id; in a store keyed by id, that descriptor
/// carries the id that was asked for.
pub proof fn lemma_validate_returns_the_match(
    s: OauthStoreView,
    client_id: Seq<char>,
    redirect_uri: Seq<char>,
)
    requires
        keyed_by_id(s),
    ensures
        validate_client_spec(s.clients, client_id, redirect_uri) is Some <==> s.clients.contains_key(
            client_id,
        ) && contains_seq(s.clients[client_id].redirect_uri, redirect_uri),
        validate_client_spec(s.clients, client_id, redirect_uri) matches Some(c) ==> c
            == s.clients[client_id] && c.client_id == client_id,
{
}

/// A client that registered with at least one redirect URI is validated
/// afterwards under the id it was given and the first URI it registered, and
/// the descriptor returned is the one that was stored.
pub proof fn lemma_registered_client_validates(
    s: OauthStoreView,
    req: ClientRegistrationRequestView,
    id: Seq<char>,
    secret: Seq<char>,
)
    requires
        req.redirect_uris.len() > 0,
    ensures
        validate_client_spec(
            register_store(s, req, id, secret).clients,
            registered_client_id(id),
            req.redirect_uris[0],
        ) == Some(registered_client(req, id, secret)),
{
    lemma_contains_self(req.redirect_uris[0]);
}

/// The session id is recovered from its authorization code.
pub proof fn lemma_code_names_its_session(session_id: Seq<char>)
    ensures
        code_prefix().is_prefix_of(authorization_code(session_id)),
        session_of_code(authorization_code(session_id)) == session_id,
{
    let code = authorization_code(session_id);
    assert(code.subrange(0, code_prefix().len() as int) =~= code_prefix());
    assert(code.skip(code_prefix().len() as int) =~= session_id);
}

/// An approval sends the user agent back with the authorization code of the
/// new session, and that code names a stored session that holds an upstream
/// token.
pub proof fn lemma_approval_yields_redeemable_code(
    s: OauthStoreView,
    form: ApprovalFormView,
    session_id: Seq<char>,
    access_id: Seq<char>,
    refresh_id: Seq<char>,
    now: Timestamp,
)
    requires
        is_approved(form),
    ensures
        approve_redirect(form, session_id) == form.redirect_uri + "?code="@ + authorization_code(
            session_id,
        ) + state_suffix(form.state),
        ({
            let after = approve_store(s, form, session_id, access_id, refresh_id, now);
            let named = session_of_code(authorization_code(session_id));
            &&& after.sessions.contains_key(named)
            &&& after.sessions[named] == approved_session(
                form,
                session_id,
                access_id,
                refresh_id,
                now,
            )
            &&& after.sessions[named].third_party_token is Some
        }),
{
    lemma_code_names_its_session(session_id);
}

/// Exchanging the code of a stored session that holds an upstream token, by
/// a client that validates, issues an access token; the token is stored
/// under its own characters with the client id of the session.
pub proof fn lemma_valid_code_is_exchanged(
    s: OauthStoreView,
    req: TokenRequestView,
    session_id: Seq<char>,
    access_id: Seq<char>,
    refresh_id: Seq<char>,
)
    requires
        req.grant_type == "authorization_code"@,
        req.code == authorization_code(session_id),
        validate_client_spec(s.clients, effective_client_id(req.client_id), req.redirect_uri) is Some,
        s.sessions.contains_key(session_id),
        s.sessions[session_id].third_party_token is Some,
    ensures
        exchange_response(s, req, access_id, refresh_id) is Issued,
        ({
            let grant = exchange_response(s, req, access_id, refresh_id)->Issued_0;
            let after = exchange_store(s, req, access_id, refresh_id);
            &&& after.tokens.contains_key(grant.access_token)
            &&& grant_of(after.tokens[grant.access_token]) == grant
            &&& after.tokens[grant.access_token].client_id == s.sessions[session_id].client_id
            &&& after.tokens[grant.access_token].scope == s.sessions[session_id].scope
            &&& after.tokens[grant.access_token].third_party_token
                == s.sessions[session_id].third_party_token->0
        }),
{
    lemma_code_names_its_session(session_id);
}

/// The code that an approval hands out is exchanged for an access token
/// that carries the client id of the approval form.
pub proof fn lemma_approved_code_is_exchanged(
    s: OauthStoreView,
    form: ApprovalFormView,
    session_id: Seq<char>,
    upstream_access_id: Seq<char>,
    upstream_refresh_id: Seq<char>,
    now: Timestamp,
    req: TokenRequestView,
    access_id: Seq<char>,
    refresh_id: Seq<char>,
)
    requires
        is_approved(form),
        req.grant_type == "authorization_code"@,
        req.code == authorization_code(session_id),
        validate_client_spec(s.clients, effective_client_id(req.client_id), req.redirect_uri) is Some,
    ensures
        ({
            let approved = approve_store(
                s,
                form,
                session_id,
                upstream_access_id,
                upstream_refresh_id,
                now,
            );
            let response = exchange_response(approved, req, access_id, refresh_id);
            let after = exchange_store(approved, req, access_id, refresh_id);
            &&& response is Issued
            &&& after.tokens.contains_key(response->Issued_0.access_token)
            &&& after.tokens[response->Issued_0.access_token].client_id == form.client_id
        }),
{
    let approved = approve_store(s, form, session_id, upstream_access_id, upstream_refresh_id, now);
    lemma_approval_yields_redeemable_code(
        s,
        form,
        session_id,
        upstream_access_id,
        upstream_refresh_id,
        now,
    );
    lemma_code_names_its_session(session_id);
    lemma_valid_code_is_exchanged(approved, req, session_id, access_id, refresh_id);
}

/// A request for an authorization-code grant whose code lacks the code
/// prefix is answered with `invalid_grant`, and the store stays as it was.
pub proof fn lemma_code_without_prefix_is_invalid_grant(
    s: OauthStoreView,
    req: TokenRequestView,
    access_id: Seq<char>,
    refresh_id: Seq<char>,
)
    requires
        req.grant_type == "authorization_code"@,
        !code_prefix().is_prefix_of(req.code),
    ensures
        exchange_response(s, req, access_id, refresh_id) == TokenResponseView::Failed(
            invalid_grant(),
        ),
        exchange_store(s, req, access_id, refresh_id) == s,
{
}

/// Every grant type but `authorization_code` is answered with
/// `unsupported_grant_type`, and the store stays as it was.
pub proof fn lemma_other_grant_types_are_unsupported(
    s: OauthStoreView,
    req: TokenRequestView,
    access_id: Seq<char>,
    refresh_id: Seq<char>,
)
    requires
        req.grant_type != "authorization_code"@,
    ensures
        exchange_response(s, req, access_id, refresh_id) == TokenResponseView::Failed(
            unsupported_grant_type(),
        ),
        exchange_store(s, req, access_id, refresh_id) == s,
{
}

/// The grant type `refresh_token` is answered with `unsupported_grant_type`.
pub proof fn lemma_refresh_token_grant_is_unsupported(
    s: OauthStoreView,
    req: TokenRequestView,
    access_id: Seq<char>,
    refresh_id: Seq<char>,
)
    requires
        req.grant_type == "refresh_token"@,
    ensures
        exchange_response(s, req, access_id, refresh_id) == TokenResponseView::Failed(
            unsupported_grant_type(),
        ),
        exchange_store(s, req, access_id, refresh_id) == s,
{
    reveal_strlit("refresh_token");
    reveal_strlit("authorization_code");
    assert("refresh_token"@.len() != "authorization_code"@.len());
}

/// A request without an `Authorization` header, with one that does not
/// begin with `Bearer `, or with a bearer token that was not issued, is
/// turned away.
pub proof fn lemma_gate_turns_away(
    tokens: Map<Seq<char>, IssuedAccessTokenView>,
    authorization: Option<Seq<char>>,
)
    requires
        authorization matches Some(value) ==> !bearer_prefix().is_prefix_of(value)
            || !tokens.contains_key(value.skip(bearer_prefix().len() as int)),
    ensures
        gate_decision(tokens, authorization) == GateDecision::Unauthorized,
{
}

/// A request that carries a stored access token behind `Bearer ` is
/// forwarded.
pub proof fn lemma_gate_forwards_stored_token(
    tokens: Map<Seq<char>, IssuedAccessTokenView>,
    token: Seq<char>,
)
    requires
        tokens.contains_key(token),
    ensures
        bearer_token(Some(bearer_prefix() + token)) == Some(token),
        gate_decision(tokens, Some(bearer_prefix() + token)) == GateDecision::Forward,
{
    let value = bearer_prefix() + token;
    assert(value.subrange(0, bearer_prefix().len() as int) =~= bearer_prefix());
    assert(value.skip(bearer_prefix().len() as int) =~= token);
}

/// The access token that an exchange returned passes the bearer check of
/// the store that the exchange left behind.
pub proof fn lemma_issued_token_passes(
    s: OauthStoreView,
    req: TokenRequestView,
    access_id: Seq<char>,
    refresh_id: Seq<char>,
)
    requires
        exchange_response(s, req, access_id, refresh_id) is Issued,
    ensures
        gate_decision(
            exchange_store(s, req, access_id, refresh_id).tokens,
            Some(
                bearer_prefix() + exchange_response(s, req, access_id, refresh_id)->Issued_0.access_token,
            ),
        ) == GateDecision::Forward,
{
    let grant = exchange_response(s, req, access_id, refresh_id)->Issued_0;
    let after = exchange_store(s, req, access_id, refresh_id);
    assert(after.tokens.contains_key(grant.access_token));
    lemma_gate_forwards_stored_token(after.tokens, grant.access_token);
}

/// No endpoint removes an access token: a token that passes the bearer
/// check goes on passing it after any registration, approval or exchange.
pub proof fn lemma_tokens_persist(
    s: OauthStoreView,
    authorization: Option<Seq<char>>,
    registration: ClientRegistrationRequestView,
    form: ApprovalFormView,
    req: TokenRequestView,
    id_a: Seq<char>,
    id_b: Seq<char>,
    id_c: Seq<char>,
    now: Timestamp,
)
    requires
        gate_decision(s.tokens, authorization) == GateDecision::Forward,
    ensures
        gate_decision(register_store(s, registration, id_a, id_b).tokens, authorization)
            == GateDecision::Forward,
        gate_decision(approve_store(s, form, id_a, id_b, id_c, now).tokens, authorization)
            == GateDecision::Forward,
        gate_decision(exchange_store(s, req, id_a, id_b).tokens, authorization)
            == GateDecision::Forward,
{
}

/// Each endpoint writes to one store only: registration to the clients,
/// approval to the sessions, exchange to the access tokens.
pub proof fn lemma_endpoints_write_one_store(
    s: OauthStoreView,
    registration: ClientRegistrationRequestView,
    form: ApprovalFormView,
    req: TokenRequestView,
    id_a: Seq<char>,
    id_b: Seq<char>,
    id_c: Seq<char>,
    now: Timestamp,
)
    ensures
        register_store(s, registration, id_a, id_b).sessions == s.sessions,
        register_store(s, registration, id_a, id_b).tokens == s.tokens,
        approve_store(s, form, id_a, id_b, id_c, now).clients == s.clients,
        approve_store(s, form, id_a, id_b, id_c, now).tokens == s.tokens,
        exchange_store(s, req, id_a, id_b).clients == s.clients,
        exchange_store(s, req, id_a, id_b).sessions == s.sessions,
{
}

/// An exchange does not use the code up: a request that was answered with
/// an access token is answered with one again, whatever the fresh
/// identifiers of the two exchanges are.
pub proof fn lemma_code_can_be_exchanged_again(
    s: OauthStoreView,
    req: TokenRequestView,
    first_access_id: Seq<char>,
    first_refresh_id: Seq<char>,
    access_id: Seq<char>,
    refresh_id: Seq<char>,
)
    requires
        exchange_response(s, req, first_access_id, first_refresh_id) is Issued,
    ensures
        exchange_response(
            exchange_store(s, req, first_access_id, first_refresh_id),
            req,
            access_id,
            refresh_id,
        ) is Issued,
{
}

/// Every stored session holds an upstream token.
pub open spec fn sessions_complete(s: OauthStoreView) -> bool {
    forall|k: Seq<char>| #[trigger]
        s.sessions.contains_key(k) ==> s.sessions[k].third_party_token is Some
}

/// A server that has just started holds no session, and every endpoint
/// keeps the sessions complete: an approval stores its session together
/// with the upstream token.
pub proof fn lemma_endpoints_keep_sessions_complete(
    s: OauthStoreView,
    registration: ClientRegistrationRequestView,
    form: ApprovalFormView,
    req: TokenRequestView,
    id_a: Seq<char>,
    id_b: Seq<char>,
    id_c: Seq<char>,
    now: Timestamp,
)
    requires
        sessions_complete(s),
    ensures
        sessions_complete(initial_store()),
        sessions_complete(register_store(s, registration, id_a, id_b)),
        sessions_complete(approve_store(s, form, id_a, id_b, id_c, now)),
        sessions_complete(exchange_store(s, req, id_a, id_b)),
{
}

/// Where every stored session holds an upstream token, a well-formed code
/// from a client that validates is refused only because no session is stored
/// under it.
pub proof fn lemma_complete_sessions_are_redeemable(
    s: OauthStoreView,
    req: TokenRequestView,
    access_id: Seq<char>,
    refresh_id: Seq<char>,
)
    requires
        sessions_complete(s),
        req.grant_type == "authorization_code"@,
        code_prefix().is_prefix_of(req.code),
        validate_client_spec(s.clients, effective_client_id(req.client_id), req.redirect_uri) is Some,
    ensures
        exchange_response(s, req, access_id, refresh_id) is Issued <==> s.sessions.contains_key(
            session_of_code(req.code),
        ),
        !s.sessions.contains_key(session_of_code(req.code)) ==> exchange_response(
            s,
            req,
            access_id,
            refresh_id,
        ) == TokenResponseView::Failed(server_error(StoreError::SessionNotFound)),
{
}

/// Every endpoint keeps each record under its own identifier.
pub proof fn lemma_endpoints_keep_ids(
    s: OauthStoreView,
    registration: ClientRegistrationRequestView,
    form: ApprovalFormView,
    req: TokenRequestView,
    id_a: Seq<char>,
    id_b: Seq<char>,
    id_c: Seq<char>,
    now: Timestamp,
)
    requires
        keyed_by_id(s),
    ensures
        keyed_by_id(register_store(s, registration, id_a, id_b)),
        keyed_by_id(approve_store(s, form, id_a, id_b, id_c, now)),
        keyed_by_id(exchange_store(s, req, id_a, id_b)),
{
}

} // verus!
