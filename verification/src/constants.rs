//! The state that the endpoints share.

use crate::oauth::store::{initial_store, OauthStore};
use vstd::prelude::*;

verus! {

/// The server's names and its stores.
pub struct AppState {
    /// The address the server listens on, such as `0.0.0.0:9876`.
    pub local_fqdn: String,
    /// The clients, sessions and access tokens.
    pub oauth_store: OauthStore,
    /// The name under which clients reach the server, such as
    /// `workspace-mcp.example.org`.
    pub public_fqdn: String,
}

/// The name under which clients reach a server that listens on `local_fqdn`:
/// the domain of its tunnel where it has one, its own address otherwise.
pub open spec fn public_name(local_fqdn: Seq<char>, tunnel_domain: Option<Seq<char>>) -> Seq<char> {
    match tunnel_domain {
        Some(domain) => domain,
        None => local_fqdn,
    }
}

impl AppState {
    /// The state of a server that has just started.
    pub fn new(local_fqdn: String, tunnel_domain: Option<String>) -> (s: Self)
        ensures
            s.local_fqdn@ == local_fqdn@,
            s.public_fqdn@ == public_name(local_fqdn@, tunnel_domain.deep_view()),
            s.oauth_store.wf(),
            s.oauth_store@ == initial_store(),
    {
        let public_fqdn = match tunnel_domain {
            Some(domain) => domain,
            None => local_fqdn.clone(),
        };
        AppState { local_fqdn, oauth_store: OauthStore::new(), public_fqdn }
    }
}

} // verus!
