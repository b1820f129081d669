//! The state that the server keeps for its lifetime.

use crate::token::TokenManager;
use std::sync::Arc;
use vstd::prelude::*;

verus! {

/// `Arc::clone`: another handle to the same value.
#[verifier::external_body]
fn share<T>(value: &Arc<T>) -> (shared: Arc<T>)
    ensures
        shared == *value,
{
    Arc::clone(value)
}

/// The internal state of the server: the database it stores users in and
/// the manager of its API tokens, which the request handlers share.
#[derive(Clone)]
pub struct ServerState<D> {
    /// A database access object which can be utilized by the server.
    database: D,
    /// Token manager for API tokens.
    token_manager: Arc<TokenManager>,
}

impl<D> ServerState<D> {
    /// The database of the state.
    pub closed spec fn database_spec(&self) -> D {
        self.database
    }

    /// The token manager of the state.
    pub closed spec fn token_manager_spec(&self) -> TokenManager {
        *self.token_manager
    }

    /// Creates a server state object.
    pub fn new(database: D, token_manager: TokenManager) -> (state: Self)
        ensures
            state.database_spec() == database,
            state.token_manager_spec() == token_manager,
    {
        ServerState { database, token_manager: Arc::new(token_manager) }
    }

    /// The database of the state.
    pub fn database(&self) -> (database: &D)
        ensures
            *database == self.database_spec(),
    {
        &self.database
    }

    /// A shared handle to the token manager of the state.
    pub fn token_manager(&self) -> (token_manager: Arc<TokenManager>)
        ensures
            *token_manager == self.token_manager_spec(),
    {
        share(&self.token_manager)
    }
}

} // verus!
