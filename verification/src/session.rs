//! The account session that requests are made with.

use crate::error::BridgeError;
use vstd::prelude::*;

verus! {

/// What a session offers to the mimo channel.
#[derive(Debug, PartialEq, Eq)]
pub struct Session {
    /// Whether the session counts as logged in.
    pub authenticated: bool,
    /// The cookie that carries the service token, where there is one.
    pub cookie_header: Option<String>,
    /// The long-lived token from which service tokens are minted.
    pub pass_token: Option<String>,
    pub nick: Option<String>,
    pub user_id: Option<String>,
    pub refreshed_at: Option<i64>,
}

impl Clone for Session {
    fn clone(&self) -> (copy: Session)
        ensures
            copy == *self,
    {
        Session {
            authenticated: self.authenticated,
            cookie_header: self.cookie_header.clone(),
            pass_token: self.pass_token.clone(),
            nick: self.nick.clone(),
            user_id: self.user_id.clone(),
            refreshed_at: self.refreshed_at,
        }
    }
}

impl Session {
    /// A copy of this session to make a request with, where it is logged in.
    pub fn snapshot(&self) -> (result: Result<Session, BridgeError>)
        ensures
            result == if self.authenticated {
                Ok(*self)
            } else {
                Err(BridgeError::NotAuthenticated)
            },
    {
        if !self.authenticated {
            return Err(BridgeError::NotAuthenticated);
        }
        Ok(self.clone())
    }
}

/// The account that the bridge works for.
#[derive(Debug, PartialEq, Eq)]
pub struct AuthState {
    pub session: Session,
}

/// What is shown of a session.
#[derive(Debug, Clone, PartialEq, Eq)]
pub struct AuthSnapshot {
    pub authenticated: bool,
    pub nick: Option<String>,
    pub user_id: Option<String>,
    pub refreshed_at: Option<i64>,
}

} // verus!
