//! The service's handlers, and the state that they share.

use vstd::prelude::*;
use crate::config::{Config, first_missing, is_complete};
use crate::pages::{index_page, index_text};
use crate::startup::StartupError;

verus! {

/// The greeting for a visitor who gave `name`, or no name.
pub open spec fn greeting(name: Option<Seq<char>>) -> Seq<char> {
    match name {
        Some(n) => "hello, "@ + n + "!"@,
        None => "hello!"@,
    }
}

/// The text of an optional string.
pub open spec fn opt_text(name: Option<String>) -> Option<Seq<char>> {
    match name {
        Some(s) => Some(s@),
        None => None,
    }
}

/// The state that the handlers share: the database pool, of type `P`.
pub struct Api<P> {
    pool: P,
}

impl<P> Api<P> {
    /// Builds the service from its configuration and the driver's attempt to
    /// open the pool that the configuration names. A configuration with an
    /// empty required setting gives `MissingField` (the first such setting),
    /// whatever the attempt gave; otherwise a failed attempt gives
    /// `Connection` with the driver's message, and an opened pool the service.
    pub fn new(cfg: &Config, connected: Result<P, String>) -> (r: Result<Api<P>, StartupError>)
        ensures
            r is Ok <==> is_complete(cfg) && connected is Ok,
            cfg.password@.len() == 0 ==> r is Err,
            !is_complete(cfg) ==> (r matches Err(e) && e matches StartupError::MissingField(f)
                && first_missing(cfg) == Some(f)),
            is_complete(cfg) ==> match connected {
                Ok(p) => r matches Ok(api) && api.pool() == p,
                Err(m) => r matches Err(e) && e matches StartupError::Connection(t) && t@ == m@,
            },
    {
        match cfg.missing_field() {
            Some(f) => Err(StartupError::MissingField(f)),
            None => match connected {
                Ok(pool) => Ok(Api { pool }),
                Err(m) => Err(StartupError::Connection(m)),
            },
        }
    }

    /// The pool that the service holds.
    pub closed spec fn pool(&self) -> P {
        self.pool
    }

    /// Borrows the pool.
    pub fn db(&self) -> (r: &P)
        ensures
            *r == self.pool(),
    {
        &self.pool
    }

    /// The answer to `GET /api/hello`: `hello, {name}!`, or `hello!` without a
    /// name.
    pub fn hello(&self, name: Option<String>) -> (r: String)
        ensures
            r@ == greeting(opt_text(name)),
    {
        match name {
            Some(n) => {
                let mut text = String::from_str("hello, ");
                text.append(n.as_str());
                text.append("!");
                text
            },
            None => String::from_str("hello!"),
        }
    }

    /// The answer to `GET /`: the index page, the same for every service and
    /// every call.
    pub fn index(&self) -> (r: String)
        ensures
            r@ == index_text(),
    {
        index_page()
    }
}

} // verus!
