//! Settings of a FastAGI server and the checks made before it serves.
use vstd::prelude::*;
use crate::agi::error::AgiError;

verus! {

/// The default limit of concurrent connections.
pub const DEFAULT_MAX_CONNECTIONS: usize = 256;

/// How long shutdown waits for active handlers by default (ms).
pub const DEFAULT_SHUTDOWN_TIMEOUT_MS: u64 = 5000;

/// How long a connection may take to send its request prelude (ms).
pub const PRELUDE_TIMEOUT_MS: u64 = 30000;

/// builder for configuring a FastAGI server
pub struct AgiServerBuilder<H> {
    pub bind_addr: String,
    pub handler: Option<H>,
    pub max_connections: usize,
    pub shutdown_timeout_ms: u64,
    pub allow_external_bind: bool,
}

/// The settings a server runs with.
pub struct ServerSettings<H> {
    pub bind_addr: String,
    pub handler: H,
    pub max_connections: usize,
    pub shutdown_timeout_ms: u64,
    pub allow_external_bind: bool,
}

/// An invalid-configuration error with the given details.
pub open spec fn is_config_error(e: AgiError, details: Seq<char>) -> bool {
    e matches AgiError::InvalidConfig { details: d } && d@ == details
}

impl<H> AgiServerBuilder<H> {
    /// Listens on `127.0.0.1:4573` with no handler, 256 connections, a 5 s
    /// shutdown drain, local binds only.
    pub fn new() -> (r: Self)
        ensures
            r.bind_addr@ == "127.0.0.1:4573"@,
            r.handler is None,
            r.max_connections == DEFAULT_MAX_CONNECTIONS,
            r.shutdown_timeout_ms == DEFAULT_SHUTDOWN_TIMEOUT_MS,
            !r.allow_external_bind,
    {
        AgiServerBuilder {
            bind_addr: "127.0.0.1:4573".to_owned(),
            handler: None,
            max_connections: DEFAULT_MAX_CONNECTIONS,
            shutdown_timeout_ms: DEFAULT_SHUTDOWN_TIMEOUT_MS,
            allow_external_bind: false,
        }
    }

    /// Sets the address to bind the listener to.
    pub fn bind(self, addr: &str) -> (r: Self)
        ensures
            r.bind_addr@ == addr@,
            r.handler == self.handler,
            r.max_connections == self.max_connections,
            r.shutdown_timeout_ms == self.shutdown_timeout_ms,
            r.allow_external_bind == self.allow_external_bind,
    {
        AgiServerBuilder { bind_addr: addr.to_owned(), ..self }
    }

    /// Sets the handler of incoming sessions.
    pub fn handler(self, handler: H) -> (r: Self)
        ensures
            r.handler == Some(handler),
            r.bind_addr == self.bind_addr,
            r.max_connections == self.max_connections,
            r.shutdown_timeout_ms == self.shutdown_timeout_ms,
            r.allow_external_bind == self.allow_external_bind,
    {
        AgiServerBuilder { handler: Some(handler), ..self }
    }

    /// Sets the limit of concurrent connections.
    pub fn max_connections(self, n: usize) -> (r: Self)
        ensures
            r.max_connections == n,
            r.bind_addr == self.bind_addr,
            r.handler == self.handler,
            r.shutdown_timeout_ms == self.shutdown_timeout_ms,
            r.allow_external_bind == self.allow_external_bind,
    {
        AgiServerBuilder { max_connections: n, ..self }
    }

    /// Sets how long shutdown waits for active handlers (ms).
    pub fn shutdown_timeout(self, timeout_ms: u64) -> (r: Self)
        ensures
            r.shutdown_timeout_ms == timeout_ms,
            r.bind_addr == self.bind_addr,
            r.handler == self.handler,
            r.max_connections == self.max_connections,
            r.allow_external_bind == self.allow_external_bind,
    {
        AgiServerBuilder { shutdown_timeout_ms: timeout_ms, ..self }
    }

    /// Allows binding beyond the local host (FastAGI has no authentication
    /// of its own).
    pub fn allow_external_bind(self, allow: bool) -> (r: Self)
        ensures
            r.allow_external_bind == allow,
            r.bind_addr == self.bind_addr,
            r.handler == self.handler,
            r.max_connections == self.max_connections,
            r.shutdown_timeout_ms == self.shutdown_timeout_ms,
    {
        AgiServerBuilder { allow_external_bind: allow, ..self }
    }

    /// Checks the settings: a handler is set, and the connection limit and
    /// the shutdown drain are non-zero (in this order).
    pub fn settings(self) -> (r: Result<ServerSettings<H>, AgiError>)
        ensures
            self.handler is None ==> (r matches Err(e) && is_config_error(e, "handler is required"@)),
            self.handler is Some && self.max_connections == 0 ==> (r matches Err(e) && is_config_error(
                e,
                "max_connections must be greater than zero"@,
            )),
            self.handler is Some && self.max_connections > 0 && self.shutdown_timeout_ms == 0 ==> (r matches Err(e)
                && is_config_error(e, "shutdown_timeout must be greater than zero"@)),
            self.handler is Some && self.max_connections > 0 && self.shutdown_timeout_ms > 0 ==> (r matches Ok(s)
                && Some(s.handler) == self.handler && s.bind_addr == self.bind_addr && s.max_connections
                == self.max_connections && s.shutdown_timeout_ms == self.shutdown_timeout_ms && s.allow_external_bind
                == self.allow_external_bind),
    {
        let handler = match self.handler {
            Some(h) => h,
            None => return Err(AgiError::InvalidConfig { details: "handler is required".to_owned() }),
        };
        if self.max_connections == 0 {
            return Err(AgiError::InvalidConfig { details: "max_connections must be greater than zero".to_owned() });
        }
        if self.shutdown_timeout_ms == 0 {
            return Err(AgiError::InvalidConfig { details: "shutdown_timeout must be greater than zero".to_owned() });
        }
        Ok(
            ServerSettings {
                bind_addr: self.bind_addr,
                handler,
                max_connections: self.max_connections,
                shutdown_timeout_ms: self.shutdown_timeout_ms,
                allow_external_bind: self.allow_external_bind,
            },
        )
    }
}

/// Whether the address the listener got may be served: a loopback address
/// always, another one only when external binds are allowed.
pub fn check_bound_address(is_loopback: bool, allow_external_bind: bool) -> (r: Result<(), AgiError>)
    ensures
        (is_loopback || allow_external_bind) ==> r is Ok,
        !(is_loopback || allow_external_bind) ==> (r matches Err(e) && is_config_error(
            e,
            "external bind requires allow_external_bind(true) and network authentication"@,
        )),
{
    if !is_loopback && !allow_external_bind {
        return Err(
            AgiError::InvalidConfig {
                details: "external bind requires allow_external_bind(true) and network authentication".to_owned(),
            },
        );
    }
    Ok(())
}

/// The error for a request prelude that did not arrive in time.
pub fn prelude_timeout() -> (e: AgiError)
    ensures
        e matches AgiError::RequestTimeout { elapsed_ms } && elapsed_ms == PRELUDE_TIMEOUT_MS,
{
    AgiError::RequestTimeout { elapsed_ms: PRELUDE_TIMEOUT_MS }
}

} // verus!
