//! Settings of an AMI client, checked before any connection is made.
use vstd::prelude::*;
use crate::ami::error::{AmiError, AuthError};
use crate::secret::Credentials;
use crate::text::{dec, concat_str, u64_to_string};

verus! {

/// The default AMI port.
pub const DEFAULT_PORT: u16 = 5038;

/// The default action timeout (ms).
pub const DEFAULT_TIMEOUT_MS: u64 = 30000;

/// The default deadline for connecting and logging in (ms).
pub const DEFAULT_CONNECT_TIMEOUT_MS: u64 = 30000;

/// Abstract content of a client builder.
#[verifier::ext_equal]
pub struct BuilderView {
    pub host: Seq<char>,
    pub port: u16,
    pub credentials: Option<(Seq<char>, Seq<char>)>,
    pub timeout_ms: u64,
    pub connect_timeout_ms: u64,
    pub event_capacity: usize,
    pub ping_interval_ms: Option<u64>,
    pub require_challenge: bool,
}

/// builder for an AMI client
pub struct AmiClientBuilder {
    host: String,
    port: u16,
    credentials: Option<Credentials>,
    timeout_ms: u64,
    connect_timeout_ms: u64,
    event_capacity: usize,
    ping_interval_ms: Option<u64>,
    require_challenge: bool,
}

impl View for AmiClientBuilder {
    type V = BuilderView;

    closed spec fn view(&self) -> BuilderView {
        BuilderView {
            host: self.host@,
            port: self.port,
            credentials: match self.credentials {
                Some(c) => Some((c.username_view(), c.secret_view())),
                None => None,
            },
            timeout_ms: self.timeout_ms,
            connect_timeout_ms: self.connect_timeout_ms,
            event_capacity: self.event_capacity,
            ping_interval_ms: self.ping_interval_ms,
            require_challenge: self.require_challenge,
        }
    }
}

/// The settings a client connects with.
pub struct ClientSettings {
    /// `host:port`
    pub address: String,
    pub credentials: Credentials,
    pub timeout_ms: u64,
    pub connect_timeout_ms: u64,
    pub event_capacity: usize,
    pub ping_interval_ms: Option<u64>,
    pub require_challenge: bool,
}

/// Why settings are refused, checked in this order.
pub enum SettingsFault {
    NoCredentials,
    ZeroEventCapacity,
    ZeroTimeout,
    ZeroConnectTimeout,
    ZeroPingInterval,
}

/// The first reason a builder's settings are refused, if any.
pub open spec fn settings_fault(b: BuilderView) -> Option<SettingsFault> {
    if b.credentials is None {
        Some(SettingsFault::NoCredentials)
    } else if b.event_capacity == 0 {
        Some(SettingsFault::ZeroEventCapacity)
    } else if b.timeout_ms == 0 {
        Some(SettingsFault::ZeroTimeout)
    } else if b.connect_timeout_ms == 0 {
        Some(SettingsFault::ZeroConnectTimeout)
    } else if b.ping_interval_ms == Some(0u64) {
        Some(SettingsFault::ZeroPingInterval)
    } else {
        None
    }
}

/// The error for a refused setting.
pub open spec fn settings_error_is(e: AmiError, f: SettingsFault) -> bool {
    match f {
        SettingsFault::NoCredentials => e matches AmiError::Auth(AuthError::InvalidCredentials),
        SettingsFault::ZeroEventCapacity => e matches AmiError::InvalidConfig { details }
            && details@ == "event_capacity must be greater than zero"@,
        SettingsFault::ZeroTimeout => e matches AmiError::InvalidConfig { details }
            && details@ == "timeout must be greater than zero"@,
        SettingsFault::ZeroConnectTimeout => e matches AmiError::InvalidConfig { details }
            && details@ == "connect_timeout must be greater than zero"@,
        SettingsFault::ZeroPingInterval => e matches AmiError::InvalidConfig { details }
            && details@ == "ping_interval must be greater than zero"@,
    }
}

impl AmiClientBuilder {
    /// `127.0.0.1:5038`, no credentials, 30 s timeouts, 1024 buffered
    /// events, no keep-alive, plaintext login fallback allowed.
    pub fn new() -> (r: Self)
        ensures
            r@.host == "127.0.0.1"@,
            r@.port == DEFAULT_PORT,
            r@.credentials is None,
            r@.timeout_ms == DEFAULT_TIMEOUT_MS,
            r@.connect_timeout_ms == DEFAULT_CONNECT_TIMEOUT_MS,
            r@.event_capacity == 1024,
            r@.ping_interval_ms is None,
            !r@.require_challenge,
    {
        AmiClientBuilder {
            host: "127.0.0.1".to_owned(),
            port: DEFAULT_PORT,
            credentials: None,
            timeout_ms: DEFAULT_TIMEOUT_MS,
            connect_timeout_ms: DEFAULT_CONNECT_TIMEOUT_MS,
            event_capacity: 1024,
            ping_interval_ms: None,
            require_challenge: false,
        }
    }

    /// Sets the Asterisk host.
    pub fn host(self, host: &str) -> (r: Self)
        ensures
            r@ == (BuilderView { host: host@, ..self@ }),
    {
        AmiClientBuilder { host: host.to_owned(), ..self }
    }

    /// Sets the AMI port.
    pub fn port(self, port: u16) -> (r: Self)
        ensures
            r@ == (BuilderView { port, ..self@ }),
    {
        AmiClientBuilder { port, ..self }
    }

    /// Sets the login credentials.
    pub fn credentials(self, username: &str, secret: &str) -> (r: Self)
        ensures
            r@ == (BuilderView { credentials: Some((username@, secret@)), ..self@ }),
    {
        AmiClientBuilder { credentials: Some(Credentials::new(username, secret)), ..self }
    }

    /// Sets the action response timeout (ms).
    pub fn timeout(self, timeout_ms: u64) -> (r: Self)
        ensures
            r@ == (BuilderView { timeout_ms, ..self@ }),
    {
        AmiClientBuilder { timeout_ms, ..self }
    }

    /// Sets the deadline for the initial connection and login (ms).
    pub fn connect_timeout(self, timeout_ms: u64) -> (r: Self)
        ensures
            r@ == (BuilderView { connect_timeout_ms: timeout_ms, ..self@ }),
    {
        AmiClientBuilder { connect_timeout_ms: timeout_ms, ..self }
    }

    /// Sets the event channel buffer capacity.
    pub fn event_capacity(self, capacity: usize) -> (r: Self)
        ensures
            r@ == (BuilderView { event_capacity: capacity, ..self@ }),
    {
        AmiClientBuilder { event_capacity: capacity, ..self }
    }

    /// Requires MD5 challenge authentication instead of allowing a
    /// plaintext login fallback.
    pub fn require_challenge(self, require: bool) -> (r: Self)
        ensures
            r@ == (BuilderView { require_challenge: require, ..self@ }),
    {
        AmiClientBuilder { require_challenge: require, ..self }
    }

    /// Sets the interval of keep-alive pings (ms).
    pub fn ping_interval(self, interval_ms: u64) -> (r: Self)
        ensures
            r@ == (BuilderView { ping_interval_ms: Some(interval_ms), ..self@ }),
    {
        AmiClientBuilder { ping_interval_ms: Some(interval_ms), ..self }
    }

    /// Checks the settings: credentials present, and the capacity, the
    /// timeouts and the keep-alive interval non-zero.
    pub fn settings(self) -> (r: Result<ClientSettings, AmiError>)
        ensures
            match settings_fault(self@) {
                Some(f) => r matches Err(e) && settings_error_is(e, f),
                None => r matches Ok(s) && s.address@ == self@.host + ":"@ + dec(self@.port as nat)
                    && Some((s.credentials.username_view(), s.credentials.secret_view())) == self@.credentials
                    && s.timeout_ms == self@.timeout_ms && s.connect_timeout_ms == self@.connect_timeout_ms
                    && s.event_capacity == self@.event_capacity && s.ping_interval_ms == self@.ping_interval_ms
                    && s.require_challenge == self@.require_challenge,
            },
    {
        let credentials = match self.credentials {
            Some(c) => c,
            None => return Err(AmiError::Auth(AuthError::InvalidCredentials)),
        };
        if self.event_capacity == 0 {
            return Err(AmiError::InvalidConfig { details: "event_capacity must be greater than zero".to_owned() });
        }
        if self.timeout_ms == 0 {
            return Err(AmiError::InvalidConfig { details: "timeout must be greater than zero".to_owned() });
        }
        if self.connect_timeout_ms == 0 {
            return Err(AmiError::InvalidConfig { details: "connect_timeout must be greater than zero".to_owned() });
        }
        if self.ping_interval_ms == Some(0u64) {
            return Err(AmiError::InvalidConfig { details: "ping_interval must be greater than zero".to_owned() });
        }
        let host_colon = concat_str(self.host.as_str(), ":");
        let port = u64_to_string(self.port as u64);
        let address = concat_str(host_colon.as_str(), port.as_str());
        Ok(
            ClientSettings {
                address,
                credentials,
                timeout_ms: self.timeout_ms,
                connect_timeout_ms: self.connect_timeout_ms,
                event_capacity: self.event_capacity,
                ping_interval_ms: self.ping_interval_ms,
                require_challenge: self.require_challenge,
            },
        )
    }
}

} // verus!
