//! ARI client configuration and its builder.
use vstd::prelude::*;
use url::Url;
use crate::text::{concat_str, dec, u64_to_string};

verus! {

/// `url::Url`
#[verifier::external_type_specification]
#[verifier::external_body]
pub struct ExUrl(Url);

/// What `url::Url::parse` makes of a string: the URL's serialization, or
/// the parse error's message.
pub uninterp spec fn url_parse(s: Seq<char>) -> Result<Seq<char>, Seq<char>>;

/// `url::Url::parse`, returning the parsed URL with its serialization
/// (`Url::as_str`), or the error's message (`to_string`).
#[verifier::external_body]
fn parse_url(s: &str) -> (r: Result<(Url, String), String>)
    ensures
        match r {
            Ok((_, t)) => url_parse(s@) == Ok::<Seq<char>, Seq<char>>(t@),
            Err(e) => url_parse(s@) == Err::<Seq<char>, Seq<char>>(e@),
        },
{
    match Url::parse(s) {
        Ok(u) => {
            let t = u.as_str().to_owned();
            Ok((u, t))
        },
        Err(e) => Err(e.to_string()),
    }
}

/// errors of ARI configuration
#[derive(Debug)]
pub enum AriError {
    InvalidUrl(String),
}

/// ARI connection configuration
pub struct AriConfig {
    pub base_url: Url,
    /// the serialization of `base_url`
    pub base_url_text: String,
    pub username: String,
    pub password: String,
    pub app_name: String,
    pub ws_url: Url,
    /// the serialization of `ws_url`
    pub ws_url_text: String,
}

/// builder for constructing an [`AriConfig`] with validation
pub struct AriConfigBuilder {
    pub host: String,
    pub port: u16,
    pub username: String,
    pub password: String,
    pub app_name: String,
    pub secure: bool,
}

/// The REST base URL a builder asks for.
pub open spec fn base_url_text(b: AriConfigBuilder) -> Seq<char> {
    (if b.secure { "https"@ } else { "http"@ }) + "://"@ + b.host@ + ":"@ + dec(b.port as nat) + "/ari"@
}

/// The WebSocket URL a builder asks for (it carries the credentials as the
/// API key).
pub open spec fn ws_url_text(b: AriConfigBuilder) -> Seq<char> {
    (if b.secure { "wss"@ } else { "ws"@ }) + "://"@ + b.host@ + ":"@ + dec(b.port as nat) + "/ari/events?app="@
        + b.app_name@ + "&api_key="@ + b.username@ + ":"@ + b.password@
}

impl AriConfigBuilder {
    /// `127.0.0.1:8088`, no credentials, plain HTTP, for the given
    /// application.
    pub fn new(app_name: &str) -> (r: Self)
        ensures
            r.host@ == "127.0.0.1"@,
            r.port == 8088,
            r.username@ == Seq::<char>::empty(),
            r.password@ == Seq::<char>::empty(),
            r.app_name@ == app_name@,
            !r.secure,
    {
        AriConfigBuilder {
            host: "127.0.0.1".to_owned(),
            port: 8088,
            username: String::new(),
            password: String::new(),
            app_name: app_name.to_owned(),
            secure: false,
        }
    }

    /// Sets the host.
    pub fn host(self, host: &str) -> (r: Self)
        ensures
            r.host@ == host@,
            r.port == self.port && r.username == self.username && r.password == self.password
                && r.app_name == self.app_name && r.secure == self.secure,
    {
        AriConfigBuilder { host: host.to_owned(), ..self }
    }

    /// Sets the port.
    pub fn port(self, port: u16) -> (r: Self)
        ensures
            r.port == port,
            r.host == self.host && r.username == self.username && r.password == self.password
                && r.app_name == self.app_name && r.secure == self.secure,
    {
        AriConfigBuilder { port, ..self }
    }

    /// Sets the user name.
    pub fn username(self, username: &str) -> (r: Self)
        ensures
            r.username@ == username@,
            r.host == self.host && r.port == self.port && r.password == self.password
                && r.app_name == self.app_name && r.secure == self.secure,
    {
        AriConfigBuilder { username: username.to_owned(), ..self }
    }

    /// Sets the password.
    pub fn password(self, password: &str) -> (r: Self)
        ensures
            r.password@ == password@,
            r.host == self.host && r.port == self.port && r.username == self.username
                && r.app_name == self.app_name && r.secure == self.secure,
    {
        AriConfigBuilder { password: password.to_owned(), ..self }
    }

    /// Sets the application name.
    pub fn app_name(self, app_name: &str) -> (r: Self)
        ensures
            r.app_name@ == app_name@,
            r.host == self.host && r.port == self.port && r.username == self.username
                && r.password == self.password && r.secure == self.secure,
    {
        AriConfigBuilder { app_name: app_name.to_owned(), ..self }
    }

    /// Selects HTTPS and WSS.
    pub fn secure(self, secure: bool) -> (r: Self)
        ensures
            r.secure == secure,
            r.host == self.host && r.port == self.port && r.username == self.username
                && r.password == self.password && r.app_name == self.app_name,
    {
        AriConfigBuilder { secure, ..self }
    }

    /// Builds the configuration: the application name must not be empty,
    /// and both URLs must parse.
    pub fn build(self) -> (r: Result<AriConfig, AriError>)
        ensures
            self.app_name@.len() == 0 ==> (r matches Err(AriError::InvalidUrl(m)) && m@
                == "app_name must not be empty"@),
            self.app_name@.len() > 0 ==> match url_parse(base_url_text(self)) {
                Err(m) => r matches Err(AriError::InvalidUrl(e)) && e@ == m,
                Ok(base) => match url_parse(ws_url_text(self)) {
                    Err(m) => r matches Err(AriError::InvalidUrl(e)) && e@ == m,
                    Ok(ws) => r matches Ok(c) && c.base_url_text@ == base && c.ws_url_text@ == ws
                        && c.username == self.username && c.password == self.password && c.app_name
                        == self.app_name,
                },
            },
    {
        if self.app_name.as_str().unicode_len() == 0 {
            return Err(AriError::InvalidUrl("app_name must not be empty".to_owned()));
        }
        let http_scheme = if self.secure { "https" } else { "http" };
        let ws_scheme = if self.secure { "wss" } else { "ws" };
        let port = u64_to_string(self.port as u64);
        let b1 = concat_str(http_scheme, "://");
        let b2 = concat_str(b1.as_str(), self.host.as_str());
        let b3 = concat_str(b2.as_str(), ":");
        let b4 = concat_str(b3.as_str(), port.as_str());
        let base_text = concat_str(b4.as_str(), "/ari");
        let (base_url, base_url_text) = match parse_url(base_text.as_str()) {
            Ok(p) => p,
            Err(e) => return Err(AriError::InvalidUrl(e)),
        };
        let w1 = concat_str(ws_scheme, "://");
        let w2 = concat_str(w1.as_str(), self.host.as_str());
        let w3 = concat_str(w2.as_str(), ":");
        let w4 = concat_str(w3.as_str(), port.as_str());
        let w5 = concat_str(w4.as_str(), "/ari/events?app=");
        let w6 = concat_str(w5.as_str(), self.app_name.as_str());
        let w7 = concat_str(w6.as_str(), "&api_key=");
        let w8 = concat_str(w7.as_str(), self.username.as_str());
        let w9 = concat_str(w8.as_str(), ":");
        let ws_text = concat_str(w9.as_str(), self.password.as_str());
        let (ws_url, ws_url_text) = match parse_url(ws_text.as_str()) {
            Ok(p) => p,
            Err(e) => return Err(AriError::InvalidUrl(e)),
        };
        Ok(
            AriConfig {
                base_url,
                base_url_text,
                username: self.username,
                password: self.password,
                app_name: self.app_name,
                ws_url,
                ws_url_text,
            },
        )
    }
}

} // verus!
