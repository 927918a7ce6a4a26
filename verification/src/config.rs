//! An accumulating builder that validates required fields and produces an
//! immutable configuration, or a typed error.

use vstd::prelude::*;
use vstd::string::StringExecFns;
use crate::errors::AppError;
use crate::variant::Maybe;
use crate::variant::Outcome;

verus! {

/// The port a configuration gets when none was set.
pub const DEFAULT_PORT: u16 = 8080;

/// The timeout a configuration gets when none was set.
pub const DEFAULT_TIMEOUT: u64 = 30;

/// A mutable accumulator for the fields of a [`Config`]. Each setter
/// consumes the builder and hands it back, so calls chain by ownership
/// transfer; `build` is the terminal operation and consumes it for good.
pub struct ConfigBuilder {
    host: Maybe<String>,
    port: Maybe<u16>,
    timeout: Maybe<u64>,
}

impl ConfigBuilder {
    /// The accumulated host, if one was set.
    pub closed spec fn spec_host(&self) -> Maybe<Seq<char>> {
        match self.host {
            Maybe::Present(h) => Maybe::Present(h@),
            Maybe::Absent => Maybe::Absent,
        }
    }

    /// The accumulated port, if one was set.
    pub closed spec fn spec_port(&self) -> Maybe<u16> {
        self.port
    }

    /// The accumulated timeout, if one was set.
    pub closed spec fn spec_timeout(&self) -> Maybe<u64> {
        self.timeout
    }

    /// A builder with every field unset.
    pub fn new() -> (r: ConfigBuilder)
        ensures
            r.spec_host() is Absent,
            r.spec_port() is Absent,
            r.spec_timeout() is Absent,
    {
        ConfigBuilder { host: Maybe::Absent, port: Maybe::Absent, timeout: Maybe::Absent }
    }

    /// Sets the host, overwriting any earlier value.
    pub fn host(self, host: String) -> (r: ConfigBuilder)
        ensures
            r.spec_host() == Maybe::Present(host@),
            r.spec_port() == self.spec_port(),
            r.spec_timeout() == self.spec_timeout(),
    {
        ConfigBuilder { host: Maybe::Present(host), ..self }
    }

    /// Sets the port, overwriting any earlier value.
    pub fn port(self, port: u16) -> (r: ConfigBuilder)
        ensures
            r.spec_host() == self.spec_host(),
            r.spec_port() == Maybe::Present(port),
            r.spec_timeout() == self.spec_timeout(),
    {
        ConfigBuilder { port: Maybe::Present(port), ..self }
    }

    /// Sets the timeout, overwriting any earlier value.
    pub fn timeout(self, timeout: u64) -> (r: ConfigBuilder)
        ensures
            r.spec_host() == self.spec_host(),
            r.spec_port() == self.spec_port(),
            r.spec_timeout() == Maybe::Present(timeout),
    {
        ConfigBuilder { timeout: Maybe::Present(timeout), ..self }
    }

    /// Validates the accumulated fields and produces the configuration.
    ///
    /// The host is required: without it the outcome is an `InvalidInput`
    /// failure and no configuration is observable. The port and the timeout
    /// default to [`DEFAULT_PORT`] and [`DEFAULT_TIMEOUT`] when unset. No
    /// range check is applied to either: only the presence of the host is
    /// validated.
    pub fn build(self) -> (r: Outcome<Config, AppError>)
        ensures
            self.spec_host() is Absent ==> (r matches Outcome::Failure(AppError::InvalidInput(m))
                && m@ == "Host is required"@),
            self.spec_host() matches Maybe::Present(h) ==> (r matches Outcome::Success(c)
                && c.spec_host() == h && c.spec_port() == self.spec_port().spec_get_or(DEFAULT_PORT)
                && c.spec_timeout() == self.spec_timeout().spec_get_or(DEFAULT_TIMEOUT)),
    {
        let host = match self.host {
            Maybe::Present(h) => h,
            Maybe::Absent => {
                return Outcome::Failure(
                    AppError::InvalidInput(String::from_str("Host is required")),
                );
            },
        };
        let port = match self.port {
            Maybe::Present(p) => p,
            Maybe::Absent => DEFAULT_PORT,
        };
        let timeout = match self.timeout {
            Maybe::Present(t) => t,
            Maybe::Absent => DEFAULT_TIMEOUT,
        };
        Outcome::Success(Config { host, port, timeout })
    }
}

/// An immutable configuration. Created only by a successful
/// [`ConfigBuilder::build`]; it has no setters.
pub struct Config {
    host: String,
    port: u16,
    timeout: u64,
}

impl Config {
    /// The configured host.
    pub closed spec fn spec_host(&self) -> Seq<char> {
        self.host@
    }

    /// The configured port.
    pub closed spec fn spec_port(&self) -> u16 {
        self.port
    }

    /// The configured timeout.
    pub closed spec fn spec_timeout(&self) -> u64 {
        self.timeout
    }

    /// Borrows the host.
    pub fn get_host(&self) -> (r: &str)
        ensures
            r@ == self.spec_host(),
    {
        self.host.as_str()
    }

    /// The port.
    pub fn get_port(&self) -> (r: u16)
        ensures
            r == self.spec_port(),
    {
        self.port
    }

    /// The timeout.
    pub fn get_timeout(&self) -> (r: u64)
        ensures
            r == self.spec_timeout(),
    {
        self.timeout
    }
}

} // verus!
