//! Settings that a pipeline configuration is made of, and what can be wrong
//! with one.

use vstd::prelude::*;
use vstd::std_specs::convert::FromSpecImpl;

verus! {

/// What is wrong with a configuration.
#[derive(Debug, Clone, Copy, PartialEq, Eq, Structural)]
pub enum ValidationError {
    /// TLS is switched on and no trusted root certificate is given.
    MissingTrustedRootCerts,
    /// No table sync worker may run.
    MaxTableSyncWorkersZero,
    /// No attempt is allowed after a table error.
    TableErrorRetryMaxAttemptsZero,
    /// The slot prefix is empty.
    SlotPrefixEmpty,
    /// The slot prefix takes more bytes than allowed.
    SlotPrefixTooLong { max_length: usize, actual_length: usize },
}

/// TLS settings of a connection.
#[derive(Debug, Clone)]
pub struct TlsConfig {
    /// Trusted root certificates, in PEM.
    pub trusted_root_certs: String,
    /// Whether the connection uses TLS.
    pub enabled: bool,
}

impl TlsConfig {
    /// True when the settings can be used: with TLS switched on there is a
    /// trusted root certificate.
    pub open spec fn is_acceptable(&self) -> bool {
        self.enabled ==> self.trusted_root_certs@.len() > 0
    }

    /// Checks the settings.
    pub fn validate(&self) -> (result: Result<(), ValidationError>)
        ensures
            result == if self.is_acceptable() {
                Ok::<(), ValidationError>(())
            } else {
                Err(ValidationError::MissingTrustedRootCerts)
            },
    {
        if self.enabled && self.trusted_root_certs.as_str().is_empty() {
            return Err(ValidationError::MissingTrustedRootCerts);
        }
        Ok(())
    }
}

/// How to connect to a Postgres instance.
#[derive(Debug, Clone)]
pub struct PgConnectionConfig {
    /// Host name or address of the server.
    pub host: String,
    /// Port of the server.
    pub port: u16,
    /// Name of the database.
    pub name: String,
    /// User to connect as.
    pub username: String,
    /// Password of the user, if one is needed.
    pub password: Option<String>,
    /// TLS settings.
    pub tls: TlsConfig,
}

/// A [`PgConnectionConfig`] without the password.
#[derive(Debug, Clone)]
pub struct PgConnectionConfigWithoutSecrets {
    /// Host name or address of the server.
    pub host: String,
    /// Port of the server.
    pub port: u16,
    /// Name of the database.
    pub name: String,
    /// User to connect as.
    pub username: String,
    /// TLS settings.
    pub tls: TlsConfig,
}

impl PgConnectionConfig {
    /// The same settings without the password.
    pub open spec fn without_secrets(self) -> PgConnectionConfigWithoutSecrets {
        PgConnectionConfigWithoutSecrets {
            host: self.host,
            port: self.port,
            name: self.name,
            username: self.username,
            tls: self.tls,
        }
    }
}

impl From<PgConnectionConfig> for PgConnectionConfigWithoutSecrets {
    /// Keeps every setting but the password.
    fn from(value: PgConnectionConfig) -> (stripped: Self) {
        PgConnectionConfigWithoutSecrets {
            host: value.host,
            port: value.port,
            name: value.name,
            username: value.username,
            tls: value.tls,
        }
    }
}

impl FromSpecImpl<PgConnectionConfig> for PgConnectionConfigWithoutSecrets {
    open spec fn obeys_from_spec() -> bool {
        true
    }

    open spec fn from_spec(value: PgConnectionConfig) -> Self {
        value.without_secrets()
    }
}

/// How changes are gathered into batches.
#[derive(Debug, Clone)]
pub struct BatchConfig {
    /// Largest number of items in a batch.
    pub max_size: usize,
    /// Longest time, in milliseconds, to wait for a batch to fill.
    pub max_fill_ms: u64,
}

} // verus!
