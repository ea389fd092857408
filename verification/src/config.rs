//! Startup configuration: the three values without which no connection is
//! made. Where they come from is the caller's business.

use vstd::prelude::*;

verus! {

/// The broker to connect to and the credential to present.
#[derive(Clone, Debug, PartialEq, Eq)]
pub struct Config {
    pub host: String,
    pub port: String,
    pub token: String,
}

/// The value whose absence stopped the startup.
#[derive(Clone, Copy, Debug, PartialEq, Eq, Structural)]
pub enum ConfigError {
    MissingHost,
    MissingPort,
    MissingToken,
}

impl ConfigError {
    /// The name of the environment variable that holds the missing value.
    pub open spec fn variable_text(self) -> Seq<char> {
        match self {
            ConfigError::MissingHost => "NATS_HOST"@,
            ConfigError::MissingPort => "NATS_PORT"@,
            ConfigError::MissingToken => "NATS_TOKEN"@,
        }
    }

    /// The name of the environment variable that holds the missing value.
    pub fn variable(&self) -> (name: &'static str)
        ensures
            name@ == self.variable_text(),
    {
        match self {
            ConfigError::MissingHost => "NATS_HOST",
            ConfigError::MissingPort => "NATS_PORT",
            ConfigError::MissingToken => "NATS_TOKEN",
        }
    }

    /// What to tell the operator.
    pub fn message(&self) -> (text: String)
        ensures
            text@ == self.variable_text() + " environment variable is required"@,
    {
        let mut text = self.variable().to_owned();
        text.append(" environment variable is required");
        text
    }
}

impl Config {
    /// Whether this configuration holds exactly the three given values.
    pub open spec fn holds(self, host: String, port: String, token: String) -> bool {
        self.host@ == host@ && self.port@ == port@ && self.token@ == token@
    }

    /// The address of the broker.
    pub open spec fn url_text(self) -> Seq<char> {
        "nats://"@ + self.host@ + ":"@ + self.port@
    }

    /// Makes a configuration of the three values, each of which may be
    /// missing. All three are required; the first that is missing, in the
    /// order host, port, token, is the one reported.
    pub fn from_values(host: Option<String>, port: Option<String>, token: Option<String>) -> (made:
        Result<Config, ConfigError>)
        ensures
            match made {
                Ok(config) => host is Some && port is Some && token is Some && config.holds(
                    host->0,
                    port->0,
                    token->0,
                ),
                Err(ConfigError::MissingHost) => host is None,
                Err(ConfigError::MissingPort) => host is Some && port is None,
                Err(ConfigError::MissingToken) => host is Some && port is Some && token is None,
            },
    {
        let host = match host {
            Some(host) => host,
            None => { return Err(ConfigError::MissingHost); },
        };
        let port = match port {
            Some(port) => port,
            None => { return Err(ConfigError::MissingPort); },
        };
        let token = match token {
            Some(token) => token,
            None => { return Err(ConfigError::MissingToken); },
        };
        Ok(Config { host, port, token })
    }

    /// The address of the broker: the scheme, the host, a colon, the port.
    pub fn url(&self) -> (url: String)
        ensures
            url@ == self.url_text(),
    {
        let mut url = "nats://".to_owned();
        url.append(self.host.as_str());
        url.append(":");
        url.append(self.port.as_str());
        url
    }
}

} // verus!
