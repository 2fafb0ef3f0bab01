//! Configuration of the storage process.
use vstd::prelude::*;
use vstd::string::*;

use crate::config::Values;

verus! {

pub struct FromArgs {}

impl crate::config::FromArgs for FromArgs {}

pub struct FromEnv {
    pub client: ClientConfig,
}

impl crate::config::FromEnv for FromEnv {
    open spec fn is_env_default(&self) -> bool {
        self.client.is_default()
    }

    fn default_env() -> (r: Self) {
        FromEnv { client: ClientConfig::default() }
    }
}

/// The storage process reads nothing from the configuration file.
pub struct FromFile {}

impl crate::config::FromFile for FromFile {}

pub struct Config {
    pub client: ClientConfig,
}

impl Values for Config {
    type TArgs = FromArgs;

    type TEnv = FromEnv;

    type TFile = FromFile;

    open spec fn spec_new(args: FromArgs, env: FromEnv) -> Config {
        Config { client: env.client }
    }

    open spec fn spec_import(self, file: FromFile) -> Config {
        self
    }

    open spec fn spec_export(self) -> FromFile {
        FromFile {  }
    }

    proof fn lemma_export_of_import(self, file: FromFile) {
    }

    proof fn lemma_import_own_export(self) {
    }

    proof fn lemma_import_overwrites(self, first: FromFile, second: FromFile) {
    }

    fn new(args: FromArgs, env: FromEnv) -> (r: Config) {
        Config { client: env.client }
    }

    fn import(&mut self, file: FromFile) {
    }

    fn export(&self) -> (r: FromFile) {
        FromFile {  }
    }

    fn duplicate(&self) -> (r: Config) {
        Config { client: self.client.duplicate() }
    }
}

/// How to reach the database.
#[derive(Clone, Debug)]
pub struct ClientConfig {
    pub auth: AuthConfig,
    pub connection: ConnectionConfig,
}

#[derive(Clone, Debug)]
pub struct AuthConfig {
    pub user: String,
    pub pass: String,
}

#[derive(Clone, Debug)]
pub enum ConnectionConfig {
    Websocket(WebsocketConnectionConfig),
    Embedded(EmbeddedConnectionConfig),
    Memory,
}

#[derive(Clone, Debug)]
pub struct WebsocketConnectionConfig {
    pub host: String,
    pub port: u32,
}

#[derive(Clone, Debug)]
pub struct EmbeddedConnectionConfig {
    pub path: Option<String>,
}

impl AuthConfig {
    pub open spec fn is_default(&self) -> bool {
        self.user@ == "double_star"@ && self.pass@ == "double_star"@
    }

    pub fn duplicate(&self) -> (r: AuthConfig)
        ensures
            r == *self,
    {
        AuthConfig { user: self.user.clone(), pass: self.pass.clone() }
    }
}

impl Default for AuthConfig {
    fn default() -> (r: AuthConfig)
        ensures
            r.is_default(),
    {
        AuthConfig { user: String::from_str("double_star"), pass: String::from_str("double_star") }
    }
}

impl WebsocketConnectionConfig {
    pub open spec fn is_default(&self) -> bool {
        self.host@ == "localhost"@ && self.port == 8000
    }

    pub fn duplicate(&self) -> (r: WebsocketConnectionConfig)
        ensures
            r == *self,
    {
        WebsocketConnectionConfig { host: self.host.clone(), port: self.port }
    }
}

impl Default for WebsocketConnectionConfig {
    fn default() -> (r: WebsocketConnectionConfig)
        ensures
            r.is_default(),
    {
        WebsocketConnectionConfig { host: String::from_str("localhost"), port: 8000 }
    }
}

impl EmbeddedConnectionConfig {
    pub fn duplicate(&self) -> (r: EmbeddedConnectionConfig)
        ensures
            r == *self,
    {
        EmbeddedConnectionConfig {
            path: match &self.path {
                Some(p) => Some(p.clone()),
                None => None,
            },
        }
    }
}

impl Default for EmbeddedConnectionConfig {
    fn default() -> (r: EmbeddedConnectionConfig)
        ensures
            r.path is None,
    {
        EmbeddedConnectionConfig { path: None }
    }
}

impl ConnectionConfig {
    pub open spec fn is_default(&self) -> bool {
        self matches ConnectionConfig::Websocket(w) && w.is_default()
    }

    pub fn duplicate(&self) -> (r: ConnectionConfig)
        ensures
            r == *self,
    {
        match self {
            ConnectionConfig::Websocket(w) => ConnectionConfig::Websocket(w.duplicate()),
            ConnectionConfig::Embedded(e) => ConnectionConfig::Embedded(e.duplicate()),
            ConnectionConfig::Memory => ConnectionConfig::Memory,
        }
    }
}

impl Default for ConnectionConfig {
    fn default() -> (r: ConnectionConfig)
        ensures
            r.is_default(),
    {
        ConnectionConfig::Websocket(WebsocketConnectionConfig::default())
    }
}

impl ClientConfig {
    pub open spec fn is_default(&self) -> bool {
        self.auth.is_default() && self.connection.is_default()
    }

    pub fn duplicate(&self) -> (r: ClientConfig)
        ensures
            r == *self,
    {
        ClientConfig { auth: self.auth.duplicate(), connection: self.connection.duplicate() }
    }
}

impl Default for ClientConfig {
    fn default() -> (r: ClientConfig)
        ensures
            r.is_default(),
    {
        ClientConfig { auth: AuthConfig::default(), connection: ConnectionConfig::default() }
    }
}

} // verus!
