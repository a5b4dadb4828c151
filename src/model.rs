//! The configuration: one server and the ordered list of its clients.

use vstd::prelude::*;

verus! {

/// The server that every client profile points at.
#[derive(Clone, Debug, PartialEq, Eq)]
pub struct ServerConfig {
    pub host: String,
    /// Kept as written: it is not checked to be a number.
    pub port: String,
    pub dns: String,
    /// A template holding the `{address}` placeholder.
    pub subnet: String,
    pub public_key: String,
}

/// One client of the server.
#[derive(Clone, Debug, PartialEq, Eq)]
pub struct ClientConfig {
    /// Names the client's output files.
    pub name: String,
    /// The client's secret; absent until one is generated.
    pub private_key: Option<String>,
    /// What the server's subnet template receives in place of its placeholder.
    pub address: String,
}

/// The whole configuration; the order of the clients is kept throughout.
#[derive(Clone, Debug, PartialEq, Eq)]
pub struct Config {
    pub server: ServerConfig,
    pub client: Vec<ClientConfig>,
}

/// What a server is, as text.
pub struct ServerModel {
    pub host: Seq<char>,
    pub port: Seq<char>,
    pub dns: Seq<char>,
    pub subnet: Seq<char>,
    pub public_key: Seq<char>,
}

/// What a client is, as text.
pub struct ClientModel {
    pub name: Seq<char>,
    pub private_key: Option<Seq<char>>,
    pub address: Seq<char>,
}

/// What a configuration is: its server and its clients in order.
pub struct ConfigModel {
    pub server: ServerModel,
    pub clients: Seq<ClientModel>,
}

impl View for ServerConfig {
    type V = ServerModel;

    open spec fn view(&self) -> ServerModel {
        ServerModel {
            host: self.host@,
            port: self.port@,
            dns: self.dns@,
            subnet: self.subnet@,
            public_key: self.public_key@,
        }
    }
}

/// The text of an optional secret.
pub open spec fn key_view(k: Option<String>) -> Option<Seq<char>> {
    match k {
        Some(s) => Some(s@),
        None => None,
    }
}

impl View for ClientConfig {
    type V = ClientModel;

    open spec fn view(&self) -> ClientModel {
        ClientModel { name: self.name@, private_key: key_view(self.private_key), address: self.address@ }
    }
}

impl View for Config {
    type V = ConfigModel;

    open spec fn view(&self) -> ConfigModel {
        ConfigModel { server: self.server@, clients: self.client@.map_values(|c: ClientConfig| c@) }
    }
}

/// Every client of `m` has a secret.
pub open spec fn all_keys_present(m: ConfigModel) -> bool {
    forall|i: int| 0 <= i < m.clients.len() ==> (#[trigger] m.clients[i]).private_key is Some
}

} // verus!
