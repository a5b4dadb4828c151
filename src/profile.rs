//! The text of a client's connection profile, and the files it goes to.

use vstd::prelude::*;
use vstd::string::*;
use crate::model::{ClientConfig, ClientModel, Config, ConfigModel, ServerConfig, ServerModel, all_keys_present};
use crate::template::{substituted, substitute_placeholder};

verus! {

/// Why a profile could not be rendered.
#[derive(Clone, Debug, PartialEq, Eq)]
pub enum RenderError {
    /// The named client has no secret: keys must be filled in first.
    MissingPrivateKey(String),
}

/// The profile text, given its six fields.
pub open spec fn profile_text(
    key: Seq<char>,
    address: Seq<char>,
    dns: Seq<char>,
    public_key: Seq<char>,
    host: Seq<char>,
    port: Seq<char>,
) -> Seq<char> {
    "[Interface]\nPrivateKey = "@ + key + "\nAddress = "@ + address + "\nDNS = "@ + dns
        + "\n\n[Peer]\nPublicKey = "@ + public_key + "\nEndpoint = "@ + host + ":"@ + port
        + "\nAllowedIPs = 0.0.0.0/0\nPersistentKeepalive = 25\n"@
}

/// The profile of client `c` of server `s`; `None` where `c` has no secret.
pub open spec fn rendered(c: ClientModel, s: ServerModel) -> Option<Seq<char>> {
    match c.private_key {
        Some(k) => Some(profile_text(k, substituted(s.subnet, c.address), s.dns, s.public_key, s.host, s.port)),
        None => None,
    }
}

/// Renders the profile of `client` for `server`. It fails, naming the
/// client, exactly where the client has no secret.
pub fn generate_client_config(client: &ClientConfig, server: &ServerConfig) -> (r: Result<String, RenderError>)
    ensures
        r is Ok <==> client@.private_key is Some,
        r is Ok ==> Some(r->Ok_0@) == rendered(client@, server@),
        r is Err ==> r->Err_0->MissingPrivateKey_0@ == client.name@,
{
    match &client.private_key {
        None => Err(RenderError::MissingPrivateKey(client.name.clone())),
        Some(key) => {
            let address = substitute_placeholder(server.subnet.as_str(), client.address.as_str());
            let mut t = String::from_str("[Interface]\nPrivateKey = ");
            t.append(key.as_str());
            t.append("\nAddress = ");
            t.append(address.as_str());
            t.append("\nDNS = ");
            t.append(server.dns.as_str());
            t.append("\n\n[Peer]\nPublicKey = ");
            t.append(server.public_key.as_str());
            t.append("\nEndpoint = ");
            t.append(server.host.as_str());
            t.append(":");
            t.append(server.port.as_str());
            t.append("\nAllowedIPs = 0.0.0.0/0\nPersistentKeepalive = 25\n");
            Ok(t)
        },
    }
}

/// Rendering depends on the client and the server alone: equal inputs give
/// the same profile, character for character, or fail alike.
pub proof fn lemma_rendering_is_pure(c1: ClientConfig, c2: ClientConfig, s1: ServerConfig, s2: ServerConfig)
    requires
        c1@ == c2@,
        s1@ == s2@,
    ensures
        rendered(c1@, s1@) == rendered(c2@, s2@),
{
}

/// The name of the file that holds a client's profile: `<name>.conf`.
pub fn profile_file_name(name: &str) -> (r: String)
    ensures
        r@ == name@ + ".conf"@,
{
    String::from_str(name).concat(".conf")
}

/// The name of the file that holds the image of a client's profile: `<name>_qr.png`.
pub fn qr_file_name(name: &str) -> (r: String)
    ensures
        r@ == name@ + "_qr.png"@,
{
    String::from_str(name).concat("_qr.png")
}

/// What one client's run writes: its profile, and the names of the two files
/// that receive the profile and its image.
#[derive(Clone, Debug, PartialEq, Eq)]
pub struct ClientOutput {
    pub config_file: String,
    pub qr_file: String,
    pub profile: String,
}

/// `o` is what client `c` of server `s` writes.
pub open spec fn output_of(o: ClientOutput, c: ClientModel, s: ServerModel) -> bool {
    &&& o.config_file@ == c.name + ".conf"@
    &&& o.qr_file@ == c.name + "_qr.png"@
    &&& Some(o.profile@) == rendered(c, s)
}

/// `i` is the first client of `m` without a secret.
pub open spec fn first_missing_key(m: ConfigModel, i: int) -> bool {
    &&& 0 <= i < m.clients.len()
    &&& m.clients[i].private_key is None
    &&& forall|j: int| 0 <= j < i ==> (#[trigger] m.clients[j]).private_key is Some
}

/// Renders every client's profile, in the clients' order, with the names of
/// its two files. It fails, naming the first client without a secret,
/// exactly where some client has none.
pub fn render_profiles(config: &Config) -> (r: Result<Vec<ClientOutput>, RenderError>)
    ensures
        r is Ok <==> all_keys_present(config@),
        r is Ok ==> r->Ok_0@.len() == config.client@.len(),
        r is Ok ==> forall|i: int| 0 <= i < config.client@.len()
            ==> output_of(#[trigger] r->Ok_0@[i], config@.clients[i], config@.server),
        r is Err ==> exists|i: int| first_missing_key(config@, i)
            && r->Err_0->MissingPrivateKey_0@ == config@.clients[i].name,
{
    let n = config.client.len();
    let mut out: Vec<ClientOutput> = Vec::new();
    let mut i: usize = 0;
    while i < n
        invariant
            n == config.client@.len(),
            i <= n,
            out@.len() == i,
            forall|j: int| 0 <= j < i ==> output_of(#[trigger] out@[j], config@.clients[j], config@.server),
            forall|j: int| 0 <= j < i ==> (#[trigger] config@.clients[j]).private_key is Some,
        decreases n - i,
    {
        let c = &config.client[i];
        assert(config@.clients[i as int] == c@);
        match generate_client_config(c, &config.server) {
            Ok(profile) => {
                let o = ClientOutput {
                    config_file: profile_file_name(c.name.as_str()),
                    qr_file: qr_file_name(c.name.as_str()),
                    profile,
                };
                out.push(o);
            },
            Err(e) => {
                assert(first_missing_key(config@, i as int));
                return Err(e);
            },
        }
        i = i + 1;
    }
    Ok(out)
}

} // verus!
