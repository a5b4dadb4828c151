//! Secrets for clients that have none.

use vstd::prelude::*;
use crate::model::{ClientConfig, ClientModel, Config, ConfigModel, all_keys_present};

verus! {

/// The number of random bytes in a generated secret.
pub const KEY_BYTES: usize = 32;

/// The standard base64 text, with `=` padding, of a byte sequence.
pub uninterp spec fn base64_standard(b: Seq<u8>) -> Seq<char>;

/// Relies on base64's `general_purpose::STANDARD.encode`: the standard
/// alphabet with padding, four characters for each started group of three
/// bytes. It panics only where that length overflows `usize`.
#[verifier::external_body]
fn encode_standard(b: &[u8]) -> (r: String)
    requires
        b@.len() <= usize::MAX / 2,
    ensures
        r@ == base64_standard(b@),
        r@.len() == 4 * ((b@.len() + 2) / 3),
{
    base64::Engine::encode(&base64::engine::general_purpose::STANDARD, b)
}

/// Relies on rand's thread-local generator (`rand::rng`) and `Rng::fill`,
/// which fills a 32-byte array in place.
#[verifier::external_body]
fn random_key_bytes() -> (r: Vec<u8>)
    ensures
        r@.len() == KEY_BYTES,
{
    let mut key = [0u8; 32];
    rand::Rng::fill(&mut rand::rng(), &mut key[..]);
    key.to_vec()
}

/// `k` is the standard base64 text of some 32 bytes.
pub open spec fn is_encoded_key(k: Seq<char>) -> bool {
    exists|b: Seq<u8>| b.len() == KEY_BYTES && k == base64_standard(b)
}

/// The secret made of 32 given bytes: their standard base64 text, 44 characters.
pub fn private_key_from_bytes(bytes: &[u8]) -> (r: String)
    requires
        bytes@.len() == KEY_BYTES,
    ensures
        r@ == base64_standard(bytes@),
        r@.len() == 44,
{
    encode_standard(bytes)
}

/// A fresh secret: 32 random bytes in standard base64.
pub fn generate_private_key() -> (r: String)
    ensures
        is_encoded_key(r@),
        r@.len() == 44,
{
    let bytes = random_key_bytes();
    private_key_from_bytes(bytes.as_slice())
}

/// `new` is `old` with a secret given to each client that had none: the
/// server, the clients' order, names and addresses, and every secret that
/// was there stay as they were; each secret given is 32 bytes in base64.
pub open spec fn keys_filled(old: ConfigModel, new: ConfigModel) -> bool {
    &&& new.server == old.server
    &&& new.clients.len() == old.clients.len()
    &&& forall|i: int| 0 <= i < old.clients.len() ==> #[trigger] filled_client(old.clients[i], new.clients[i])
}

/// `n` is `o` with a secret given if `o` had none.
pub open spec fn filled_client(o: ClientModel, n: ClientModel) -> bool {
    &&& n.name == o.name
    &&& n.address == o.address
    &&& match o.private_key {
        Some(k) => n.private_key == Some(k),
        None => n.private_key is Some && is_encoded_key(n.private_key->Some_0),
    }
}

/// Gives a generated secret to each client that has none, in the clients'
/// order; a secret that is there is never replaced.
pub fn fill_missing_keys(config: &mut Config)
    ensures
        keys_filled(old(config)@, final(config)@),
        all_keys_present(final(config)@),
{
    let ghost start = config@;
    let n = config.client.len();
    let mut i: usize = 0;
    while i < n
        invariant
            n == config.client@.len(),
            n == start.clients.len(),
            i <= n,
            config@.server == start.server,
            forall|j: int| 0 <= j < i ==> filled_client(start.clients[j], #[trigger] config.client@[j]@),
            forall|j: int| i <= j < n ==> (#[trigger] config.client@[j])@ == start.clients[j],
        decreases n - i,
    {
        if config.client[i].private_key.is_none() {
            let key = generate_private_key();
            let c = ClientConfig {
                name: config.client[i].name.clone(),
                private_key: Some(key),
                address: config.client[i].address.clone(),
            };
            config.client.set(i, c);
        }
        i = i + 1;
    }
    proof {
        assert forall|j: int| 0 <= j < n implies #[trigger] filled_client(start.clients[j], config@.clients[j]) by {
            assert(config@.clients[j] == config.client@[j]@);
        }
    }
}

} // verus!
