//! Client connection profiles for a VPN server: the configuration model,
//! the key-fill policy for clients without a secret, and the byte-exact
//! rendering of each client's profile.

pub mod keys;
pub mod model;
pub mod profile;
pub mod qr;
pub mod template;

pub use keys::{KEY_BYTES, fill_missing_keys, generate_private_key, private_key_from_bytes};
pub use model::{ClientConfig, Config, ServerConfig};
pub use profile::{
    ClientOutput, RenderError, generate_client_config, profile_file_name, qr_file_name, render_profiles,
};
pub use qr::{QrCodeError, profile_qr_code};
pub use template::{placeholder, substitute_placeholder};
