use base64::Engine;
use wg_profiles::{
    ClientConfig, Config, RenderError, ServerConfig, KEY_BYTES, fill_missing_keys, generate_client_config,
    QrCodeError, generate_private_key, placeholder, private_key_from_bytes, profile_file_name, profile_qr_code,
    qr_file_name, render_profiles,
    substitute_placeholder,
};

fn example_server() -> ServerConfig {
    ServerConfig {
        host: "vpn.example.com".to_string(),
        port: "51820".to_string(),
        dns: "1.1.1.1".to_string(),
        subnet: "10.0.0.{address}/24".to_string(),
        public_key: "SERVERPUBKEY".to_string(),
    }
}

fn client(name: &str, key: Option<&str>, address: &str) -> ClientConfig {
    ClientConfig { name: name.to_string(), private_key: key.map(|k| k.to_string()), address: address.to_string() }
}

fn decoded_len(key: &str) -> usize {
    base64::engine::general_purpose::STANDARD.decode(key).expect("standard base64").len()
}

#[test]
fn scenario_alice_without_key() {
    let mut config = Config { server: example_server(), client: vec![client("alice", None, "5")] };
    fill_missing_keys(&mut config);
    let key = config.client[0].private_key.clone().expect("a key was generated");
    assert_eq!(decoded_len(&key), 32);
    assert_eq!(config.client[0].name, "alice");
    let outputs = render_profiles(&config).expect("every client has a key");
    assert_eq!(outputs.len(), 1);
    assert_eq!(outputs[0].config_file, "alice.conf");
    assert_eq!(outputs[0].qr_file, "alice_qr.png");
    let lines: Vec<&str> = outputs[0].profile.lines().collect();
    assert!(lines.contains(&"Address = 10.0.0.5/24"));
    assert!(lines.contains(&"Endpoint = vpn.example.com:51820"));
    assert!(lines.contains(&format!("PrivateKey = {}", key).as_str()));
}

#[test]
fn profile_is_byte_exact() {
    let c = client("bob", Some("CLIENTKEY"), "7");
    let text = generate_client_config(&c, &example_server()).unwrap();
    let expected = "[Interface]\nPrivateKey = CLIENTKEY\nAddress = 10.0.0.7/24\nDNS = 1.1.1.1\n\n\
                    [Peer]\nPublicKey = SERVERPUBKEY\nEndpoint = vpn.example.com:51820\n\
                    AllowedIPs = 0.0.0.0/0\nPersistentKeepalive = 25\n";
    assert_eq!(text, expected);
}

#[test]
fn rendering_twice_gives_the_same_text() {
    let c = client("carol", Some("K"), "9");
    let a = generate_client_config(&c, &example_server()).unwrap();
    let b = generate_client_config(&c, &example_server()).unwrap();
    assert_eq!(a, b);
}

#[test]
fn rendering_without_key_names_the_client() {
    let c = client("dave", None, "3");
    assert_eq!(generate_client_config(&c, &example_server()), Err(RenderError::MissingPrivateKey("dave".to_string())));
}

#[test]
fn render_profiles_names_first_client_without_key() {
    let config = Config {
        server: example_server(),
        client: vec![client("a", Some("K"), "1"), client("b", None, "2"), client("c", None, "3")],
    };
    assert_eq!(render_profiles(&config), Err(RenderError::MissingPrivateKey("b".to_string())));
}

#[test]
fn existing_keys_are_kept() {
    let mut config = Config {
        server: example_server(),
        client: vec![client("a", Some("KEEPME"), "1"), client("b", None, "2"), client("c", Some("ALSO"), "3")],
    };
    let server_before = config.server.clone();
    fill_missing_keys(&mut config);
    assert_eq!(config.server, server_before);
    assert_eq!(config.client[0].private_key.as_deref(), Some("KEEPME"));
    assert_eq!(config.client[2].private_key.as_deref(), Some("ALSO"));
    let generated = config.client[1].private_key.clone().unwrap();
    assert_eq!(decoded_len(&generated), 32);
    let names: Vec<&str> = config.client.iter().map(|c| c.name.as_str()).collect();
    assert_eq!(names, vec!["a", "b", "c"]);
}

#[test]
fn filling_an_empty_client_list_changes_nothing() {
    let mut config = Config { server: example_server(), client: vec![] };
    fill_missing_keys(&mut config);
    assert!(config.client.is_empty());
    assert_eq!(render_profiles(&config), Ok(vec![]));
}

#[test]
fn duplicate_names_share_output_files() {
    let mut config =
        Config { server: example_server(), client: vec![client("same", None, "1"), client("same", None, "2")] };
    fill_missing_keys(&mut config);
    let outputs = render_profiles(&config).unwrap();
    assert_eq!(outputs[0].config_file, outputs[1].config_file);
    assert_eq!(outputs[0].qr_file, outputs[1].qr_file);
    assert_ne!(outputs[0].profile, outputs[1].profile);
}

#[test]
fn substitution_replaces_only_the_first_placeholder() {
    assert_eq!(substitute_placeholder("a{address}b{address}", "5"), "a5b{address}");
}

#[test]
fn substitution_keeps_template_without_placeholder() {
    assert_eq!(substitute_placeholder("10.0.0.0/24", "5"), "10.0.0.0/24");
    assert_eq!(substitute_placeholder("", "5"), "");
    assert_eq!(substitute_placeholder("{addres}", "5"), "{addres}");
}

#[test]
fn substitution_at_the_edges() {
    assert_eq!(substitute_placeholder("{address}", "fd00::1"), "fd00::1");
    assert_eq!(substitute_placeholder("x{{address}}", ""), "x{}");
}

#[test]
fn placeholder_token() {
    assert_eq!(placeholder(), "{address}");
}

#[test]
fn key_from_zero_bytes() {
    let key = private_key_from_bytes(&[0u8; 32]);
    assert_eq!(key, "AAAAAAAAAAAAAAAAAAAAAAAAAAAAAAAAAAAAAAAAAAA=");
}

#[test]
fn key_from_counting_bytes() {
    let bytes: Vec<u8> = (0u8..32).collect();
    let key = private_key_from_bytes(&bytes);
    assert_eq!(key, "AAECAwQFBgcICQoLDA0ODxAREhMUFRYXGBkaGxwdHh8=");
    assert_eq!(base64::engine::general_purpose::STANDARD.decode(&key).unwrap(), bytes);
}

#[test]
fn generated_keys_are_fresh() {
    let a = generate_private_key();
    let b = generate_private_key();
    assert_eq!(a.len(), 44);
    assert_eq!(decoded_len(&a), KEY_BYTES);
    assert_ne!(a, b);
}

#[test]
fn file_names() {
    assert_eq!(profile_file_name("alice"), "alice.conf");
    assert_eq!(qr_file_name("alice"), "alice_qr.png");
}

#[test]
fn profile_fits_in_a_qr_code() {
    let c = client("erin", Some("AAECAwQFBgcICQoLDA0ODxAREhMUFRYXGBkaGxwdHh8="), "4");
    let text = generate_client_config(&c, &example_server()).unwrap();
    let code = profile_qr_code(&text).expect("a profile fits");
    assert!(code.width() >= 21);
}

#[test]
fn oversized_payload_is_unencodable() {
    let huge = "x".repeat(5000);
    assert_eq!(profile_qr_code(&huge).err(), Some(QrCodeError::Unencodable));
}
