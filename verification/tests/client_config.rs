use tiygate_client::client_config::{generate_random_hex, generate_random_token, ClientConfig};

#[test]
fn generate_hex_is_correct_length() {
    let key = generate_random_hex(32);
    assert_eq!(key.len(), 64);
    assert!(key.chars().all(|c| c.is_ascii_hexdigit()));
}

#[test]
fn random_hex_is_lowercase_and_varies() {
    let a = generate_random_token(16);
    let b = generate_random_token(16);
    assert_eq!(a.len(), 32);
    assert!(a.chars().all(|c| c.is_ascii_digit() || ('a'..='f').contains(&c)));
    assert_ne!(a, b);
    assert_eq!(generate_random_hex(0), "");
}

#[test]
fn generated_config_needs_setup() {
    let cfg = ClientConfig::generate();
    assert!(!cfg.first_run_completed);
    assert!(!cfg.admin_token.is_empty());
    assert_eq!(cfg.admin_token.len(), 64);
    assert_eq!(cfg.master_key.len(), 64);
    assert!(cfg.server_port.is_none());
    assert_ne!(cfg.admin_token, cfg.master_key);
}

#[test]
fn setters_change_one_field() {
    let mut cfg = ClientConfig::generate();
    let before = cfg.clone();
    cfg.mark_first_run_done();
    assert!(cfg.first_run_completed);
    assert_eq!(cfg.admin_token, before.admin_token);
    cfg.mark_first_run_done();
    assert!(cfg.first_run_completed);
    assert_eq!(cfg.update_admin_token("chosen".to_string()), "chosen");
    assert_eq!(cfg.admin_token, "chosen");
    assert_eq!(cfg.master_key, before.master_key);
    cfg.set_master_key("abc".to_string());
    assert_eq!(cfg.master_key, "abc");
    assert_eq!(cfg.admin_token, "chosen");
}
