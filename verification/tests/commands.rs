use tiygate_client::client_config::ClientConfig;
use tiygate_client::commands::{
    get_admin_token, get_master_key, get_server_port, is_first_run, sqlite_database_url,
    validate_admin_token, validate_master_key,
};

fn config() -> ClientConfig {
    ClientConfig {
        admin_token: "tok".to_string(),
        master_key: "key".to_string(),
        first_run_completed: false,
        server_port: Some(13000),
    }
}

#[test]
fn first_run_until_setup_completes() {
    let mut cfg = config();
    assert!(is_first_run(Some(&cfg)));
    assert!(is_first_run(None));
    let token = validate_admin_token("  mine \n").unwrap();
    assert_eq!(cfg.update_admin_token(token), "mine");
    cfg.mark_first_run_done();
    assert!(!is_first_run(Some(&cfg)));
    assert_eq!(get_admin_token(Some(&cfg)), Some("mine".to_string()));
}

#[test]
fn readers_fall_back_on_lock_failure() {
    let cfg = config();
    assert_eq!(get_admin_token(Some(&cfg)), Some("tok".to_string()));
    assert_eq!(get_admin_token(None), None);
    assert_eq!(get_master_key(Some(&cfg)), Some("key".to_string()));
    assert_eq!(get_master_key(None), None);
    assert_eq!(get_server_port(Some(13007)), 13007);
    assert_eq!(get_server_port(None), 0);
    let empty = ClientConfig { admin_token: String::new(), ..config() };
    assert_eq!(get_admin_token(Some(&empty)), None);
}

#[test]
fn empty_secrets_are_refused() {
    assert_eq!(validate_admin_token(""), Err("token cannot be empty".to_string()));
    assert_eq!(validate_admin_token(" \t\u{3000}\n"), Err("token cannot be empty".to_string()));
    assert_eq!(validate_master_key("  "), Err("master key cannot be empty".to_string()));
    assert_eq!(validate_master_key("\u{a0}k e y\u{2029}"), Ok("k e y".to_string()));
    assert_eq!(validate_admin_token("x"), Ok("x".to_string()));
}

#[test]
fn database_url_uses_forward_slashes() {
    assert_eq!(
        sqlite_database_url("C:\\Users\\me\\tiygate.db"),
        "sqlite://C:/Users/me/tiygate.db?mode=rwc"
    );
    assert_eq!(
        sqlite_database_url("/home/me/.local/share/tiygate.db"),
        "sqlite:///home/me/.local/share/tiygate.db?mode=rwc"
    );
    assert_eq!(sqlite_database_url(""), "sqlite://?mode=rwc");
}
