use rusttp::config::{load_config, ConfigError, ConfigVars};

fn vars() -> ConfigVars {
    ConfigVars {
        base_url: Some("http://localhost:3080".into()),
        app_secret: Some("secret".into()),
        database_url: Some("postgres://db".into()),
        database_max_pool: None,
        smtp_host: None,
        smtp_port: None,
        smtp_secure: None,
        smtp_username: None,
        smtp_password: None,
        smtp_mail_from: None,
        github_client_id: None,
        github_client_secret: None,
    }
}

#[test]
fn config_defaults() {
    let c = load_config(vars()).unwrap();
    assert_eq!(c.base_url, "http://localhost:3080");
    assert_eq!(c.secret_key, "secret");
    assert_eq!(c.database_url, "postgres://db");
    assert_eq!(c.database_max_pool, 1);
    assert_eq!(c.smtp_host, "localhost");
    assert_eq!(c.smtp_port, 1025);
    assert!(!c.smtp_secure);
    assert_eq!(c.smtp_username, "");
    assert_eq!(c.smtp_mail_from, "Admin Sistem <admin@example.com>");
    assert_eq!(c.github_client_secret, "");
}

#[test]
fn config_missing_vars_in_order() {
    let mut v = vars();
    v.base_url = None;
    v.database_url = None;
    let e = load_config(v).err().unwrap();
    assert!(matches!(e, ConfigError::MissingEnvVar("BASE_URL")));
    assert_eq!(e.message(), "BASE_URL is missing");
    let mut v = vars();
    v.app_secret = None;
    assert!(matches!(load_config(v).err().unwrap(), ConfigError::MissingEnvVar("APP_SECRET")));
    let mut v = vars();
    v.database_url = None;
    assert!(matches!(load_config(v).err().unwrap(), ConfigError::MissingEnvVar("DATABASE_URL")));
}

#[test]
fn config_parses_numbers_and_bools() {
    let mut v = vars();
    v.database_max_pool = Some("+20".into());
    v.smtp_port = Some("587".into());
    v.smtp_secure = Some("true".into());
    v.smtp_host = Some("mail".into());
    let c = load_config(v).unwrap();
    assert_eq!(c.database_max_pool, 20);
    assert_eq!(c.smtp_port, 587);
    assert!(c.smtp_secure);
    assert_eq!(c.smtp_host, "mail");
}

#[test]
fn config_unparsable_values_fall_back() {
    let mut v = vars();
    v.database_max_pool = Some("4294967296".into());
    v.smtp_port = Some("65536".into());
    v.smtp_secure = Some("TRUE".into());
    let c = load_config(v).unwrap();
    assert_eq!(c.database_max_pool, 1);
    assert_eq!(c.smtp_port, 1025);
    assert!(!c.smtp_secure);
    let mut v = vars();
    v.smtp_port = Some(" 25".into());
    v.database_max_pool = Some("-1".into());
    let c = load_config(v).unwrap();
    assert_eq!(c.smtp_port, 1025);
    assert_eq!(c.database_max_pool, 1);
}
