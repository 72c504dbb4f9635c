use taitan::server_conf::{
    ApplicationConfig, DaemonConfig, HttpConfig, LogsConfig, TlsConfig, DEFAULT_MAX_BODY_SIZE,
};

#[test]
pub fn test_configuration_default() {
    let config: ApplicationConfig = ApplicationConfig::default();
    assert_eq!(config.http.http_port, 80);
    assert_eq!(
        config.http.tls.as_ref().map_or(false, |t| t.redirect_to_https),
        false
    );
}

#[test]
fn application_config_default_sections() {
    let config = ApplicationConfig::default();
    assert_eq!(config.workspace, "./workspace");
    assert_eq!(config.http.max_body_size, 10 * 1024 * 1024);
    assert!(config.http.tls.is_none());
    assert_eq!(config.jwt.key, "keys/jwt_key.pem");
    assert_eq!(config.jwt.crt, "keys/jwt_crt.pem");
    assert_eq!(config.asset.asserts_uri, "assets/");
    assert_eq!(config.asset.asserts_dir, "assets/");
    assert_eq!(config.logs.logs_dir, "logs/");
    assert!(!config.daemon.daemon);
    assert_eq!(config.daemon.pid_file, "daemon/app.pid");
    assert_eq!(config.daemon.error_log.as_deref(), Some("daemon/error.log"));
    assert!(config.daemon.user.is_none() && config.daemon.group.is_none());
}

#[test]
fn section_defaults_differ_from_inline_defaults() {
    let d = HttpConfig::default();
    assert_eq!(d.http_port, 0);
    assert_eq!(d.max_body_size, 0);
    let i = HttpConfig::inline_default();
    assert_eq!(i.http_port, 80);
    assert_eq!(i.max_body_size, DEFAULT_MAX_BODY_SIZE);
    let t = TlsConfig::inline_default();
    assert!(!t.redirect_to_https);
    assert_eq!(t.https_port, 443);
    assert_eq!(t.tls_key, "keys/tls_key.pem");
    assert_eq!(t.tls_crt, "keys/tls_crt.pem");
    assert_eq!(LogsConfig::default().logs_dir, "");
    assert!(DaemonConfig::default().error_log.is_none());
}

#[test]
fn section_constructors() {
    let h = HttpConfig::new(8080, 1, None);
    assert_eq!(h.http_port, 8080);
    let l = LogsConfig::new("var/log".to_string());
    assert_eq!(l.logs_dir, "var/log");
}
