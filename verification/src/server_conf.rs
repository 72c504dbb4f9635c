//! The server configuration: command-line arguments and the sections of the
//! application configuration file, with the values that fields take when
//! the file leaves them out.
use vstd::prelude::*;
use vstd::string::*;

verus! {

/// The command-line arguments: the workspace directory and the name of the
/// configuration file in it.
pub struct Args {
    pub workspace: String,
    pub application_config_file: String,
}

/// The largest request body accepted unless configured otherwise, 10 MiB.
pub const DEFAULT_MAX_BODY_SIZE: usize = 10 * 1024 * 1024;

/// The HTTP listener.
pub struct HttpConfig {
    pub http_port: u16,
    pub max_body_size: usize,
    pub tls: Option<TlsConfig>,
}

/// TLS for the HTTPS listener.
pub struct TlsConfig {
    pub redirect_to_https: bool,
    pub https_port: u16,
    pub tls_key: String,
    pub tls_crt: String,
}

/// The key pair that tokens are signed with.
pub struct JwtConfig {
    pub key: String,
    pub crt: String,
}

/// Where static assets are served from.
pub struct AssetsConfig {
    pub asserts_uri: String,
    pub asserts_dir: String,
}

/// Where logs go.
pub struct LogsConfig {
    pub logs_dir: String,
}

/// Running as a daemon.
pub struct DaemonConfig {
    pub daemon: bool,
    pub pid_file: String,
    pub error_log: Option<String>,
    pub user: Option<String>,
    pub group: Option<String>,
}

/// The whole configuration file.
pub struct ApplicationConfig {
    pub workspace: String,
    pub http: HttpConfig,
    pub jwt: JwtConfig,
    pub asset: AssetsConfig,
    pub logs: LogsConfig,
    pub daemon: DaemonConfig,
}

impl HttpConfig {
    /// The section with the given fields.
    pub fn new(http_port: u16, max_body_size: usize, tls: Option<TlsConfig>) -> (r: HttpConfig)
        ensures
            r == (HttpConfig { http_port, max_body_size, tls }),
    {
        HttpConfig { http_port, max_body_size, tls }
    }

    /// Whether this is the section an empty document gives: port 80, a body
    /// limit of 10 MiB, no TLS.
    pub open spec fn is_inline_default(self) -> bool {
        self.http_port == 80 && self.max_body_size == DEFAULT_MAX_BODY_SIZE && self.tls is None
    }

    /// The section an empty document gives, every field at its declared
    /// default.
    pub fn inline_default() -> (r: HttpConfig)
        ensures
            r.is_inline_default(),
    {
        HttpConfig { http_port: 80, max_body_size: DEFAULT_MAX_BODY_SIZE, tls: None }
    }
}

impl Default for HttpConfig {
    /// Zero for the numbers and no TLS.
    fn default() -> (r: HttpConfig)
        ensures
            r.http_port == 0 && r.max_body_size == 0 && r.tls is None,
    {
        HttpConfig { http_port: 0, max_body_size: 0, tls: None }
    }
}

impl TlsConfig {
    /// The section with the given fields.
    pub fn new(redirect_to_https: bool, https_port: u16, tls_key: String, tls_crt: String) -> (r:
        TlsConfig)
        ensures
            r == (TlsConfig { redirect_to_https, https_port, tls_key, tls_crt }),
    {
        TlsConfig { redirect_to_https, https_port, tls_key, tls_crt }
    }

    /// Whether this is the section an empty document gives: no redirect,
    /// port 443, the key and certificate under `keys/`.
    pub open spec fn is_inline_default(self) -> bool {
        &&& !self.redirect_to_https
        &&& self.https_port == 443
        &&& self.tls_key@ == "keys/tls_key.pem"@
        &&& self.tls_crt@ == "keys/tls_crt.pem"@
    }

    /// The section an empty document gives.
    pub fn inline_default() -> (r: TlsConfig)
        ensures
            r.is_inline_default(),
    {
        TlsConfig {
            redirect_to_https: false,
            https_port: 443,
            tls_key: String::from_str("keys/tls_key.pem"),
            tls_crt: String::from_str("keys/tls_crt.pem"),
        }
    }
}

impl Default for TlsConfig {
    /// No redirect, port zero, empty paths.
    fn default() -> (r: TlsConfig)
        ensures
            !r.redirect_to_https && r.https_port == 0 && r.tls_key@.len() == 0 && r.tls_crt@.len()
                == 0,
    {
        TlsConfig { redirect_to_https: false, https_port: 0, tls_key: String::new(), tls_crt: String::new() }
    }
}

impl JwtConfig {
    /// The section with the given fields.
    pub fn new(key: String, crt: String) -> (r: JwtConfig)
        ensures
            r == (JwtConfig { key, crt }),
    {
        JwtConfig { key, crt }
    }

    /// Whether this is the section an empty document gives.
    pub open spec fn is_inline_default(self) -> bool {
        self.key@ == "keys/jwt_key.pem"@ && self.crt@ == "keys/jwt_crt.pem"@
    }

    /// The section an empty document gives.
    pub fn inline_default() -> (r: JwtConfig)
        ensures
            r.is_inline_default(),
    {
        JwtConfig {
            key: String::from_str("keys/jwt_key.pem"),
            crt: String::from_str("keys/jwt_crt.pem"),
        }
    }
}

impl Default for JwtConfig {
    /// Empty paths.
    fn default() -> (r: JwtConfig)
        ensures
            r.key@.len() == 0 && r.crt@.len() == 0,
    {
        JwtConfig { key: String::new(), crt: String::new() }
    }
}

impl AssetsConfig {
    /// The section with the given fields.
    pub fn new(asserts_uri: String, asserts_dir: String) -> (r: AssetsConfig)
        ensures
            r == (AssetsConfig { asserts_uri, asserts_dir }),
    {
        AssetsConfig { asserts_uri, asserts_dir }
    }

    /// Whether this is the section an empty document gives.
    pub open spec fn is_inline_default(self) -> bool {
        self.asserts_uri@ == "assets/"@ && self.asserts_dir@ == "assets/"@
    }

    /// The section an empty document gives.
    pub fn inline_default() -> (r: AssetsConfig)
        ensures
            r.is_inline_default(),
    {
        AssetsConfig {
            asserts_uri: String::from_str("assets/"),
            asserts_dir: String::from_str("assets/"),
        }
    }
}

impl Default for AssetsConfig {
    /// Empty paths.
    fn default() -> (r: AssetsConfig)
        ensures
            r.asserts_uri@.len() == 0 && r.asserts_dir@.len() == 0,
    {
        AssetsConfig { asserts_uri: String::new(), asserts_dir: String::new() }
    }
}

impl LogsConfig {
    /// The section with the given field.
    pub fn new(logs_dir: String) -> (r: LogsConfig)
        ensures
            r == (LogsConfig { logs_dir }),
    {
        LogsConfig { logs_dir }
    }

    /// Whether this is the section an empty document gives.
    pub open spec fn is_inline_default(self) -> bool {
        self.logs_dir@ == "logs/"@
    }

    /// The section an empty document gives.
    pub fn inline_default() -> (r: LogsConfig)
        ensures
            r.is_inline_default(),
    {
        LogsConfig { logs_dir: String::from_str("logs/") }
    }
}

impl Default for LogsConfig {
    /// An empty path.
    fn default() -> (r: LogsConfig)
        ensures
            r.logs_dir@.len() == 0,
    {
        LogsConfig { logs_dir: String::new() }
    }
}

impl DaemonConfig {
    /// The section with the given fields.
    pub fn new(
        daemon: bool,
        pid_file: String,
        error_log: Option<String>,
        user: Option<String>,
        group: Option<String>,
    ) -> (r: DaemonConfig)
        ensures
            r == (DaemonConfig { daemon, pid_file, error_log, user, group }),
    {
        DaemonConfig { daemon, pid_file, error_log, user, group }
    }

    /// Whether this is the section an empty document gives: not a daemon,
    /// the pid file and error log under `daemon/`, no user or group.
    pub open spec fn is_inline_default(self) -> bool {
        &&& !self.daemon
        &&& self.pid_file@ == "daemon/app.pid"@
        &&& self.error_log matches Some(e) && e@ == "daemon/error.log"@
        &&& self.user is None
        &&& self.group is None
    }

    /// The section an empty document gives.
    pub fn inline_default() -> (r: DaemonConfig)
        ensures
            r.is_inline_default(),
    {
        DaemonConfig {
            daemon: false,
            pid_file: String::from_str("daemon/app.pid"),
            error_log: Some(String::from_str("daemon/error.log")),
            user: None,
            group: None,
        }
    }
}

impl Default for DaemonConfig {
    /// Not a daemon, an empty pid path, and nothing else.
    fn default() -> (r: DaemonConfig)
        ensures
            !r.daemon && r.pid_file@.len() == 0 && r.error_log is None && r.user is None
                && r.group is None,
    {
        DaemonConfig { daemon: false, pid_file: String::new(), error_log: None, user: None, group: None }
    }
}

impl ApplicationConfig {
    /// The configuration with the given sections.
    pub fn new(
        workspace: String,
        http: HttpConfig,
        jwt: JwtConfig,
        asset: AssetsConfig,
        logs: LogsConfig,
        daemon: DaemonConfig,
    ) -> (r: ApplicationConfig)
        ensures
            r == (ApplicationConfig { workspace, http, jwt, asset, logs, daemon }),
    {
        ApplicationConfig { workspace, http, jwt, asset, logs, daemon }
    }
}

impl Default for ApplicationConfig {
    /// The configuration of an empty file: the workspace `./workspace` and
    /// every section at the values an empty document gives it.
    fn default() -> (r: ApplicationConfig)
        ensures
            r.workspace@ == "./workspace"@,
            r.http.is_inline_default(),
            r.jwt.is_inline_default(),
            r.asset.is_inline_default(),
            r.logs.is_inline_default(),
            r.daemon.is_inline_default(),
    {
        ApplicationConfig {
            workspace: String::from_str("./workspace"),
            http: HttpConfig::inline_default(),
            jwt: JwtConfig::inline_default(),
            asset: AssetsConfig::inline_default(),
            logs: LogsConfig::inline_default(),
            daemon: DaemonConfig::inline_default(),
        }
    }
}

} // verus!
