//! The resolved agent configuration: plain data plus the validation rules.
//! Loading the configuration from files and the environment is the caller's
//! business; the library receives the resolved values.
use vstd::prelude::*;
use vstd::string::StrSliceExecFns;
use vstd::string::StringExecFns;

use crate::scan::str_eq_str;

verus! {

/// An error found while validating the configuration.
#[derive(Debug)]
pub struct ConfigError {
    pub message: String,
}

/// Where and how the backend is reached.
#[derive(Debug, Clone)]
pub struct BackendConfig {
    pub url: String,
    pub timeout_seconds: u64,
    pub retry_attempts: u32,
    pub retry_delay_seconds: u64,
}

/// The TLS and secret material the transport uses, by file path.
#[derive(Debug, Clone)]
pub struct SecurityConfig {
    pub api_key_file: String,
    pub cert_file: Option<String>,
    pub key_file: Option<String>,
    pub ca_file: Option<String>,
    pub hmac_secret_file: Option<String>,
    pub verify_server_cert: bool,
    pub use_mtls: bool,
}

/// Which package sources the orchestrator drives.
#[derive(Clone, Copy, Debug, PartialEq, Eq, Structural)]
pub struct UpdateSources {
    pub apt: bool,
    pub snap: bool,
    pub flatpak: bool,
    pub firmware: bool,
}

/// How the update run behaves.
#[derive(Debug, Clone)]
pub struct UpdateConfig {
    pub dry_run: bool,
    pub auto_reboot: bool,
    pub reboot_delay_minutes: u32,
    pub maintenance_window_start: Option<String>,
    pub maintenance_window_end: Option<String>,
    pub excluded_packages: Vec<String>,
    pub update_sources: UpdateSources,
}

/// How the caller is asked to log.
#[derive(Debug, Clone)]
pub struct LoggingConfig {
    pub level: String,
    pub format: String,
    pub file: Option<String>,
    pub max_size_mb: u64,
    pub max_files: u32,
}

/// How metrics are exported.
#[derive(Debug, Clone)]
pub struct MetricsConfig {
    pub enabled: bool,
    pub port: Option<u16>,
    pub textfile_path: Option<String>,
    pub collect_system_metrics: bool,
}

/// Where the enrollment identity lives.
#[derive(Debug, Clone)]
pub struct EnrollmentConfig {
    pub token_file: String,
    pub host_id_file: String,
    pub enrollment_url: String,
}

/// The whole resolved configuration.
#[derive(Debug, Clone)]
pub struct AgentConfig {
    pub backend: BackendConfig,
    pub security: SecurityConfig,
    pub updates: UpdateConfig,
    pub logging: LoggingConfig,
    pub metrics: MetricsConfig,
    pub enrollment: EnrollmentConfig,
}

/// The built-in backend settings.
pub open spec fn is_default_backend(b: BackendConfig) -> bool {
    &&& b.url@ == "http://localhost:8080"@
    &&& b.timeout_seconds == 30
    &&& b.retry_attempts == 3
    &&& b.retry_delay_seconds == 5
}

/// The built-in security settings.
pub open spec fn is_default_security(s: SecurityConfig) -> bool {
    &&& s.api_key_file@ == "/etc/ubuntu-auto-update/auth.token"@
    &&& s.cert_file is None
    &&& s.key_file is None
    &&& s.ca_file is None
    &&& s.hmac_secret_file matches Some(p) && p@ == "/etc/ubuntu-auto-update/hmac.key"@
    &&& s.verify_server_cert == true
    &&& s.use_mtls == false
}

/// The built-in update settings.
pub open spec fn is_default_updates(u: UpdateConfig) -> bool {
    &&& u.dry_run == false
    &&& u.auto_reboot == false
    &&& u.reboot_delay_minutes == 5
    &&& u.maintenance_window_start is None
    &&& u.maintenance_window_end is None
    &&& u.excluded_packages@.len() == 0
    &&& u.update_sources == (UpdateSources { apt: true, snap: true, flatpak: false, firmware: false })
}

/// The built-in logging settings.
pub open spec fn is_default_logging(l: LoggingConfig) -> bool {
    &&& l.level@ == "info"@
    &&& l.format@ == "json"@
    &&& l.file matches Some(p) && p@ == "/var/log/ubuntu-auto-update/agent.log"@
    &&& l.max_size_mb == 100
    &&& l.max_files == 5
}

/// The built-in metrics settings.
pub open spec fn is_default_metrics(m: MetricsConfig) -> bool {
    &&& m.enabled == true
    &&& m.port == Some(9100u16)
    &&& m.textfile_path matches Some(p) && p@ == "/var/lib/node_exporter/textfile_collector"@
    &&& m.collect_system_metrics == true
}

/// The built-in enrollment settings.
pub open spec fn is_default_enrollment(e: EnrollmentConfig) -> bool {
    &&& e.token_file@ == "/etc/ubuntu-auto-update/enrollment.token"@
    &&& e.host_id_file@ == "/etc/ubuntu-auto-update/host.id"@
    &&& e.enrollment_url@ == "http://localhost:8080/api/v1/enroll"@
}

impl Default for BackendConfig {
    fn default() -> (r: Self)
        ensures
            is_default_backend(r),
    {
        BackendConfig {
            url: String::from_str("http://localhost:8080"),
            timeout_seconds: 30,
            retry_attempts: 3,
            retry_delay_seconds: 5,
        }
    }
}

impl Default for SecurityConfig {
    fn default() -> (r: Self)
        ensures
            is_default_security(r),
    {
        SecurityConfig {
            api_key_file: String::from_str("/etc/ubuntu-auto-update/auth.token"),
            cert_file: None,
            key_file: None,
            ca_file: None,
            hmac_secret_file: Some(String::from_str("/etc/ubuntu-auto-update/hmac.key")),
            verify_server_cert: true,
            use_mtls: false,
        }
    }
}

impl Default for UpdateConfig {
    fn default() -> (r: Self)
        ensures
            is_default_updates(r),
    {
        UpdateConfig {
            dry_run: false,
            auto_reboot: false,
            reboot_delay_minutes: 5,
            maintenance_window_start: None,
            maintenance_window_end: None,
            excluded_packages: Vec::new(),
            update_sources: UpdateSources { apt: true, snap: true, flatpak: false, firmware: false },
        }
    }
}

impl Default for LoggingConfig {
    fn default() -> (r: Self)
        ensures
            is_default_logging(r),
    {
        LoggingConfig {
            level: String::from_str("info"),
            format: String::from_str("json"),
            file: Some(String::from_str("/var/log/ubuntu-auto-update/agent.log")),
            max_size_mb: 100,
            max_files: 5,
        }
    }
}

impl Default for MetricsConfig {
    fn default() -> (r: Self)
        ensures
            is_default_metrics(r),
    {
        MetricsConfig {
            enabled: true,
            port: Some(9100),
            textfile_path: Some(String::from_str("/var/lib/node_exporter/textfile_collector")),
            collect_system_metrics: true,
        }
    }
}

impl Default for EnrollmentConfig {
    fn default() -> (r: Self)
        ensures
            is_default_enrollment(r),
    {
        EnrollmentConfig {
            token_file: String::from_str("/etc/ubuntu-auto-update/enrollment.token"),
            host_id_file: String::from_str("/etc/ubuntu-auto-update/host.id"),
            enrollment_url: String::from_str("http://localhost:8080/api/v1/enroll"),
        }
    }
}

impl Default for AgentConfig {
    fn default() -> (r: Self)
        ensures
            is_default_backend(r.backend),
            is_default_security(r.security),
            is_default_updates(r.updates),
            is_default_logging(r.logging),
            is_default_metrics(r.metrics),
            is_default_enrollment(r.enrollment),
    {
        AgentConfig {
            backend: Default::default(),
            security: Default::default(),
            updates: Default::default(),
            logging: Default::default(),
            metrics: Default::default(),
            enrollment: Default::default(),
        }
    }
}

/// A log level that the validator accepts, written exactly so.
pub open spec fn is_valid_log_level(s: Seq<char>) -> bool {
    s == "trace"@ || s == "debug"@ || s == "info"@ || s == "warn"@ || s == "error"@
}

/// A log format that the validator accepts.
pub open spec fn is_valid_log_format(s: Seq<char>) -> bool {
    s == "json"@ || s == "text"@
}

/// The whole configuration is acceptable.
pub open spec fn spec_config_valid(c: AgentConfig) -> bool {
    &&& c.backend.url@.len() > 0
    &&& c.backend.timeout_seconds > 0
    &&& is_valid_log_level(c.logging.level@)
    &&& is_valid_log_format(c.logging.format@)
}

impl AgentConfig {
    /// Check the configuration; the first broken rule names the error.
    pub fn validate(&self) -> (r: Result<(), ConfigError>)
        ensures
            r is Ok <==> spec_config_valid(*self),
            self.backend.url@.len() == 0 ==> (r matches Err(e) && e.message@
                == "Backend URL cannot be empty"@),
            self.backend.url@.len() > 0 && self.backend.timeout_seconds == 0 ==> (r matches Err(e)
                && e.message@ == "Backend timeout must be > 0"@),
            self.backend.url@.len() > 0 && self.backend.timeout_seconds > 0 && !is_valid_log_level(
                self.logging.level@,
            ) ==> (r matches Err(e) && e.message@ == "Invalid log level: "@ + self.logging.level@),
            self.backend.url@.len() > 0 && self.backend.timeout_seconds > 0 && is_valid_log_level(
                self.logging.level@,
            ) && !is_valid_log_format(self.logging.format@) ==> (r matches Err(e) && e.message@
                == "Invalid log format: "@ + self.logging.format@),
    {
        if self.backend.url.unicode_len() == 0 {
            return Err(ConfigError { message: String::from_str("Backend URL cannot be empty") });
        }
        if self.backend.timeout_seconds == 0 {
            return Err(ConfigError { message: String::from_str("Backend timeout must be > 0") });
        }
        let level = self.logging.level.as_str();
        if !(str_eq_str(level, "trace") || str_eq_str(level, "debug") || str_eq_str(level, "info")
            || str_eq_str(level, "warn") || str_eq_str(level, "error")) {
            let msg = String::from_str("Invalid log level: ").concat(level);
            return Err(ConfigError { message: msg });
        }
        let format = self.logging.format.as_str();
        if !(str_eq_str(format, "json") || str_eq_str(format, "text")) {
            let msg = String::from_str("Invalid log format: ").concat(format);
            return Err(ConfigError { message: msg });
        }
        Ok(())
    }
}

} // verus!
