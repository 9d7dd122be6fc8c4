//! Configuration model: the service's own settings resolved from
//! environment values, the standard per-service configuration document
//! with its defaulting rules, and its validation.

use vstd::prelude::*;
use crate::text::{eq_str, match_at, starts_with_str};

verus! {

/// Why a configuration could not be used.
#[derive(Clone, Debug)]
pub enum ConfigError {
    /// The file could not be read (not found, permission denied).
    FileError(String),
    /// The document could not be parsed or deserialized.
    ParseError(String),
    /// The document parsed but holds invalid values.
    ValidationError(String),
    /// Any other failure.
    Other(String),
}

/// The description `ConfigError::describe` renders.
pub open spec fn config_error_text(e: ConfigError) -> Seq<char> {
    match e {
        ConfigError::FileError(m) => "File error: "@ + m@,
        ConfigError::ParseError(m) => "Parse error: "@ + m@,
        ConfigError::ValidationError(m) => "Validation error: "@ + m@,
        ConfigError::Other(m) => "Error: "@ + m@,
    }
}

impl ConfigError {
    /// A human-readable description of the error.
    pub fn describe(&self) -> (r: String)
        ensures
            r@ == config_error_text(*self),
    {
        match self {
            ConfigError::FileError(m) => String::from_str("File error: ").concat(m.as_str()),
            ConfigError::ParseError(m) => String::from_str("Parse error: ").concat(m.as_str()),
            ConfigError::ValidationError(m) => String::from_str("Validation error: ").concat(
                m.as_str(),
            ),
            ConfigError::Other(m) => String::from_str("Error: ").concat(m.as_str()),
        }
    }
}

/// Whether `c` is a decimal digit.
pub open spec fn is_digit(c: char) -> bool {
    48 <= c as int <= 57
}

/// The value of a digit character.
pub open spec fn digit_val(c: char) -> int {
    c as int - 48
}

/// Whether every character of `s` is a decimal digit.
pub open spec fn all_digits(s: Seq<char>) -> bool {
    forall|i: int| 0 <= i < s.len() ==> is_digit(#[trigger] s[i])
}

/// The numeric value of a digit string.
pub open spec fn digits_val(s: Seq<char>) -> int
    decreases s.len(),
{
    if s.len() == 0 {
        0
    } else {
        digits_val(s.drop_last()) * 10 + digit_val(s.last())
    }
}

proof fn lemma_digits_val_nonneg(s: Seq<char>)
    requires
        all_digits(s),
    ensures
        digits_val(s) >= 0,
    decreases s.len(),
{
    if s.len() > 0 {
        assert forall|i: int| 0 <= i < s.drop_last().len() implies is_digit(
            #[trigger] s.drop_last()[i],
        ) by {
            assert(s.drop_last()[i] == s[i]);
        }
        lemma_digits_val_nonneg(s.drop_last());
        assert(is_digit(s.last()));
    }
}

proof fn lemma_digits_val_prefix_grows(s: Seq<char>, i: int)
    requires
        all_digits(s),
        0 <= i <= s.len(),
    ensures
        digits_val(s) >= digits_val(s.take(i)),
    decreases s.len() - i,
{
    if i < s.len() {
        lemma_digits_val_prefix_grows(s, i + 1);
        let t = s.take(i + 1);
        assert(t.drop_last() =~= s.take(i));
        assert(t.last() == s[i]);
        assert forall|j: int| 0 <= j < s.take(i).len() implies is_digit(
            #[trigger] s.take(i)[j],
        ) by {
            assert(s.take(i)[j] == s[j]);
        }
        lemma_digits_val_nonneg(s.take(i));
        assert(is_digit(s[i]));
        assert(digits_val(t) == digits_val(s.take(i)) * 10 + digit_val(s[i]));
        assert(digits_val(t) >= digits_val(s.take(i)));
    } else {
        assert(s.take(i) =~= s);
    }
}

/// What parsing `s` as an unsigned 16-bit number yields, with the
/// standard library's rules: an optional leading plus sign, then at
/// least one digit, and a value within range.
pub open spec fn parse_u16_of(s: Seq<char>) -> Option<u16> {
    let body = if s.len() > 0 && s[0] == '+' {
        s.drop_first()
    } else {
        s
    };
    if body.len() == 0 || !all_digits(body) {
        None
    } else if digits_val(body) > 65535 {
        None
    } else {
        Some(digits_val(body) as u16)
    }
}

/// Parse `s` as an unsigned 16-bit number.
#[verifier::loop_isolation(false)]
pub fn parse_u16(s: &str) -> (r: Option<u16>)
    ensures
        r == parse_u16_of(s@),
{
    let slen = s.unicode_len();
    let start: usize = if slen > 0 && s.get_char(0) == '+' {
        1
    } else {
        0
    };
    let ghost body = if s@.len() > 0 && s@[0] == '+' {
        s@.drop_first()
    } else {
        s@
    };
    proof {
        assert(body =~= s@.skip(start as int));
    }
    if slen == start {
        return None;
    }
    let mut acc: u32 = 0;
    let mut j: usize = start;
    while j < slen
        invariant
            start <= j <= slen,
            slen == s@.len(),
            start < slen,
            body == s@.skip(start as int),
            body.len() == slen - start,
            all_digits(body.take((j - start) as int)),
            acc <= 65535,
            acc == digits_val(body.take((j - start) as int)),
        decreases slen - j,
    {
        let c = s.get_char(j);
        let code = c as u32;
        proof {
            assert(body[(j - start) as int] == s@[j as int]);
        }
        if code < 48 || code > 57 {
            proof {
                assert(!is_digit(body[(j - start) as int]));
                assert(!all_digits(body));
            }
            return None;
        }
        let d = code - 48;
        let acc2: u32 = acc * 10 + d;
        proof {
            let t = body.take((j - start) + 1);
            assert(t.drop_last() =~= body.take((j - start) as int));
            assert(t.last() == body[(j - start) as int]);
            assert forall|i: int| 0 <= i < t.len() implies is_digit(#[trigger] t[i]) by {
                if i < t.len() - 1 {
                    assert(t[i] == body.take((j - start) as int)[i]);
                } else {
                    assert(t[i] == body[(j - start) as int]);
                }
            }
            assert(digits_val(t) == acc * 10 + d);
        }
        if acc2 > 65535 {
            proof {
                if all_digits(body) {
                    lemma_digits_val_prefix_grows(body, (j - start) + 1);
                    assert(digits_val(body) >= acc2);
                }
            }
            return None;
        }
        acc = acc2;
        j = j + 1;
    }
    proof {
        assert(body.take(body.len() as int) =~= body);
        assert(digits_val(body) == acc);
        assert(all_digits(body));
    }
    Some(acc as u16)
}

/// What parsing `s` as a boolean yields: exactly `true` or `false`.
pub open spec fn parse_bool_of(s: Seq<char>) -> Option<bool> {
    if s == "true"@ {
        Some(true)
    } else if s == "false"@ {
        Some(false)
    } else {
        None
    }
}

/// Parse `s` as a boolean.
pub fn parse_bool(s: &str) -> (r: Option<bool>)
    ensures
        r == parse_bool_of(s@),
{
    if eq_str(s, "true") {
        Some(true)
    } else if eq_str(s, "false") {
        Some(false)
    } else {
        None
    }
}

/// This service's own settings, resolved from environment values with a
/// default for everything absent or unparsable.
#[derive(Clone, Debug)]
pub struct AppConfig {
    pub service_name: String,
    pub service_port: u16,
    pub monitor_url: String,
    pub k8s_namespace: String,
    pub domain: String,
    pub tls_enabled: bool,
    pub cert_path: Option<String>,
    pub key_path: Option<String>,
}

/// The string a present environment value yields, or the default.
pub open spec fn env_or(v: Option<String>, default: Seq<char>) -> Seq<char> {
    match v {
        Some(s) => s@,
        None => default,
    }
}

impl AppConfig {
    /// Resolve the settings from the raw environment values, applying
    /// the documented defaults; an unparsable port or flag falls back to
    /// its default rather than failing.
    pub fn from_env(
        service_name: Option<String>,
        service_port: Option<String>,
        monitor_url: Option<String>,
        k8s_namespace: Option<String>,
        domain: Option<String>,
        tls_enabled: Option<String>,
        cert_path: Option<String>,
        key_path: Option<String>,
    ) -> (r: AppConfig)
        ensures
            r.service_name@ == env_or(service_name, "fks_main"@),
            r.service_port == (match service_port {
                Some(v) => (match parse_u16_of(v@) {
                    Some(p) => p,
                    None => 8010u16,
                }),
                None => 8010u16,
            }),
            r.monitor_url@ == env_or(monitor_url, "http://fks-monitor:8009"@),
            r.k8s_namespace@ == env_or(k8s_namespace, "fks-trading"@),
            r.domain@ == env_or(domain, "fkstrading.xyz"@),
            r.tls_enabled == (match tls_enabled {
                Some(v) => (match parse_bool_of(v@) {
                    Some(b) => b,
                    None => false,
                }),
                None => false,
            }),
            r.cert_path == cert_path,
            r.key_path == key_path,
    {
        let service_name = match service_name {
            Some(s) => s,
            None => String::from_str("fks_main"),
        };
        let service_port = match service_port {
            Some(v) => match parse_u16(v.as_str()) {
                Some(p) => p,
                None => 8010,
            },
            None => 8010,
        };
        let monitor_url = match monitor_url {
            Some(s) => s,
            None => String::from_str("http://fks-monitor:8009"),
        };
        let k8s_namespace = match k8s_namespace {
            Some(s) => s,
            None => String::from_str("fks-trading"),
        };
        let domain = match domain {
            Some(s) => s,
            None => String::from_str("fkstrading.xyz"),
        };
        let tls_enabled = match tls_enabled {
            Some(v) => match parse_bool(v.as_str()) {
                Some(b) => b,
                None => false,
            },
            None => false,
        };
        AppConfig {
            service_name,
            service_port,
            monitor_url,
            k8s_namespace,
            domain,
            tls_enabled,
            cert_path,
            key_path,
        }
    }
}

/// A service's own section of the standard configuration document.
#[derive(Clone, Debug)]
pub struct ServiceConfig {
    pub name: String,
    pub port: u16,
    pub host: String,
    pub environment: String,
    pub log_level: String,
}

impl ServiceConfig {
    /// Build the section from a parsed document, filling the documented
    /// defaults for absent fields.
    pub fn with_defaults(
        name: String,
        port: Option<u16>,
        host: Option<String>,
        environment: Option<String>,
        log_level: Option<String>,
    ) -> (r: ServiceConfig)
        ensures
            r.name == name,
            r.port == (match port {
                Some(p) => p,
                None => 8000u16,
            }),
            r.host@ == env_or(host, "0.0.0.0"@),
            r.environment@ == env_or(environment, "development"@),
            r.log_level@ == env_or(log_level, "INFO"@),
    {
        ServiceConfig {
            name,
            port: match port {
                Some(p) => p,
                None => 8000,
            },
            host: match host {
                Some(h) => h,
                None => String::from_str("0.0.0.0"),
            },
            environment: match environment {
                Some(e) => e,
                None => String::from_str("development"),
            },
            log_level: match log_level {
                Some(l) => l,
                None => String::from_str("INFO"),
            },
        }
    }
}

/// The database section of the standard configuration document.
#[derive(Clone, Debug)]
pub struct DatabaseConfig {
    pub host: String,
    pub port: u16,
    pub name: Option<String>,
    pub user: Option<String>,
    pub password: Option<String>,
    pub pool_size: u32,
    pub max_overflow: u32,
}

impl DatabaseConfig {
    /// Build the section from a parsed document, filling the documented
    /// defaults for absent fields.
    pub fn with_defaults(
        host: Option<String>,
        port: Option<u16>,
        name: Option<String>,
        user: Option<String>,
        password: Option<String>,
        pool_size: Option<u32>,
        max_overflow: Option<u32>,
    ) -> (r: DatabaseConfig)
        ensures
            r.host@ == env_or(host, "localhost"@),
            r.port == (match port {
                Some(p) => p,
                None => 5432u16,
            }),
            r.name == name,
            r.user == user,
            r.password == password,
            r.pool_size == (match pool_size {
                Some(p) => p,
                None => 10u32,
            }),
            r.max_overflow == (match max_overflow {
                Some(m) => m,
                None => 20u32,
            }),
    {
        DatabaseConfig {
            host: match host {
                Some(h) => h,
                None => String::from_str("localhost"),
            },
            port: match port {
                Some(p) => p,
                None => 5432,
            },
            name,
            user,
            password,
            pool_size: match pool_size {
                Some(p) => p,
                None => 10,
            },
            max_overflow: match max_overflow {
                Some(m) => m,
                None => 20,
            },
        }
    }
}

/// The cache-store section of the standard configuration document.
#[derive(Clone, Debug)]
pub struct RedisConfig {
    pub host: String,
    pub port: u16,
    pub db: u8,
    pub password: Option<String>,
    pub decode_responses: bool,
}

impl RedisConfig {
    /// Build the section from a parsed document, filling the documented
    /// defaults for absent fields.
    pub fn with_defaults(
        host: Option<String>,
        port: Option<u16>,
        db: Option<u8>,
        password: Option<String>,
        decode_responses: Option<bool>,
    ) -> (r: RedisConfig)
        ensures
            r.host@ == env_or(host, "localhost"@),
            r.port == (match port {
                Some(p) => p,
                None => 6379u16,
            }),
            r.db == (match db {
                Some(d) => d,
                None => 0u8,
            }),
            r.password == password,
            r.decode_responses == (match decode_responses {
                Some(d) => d,
                None => true,
            }),
    {
        RedisConfig {
            host: match host {
                Some(h) => h,
                None => String::from_str("localhost"),
            },
            port: match port {
                Some(p) => p,
                None => 6379,
            },
            db: match db {
                Some(d) => d,
                None => 0,
            },
            password,
            decode_responses: match decode_responses {
                Some(d) => d,
                None => true,
            },
        }
    }
}

/// The API-client section of the standard configuration document.
#[derive(Clone, Debug)]
pub struct APIConfig {
    pub base_url: Option<String>,
    pub timeout: u64,
    pub retry_attempts: u32,
    pub retry_delay: u64,
}

impl APIConfig {
    /// Build the section from a parsed document, filling the documented
    /// defaults for absent fields.
    pub fn with_defaults(
        base_url: Option<String>,
        timeout: Option<u64>,
        retry_attempts: Option<u32>,
        retry_delay: Option<u64>,
    ) -> (r: APIConfig)
        ensures
            r.base_url == base_url,
            r.timeout == (match timeout {
                Some(t) => t,
                None => 30u64,
            }),
            r.retry_attempts == (match retry_attempts {
                Some(a) => a,
                None => 3u32,
            }),
            r.retry_delay == (match retry_delay {
                Some(d) => d,
                None => 1u64,
            }),
    {
        APIConfig {
            base_url,
            timeout: match timeout {
                Some(t) => t,
                None => 30,
            },
            retry_attempts: match retry_attempts {
                Some(a) => a,
                None => 3,
            },
            retry_delay: match retry_delay {
                Some(d) => d,
                None => 1,
            },
        }
    }
}

/// The authentication section of the standard configuration document.
#[derive(Clone, Debug)]
pub struct AuthConfig {
    pub secret_key: Option<String>,
    pub token_expiry: u64,
    pub algorithm: String,
}

impl AuthConfig {
    /// Build the section from a parsed document, filling the documented
    /// defaults for absent fields.
    pub fn with_defaults(
        secret_key: Option<String>,
        token_expiry: Option<u64>,
        algorithm: Option<String>,
    ) -> (r: AuthConfig)
        ensures
            r.secret_key == secret_key,
            r.token_expiry == (match token_expiry {
                Some(t) => t,
                None => 3600u64,
            }),
            r.algorithm@ == env_or(algorithm, "HS256"@),
    {
        AuthConfig {
            secret_key,
            token_expiry: match token_expiry {
                Some(t) => t,
                None => 3600,
            },
            algorithm: match algorithm {
                Some(a) => a,
                None => String::from_str("HS256"),
            },
        }
    }
}

/// The monitoring section of the standard configuration document.
#[derive(Clone, Debug)]
pub struct MonitoringConfig {
    pub enabled: bool,
    pub prometheus_port: u16,
    pub health_check_interval: u64,
}

impl MonitoringConfig {
    /// Build the section from a parsed document, filling the documented
    /// defaults for absent fields.
    pub fn with_defaults(
        enabled: Option<bool>,
        prometheus_port: Option<u16>,
        health_check_interval: Option<u64>,
    ) -> (r: MonitoringConfig)
        ensures
            r.enabled == (match enabled {
                Some(e) => e,
                None => true,
            }),
            r.prometheus_port == (match prometheus_port {
                Some(p) => p,
                None => 9090u16,
            }),
            r.health_check_interval == (match health_check_interval {
                Some(h) => h,
                None => 30u64,
            }),
    {
        MonitoringConfig {
            enabled: match enabled {
                Some(e) => e,
                None => true,
            },
            prometheus_port: match prometheus_port {
                Some(p) => p,
                None => 9090,
            },
            health_check_interval: match health_check_interval {
                Some(h) => h,
                None => 30,
            },
        }
    }
}

/// The filesystem-paths section of the standard configuration document.
#[derive(Clone, Debug)]
pub struct PathsConfig {
    pub data_dir: String,
    pub logs_dir: String,
    pub cache_dir: String,
    pub models_dir: String,
}

impl PathsConfig {
    /// Build the section from a parsed document, filling the documented
    /// defaults for absent fields.
    pub fn with_defaults(
        data_dir: Option<String>,
        logs_dir: Option<String>,
        cache_dir: Option<String>,
        models_dir: Option<String>,
    ) -> (r: PathsConfig)
        ensures
            r.data_dir@ == env_or(data_dir, "./data"@),
            r.logs_dir@ == env_or(logs_dir, "./logs"@),
            r.cache_dir@ == env_or(cache_dir, "./cache"@),
            r.models_dir@ == env_or(models_dir, "./models"@),
    {
        PathsConfig {
            data_dir: match data_dir {
                Some(d) => d,
                None => String::from_str("./data"),
            },
            logs_dir: match logs_dir {
                Some(l) => l,
                None => String::from_str("./logs"),
            },
            cache_dir: match cache_dir {
                Some(c) => c,
                None => String::from_str("./cache"),
            },
            models_dir: match models_dir {
                Some(m) => m,
                None => String::from_str("./models"),
            },
        }
    }
}

/// The standard per-service configuration document: the service section
/// is required, everything else optional.
#[derive(Clone, Debug)]
pub struct FKSConfig {
    pub service: ServiceConfig,
    pub database: Option<DatabaseConfig>,
    pub redis: Option<RedisConfig>,
    pub api: Option<APIConfig>,
    pub auth: Option<AuthConfig>,
    pub monitoring: Option<MonitoringConfig>,
    pub paths: Option<PathsConfig>,
    pub features: Option<Vec<(String, bool)>>,
}

/// Whether `s` names a known deployment environment.
pub open spec fn valid_environment(s: Seq<char>) -> bool {
    s == "development"@ || s == "staging"@ || s == "production"@ || s == "test"@
}

/// Whether `s` names a known logging level.
pub open spec fn valid_log_level(s: Seq<char>) -> bool {
    s == "DEBUG"@ || s == "INFO"@ || s == "WARNING"@ || s == "ERROR"@ || s == "CRITICAL"@
}

impl FKSConfig {
    /// Validate the document: the service name must carry the platform
    /// prefix, the port must be outside the well-known range, and the
    /// environment and logging level must be known.  The first rule
    /// violated decides the error.
    pub fn validate(&self) -> (r: Result<(), ConfigError>)
        ensures
            ({
                let name_ok = match_at(self.service.name@, "fks_"@, 0);
                let port_ok = self.service.port >= 1024;
                let env_ok = valid_environment(self.service.environment@);
                let log_ok = valid_log_level(self.service.log_level@);
                &&& (r is Ok <==> (name_ok && port_ok && env_ok && log_ok))
                &&& (!name_ok ==> (r matches Err(e) && (e matches ConfigError::ValidationError(m)
                    && m@ == "Service name must start with 'fks_'"@)))
                &&& (name_ok && !port_ok ==> (r matches Err(e) && (e matches
                    ConfigError::ValidationError(m) && m@
                    == "Service port must be between 1024 and 65535"@)))
                &&& (name_ok && port_ok && !env_ok ==> (r matches Err(e) && (e matches
                    ConfigError::ValidationError(m) && m@ == "Invalid environment: "@
                    + self.service.environment@
                    + ". Must be one of: [\"development\", \"staging\", \"production\", \"test\"]"@)))
                &&& (name_ok && port_ok && env_ok && !log_ok ==> (r matches Err(e) && (e matches
                    ConfigError::ValidationError(m) && m@ == "Invalid log level: "@
                    + self.service.log_level@
                    + ". Must be one of: [\"DEBUG\", \"INFO\", \"WARNING\", \"ERROR\", \"CRITICAL\"]"@)))
            }),
    {
        if !starts_with_str(self.service.name.as_str(), "fks_") {
            return Err(
                ConfigError::ValidationError(
                    String::from_str("Service name must start with 'fks_'"),
                ),
            );
        }
        if self.service.port < 1024 {
            return Err(
                ConfigError::ValidationError(
                    String::from_str("Service port must be between 1024 and 65535"),
                ),
            );
        }
        let environment = self.service.environment.as_str();
        if !(eq_str(environment, "development") || eq_str(environment, "staging") || eq_str(
            environment,
            "production",
        ) || eq_str(environment, "test")) {
            let m = String::from_str("Invalid environment: ").concat(environment).concat(
                ". Must be one of: [\"development\", \"staging\", \"production\", \"test\"]",
            );
            return Err(ConfigError::ValidationError(m));
        }
        let log_level = self.service.log_level.as_str();
        if !(eq_str(log_level, "DEBUG") || eq_str(log_level, "INFO") || eq_str(log_level, "WARNING")
            || eq_str(log_level, "ERROR") || eq_str(log_level, "CRITICAL")) {
            let m = String::from_str("Invalid log level: ").concat(log_level).concat(
                ". Must be one of: [\"DEBUG\", \"INFO\", \"WARNING\", \"ERROR\", \"CRITICAL\"]",
            );
            return Err(ConfigError::ValidationError(m));
        }
        Ok(())
    }
}

} // verus!
