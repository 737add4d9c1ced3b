//! Configuration.
//!
//! Everything comes from environment variables (a `.env` file may supply
//! them); each has a default. Production refuses MIGRATION_MODE=auto and
//! JWT secrets shorter than 32 bytes.

use vstd::prelude::*;
use crate::error::{fails_validation, AppError};
use crate::text::{
    append_decimal, ascii_lower_seq, decimal_chars, int_error_message, int_error_text, parse_int,
    parse_int_spec, str_eq, to_ascii_lowercase,
};

verus! {

/// Where the process runs.
#[derive(Debug, Clone, Copy, PartialEq, Eq, Structural)]
pub enum AppEnv {
    Dev,
    Test,
    Staging,
    Prod,
}

/// The environment named by `t`, read without regard to ASCII case.
pub open spec fn app_env_of(t: Seq<char>) -> Option<AppEnv> {
    let l = ascii_lower_seq(t);
    if l == "dev"@ || l == "development"@ {
        Some(AppEnv::Dev)
    } else if l == "test"@ {
        Some(AppEnv::Test)
    } else if l == "staging"@ || l == "stage"@ || l == "pre"@ {
        Some(AppEnv::Staging)
    } else if l == "prod"@ || l == "production"@ {
        Some(AppEnv::Prod)
    } else {
        None
    }
}

impl AppEnv {
    pub open spec fn spec_is_prod(self) -> bool {
        self == AppEnv::Prod
    }

    pub fn is_prod(self) -> (r: bool)
        ensures
            r == self.spec_is_prod(),
    {
        matches!(self, AppEnv::Prod)
    }

    /// Reads an environment name: dev/development, test, staging/stage/pre,
    /// prod/production, in any ASCII case.
    pub fn from_str(s: &str) -> (r: Result<AppEnv, AppError>)
        ensures
            app_env_of(s@) matches Some(e) ==> r == Ok::<AppEnv, AppError>(e),
            app_env_of(s@) is None ==> fails_validation(r, "未知的 APP_ENV: "@ + ascii_lower_seq(s@)),
    {
        let l = to_ascii_lowercase(s);
        let t = l.as_str();
        if str_eq(t, "dev") || str_eq(t, "development") {
            Ok(AppEnv::Dev)
        } else if str_eq(t, "test") {
            Ok(AppEnv::Test)
        } else if str_eq(t, "staging") || str_eq(t, "stage") || str_eq(t, "pre") {
            Ok(AppEnv::Staging)
        } else if str_eq(t, "prod") || str_eq(t, "production") {
            Ok(AppEnv::Prod)
        } else {
            let mut m = "未知的 APP_ENV: ".to_owned();
            m.append(t);
            Err(AppError::validation(m))
        }
    }

    /// Logs are JSON in production and staging, readable text elsewhere.
    pub fn json_logs(self) -> (r: bool)
        ensures
            r == (self == AppEnv::Prod || self == AppEnv::Staging),
    {
        matches!(self, AppEnv::Prod | AppEnv::Staging)
    }
}

/// How migrations run at start-up.
#[derive(Debug, Clone, Copy, PartialEq, Eq, Structural)]
pub enum MigrationMode {
    /// Run them.
    Auto,
    /// Only check; they are run by the release pipeline.
    Manual,
}

pub open spec fn migration_mode_of(t: Seq<char>) -> Option<MigrationMode> {
    let l = ascii_lower_seq(t);
    if l == "auto"@ {
        Some(MigrationMode::Auto)
    } else if l == "manual"@ {
        Some(MigrationMode::Manual)
    } else {
        None
    }
}

impl MigrationMode {
    /// Reads auto or manual, in any ASCII case.
    pub fn from_str(s: &str) -> (r: Result<MigrationMode, AppError>)
        ensures
            migration_mode_of(s@) matches Some(m) ==> r == Ok::<MigrationMode, AppError>(m),
            migration_mode_of(s@) is None ==> fails_validation(r, "未知的 MIGRATION_MODE: "@ + ascii_lower_seq(s@)),
    {
        let l = to_ascii_lowercase(s);
        let t = l.as_str();
        if str_eq(t, "auto") {
            Ok(MigrationMode::Auto)
        } else if str_eq(t, "manual") {
            Ok(MigrationMode::Manual)
        } else {
            let mut m = "未知的 MIGRATION_MODE: ".to_owned();
            m.append(t);
            Err(AppError::validation(m))
        }
    }
}

/// The configuration of the application.
#[derive(Debug, Clone, PartialEq, Eq)]
pub struct AppConfig {
    pub app_name: String,
    pub app_env: AppEnv,
    pub http_host: String,
    pub http_port: u16,
    pub database_url: String,
    /// The read replica; reads go to the primary when absent.
    pub database_read_url: Option<String>,
    pub database_max_connections: u32,
    pub jwt_secret: String,
    pub jwt_ttl_seconds: i64,
    pub migration_mode: MigrationMode,
}

impl AppConfig {
    /// `host:port`.
    pub fn bind_addr(&self) -> (r: String)
        ensures
            r@ == self.http_host@ + ":"@ + decimal_chars(self.http_port as nat),
    {
        let mut s = self.http_host.clone();
        s.append(":");
        append_decimal(&mut s, self.http_port as u64);
        s
    }
}

/// The environment variables the configuration reads; `None` when unset.
#[derive(Debug, Clone, PartialEq, Eq)]
pub struct EnvValues {
    pub app_env: Option<String>,
    pub migration_mode: Option<String>,
    pub jwt_secret: Option<String>,
    pub app_name: Option<String>,
    pub http_host: Option<String>,
    pub http_port: Option<String>,
    pub database_url: Option<String>,
    pub database_read_url: Option<String>,
    pub database_max_connections: Option<String>,
    pub jwt_ttl_seconds: Option<String>,
}

pub open spec fn value_or(v: Option<String>, default: Seq<char>) -> Seq<char> {
    match v {
        Some(s) => s@,
        None => default,
    }
}

fn read_or(v: &Option<String>, default: &str) -> (r: String)
    ensures
        r@ == value_or(*v, default@),
{
    match v {
        Some(s) => s.clone(),
        None => default.to_owned(),
    }
}

/// A numeric variable: its default when unset, else its parsed value, else
/// the validation error "`key` 解析失败: `std's message`".
pub open spec fn numeric_setting(v: Option<String>, key: Seq<char>, default: int, max: int, min_abs: int, signed: bool) -> Result<int, Seq<char>> {
    match v {
        None => Ok(default),
        Some(s) => match parse_int_spec(s@, signed, max, min_abs) {
            Ok(n) => Ok(n),
            Err(k) => Err(key + " 解析失败: "@ + int_error_text(k)),
        },
    }
}

fn parse_setting(v: &Option<String>, key: &str, default: i128, signed: bool, max: u64, min_abs: u64) -> (r: Result<i128, AppError>)
    requires
        -(min_abs as int) <= default <= max,
    ensures
        r matches Ok(n) ==> -(min_abs as int) <= n <= max,
        match numeric_setting(*v, key@, default as int, max as int, min_abs as int, signed) {
            Ok(n) => r matches Ok(x) && x == n,
            Err(msg) => fails_validation(r, msg),
        },
{
    match v {
        None => Ok(default),
        Some(s) => match parse_int(s.as_str(), signed, max, min_abs) {
            Ok(n) => Ok(n),
            Err(k) => {
                let mut m = key.to_owned();
                m.append(" 解析失败: ");
                m.append(int_error_message(k));
                Err(AppError::validation(m))
            },
        },
    }
}

/// Every step of loading the configuration, in order, and what each refuses.
pub open spec fn config_result(v: EnvValues, r: Result<AppConfig, AppError>) -> bool {
    let env_text = value_or(v.app_env, "dev"@);
    let mode_text = value_or(v.migration_mode, "auto"@);
    let secret = value_or(v.jwt_secret, ""@);
    let port = numeric_setting(v.http_port, "HTTP_PORT"@, 8080, 65535, 0, false);
    let conns = numeric_setting(v.database_max_connections, "DATABASE_MAX_CONNECTIONS"@, 10, 4294967295, 0, false);
    let ttl = numeric_setting(v.jwt_ttl_seconds, "JWT_TTL_SECONDS"@, 86400, 9223372036854775807, 9223372036854775808, true);
    let url = value_or(v.database_url, ""@);
    let read_url = value_or(v.database_read_url, ""@);
    if app_env_of(env_text) is None {
        fails_validation(r, "未知的 APP_ENV: "@ + ascii_lower_seq(env_text))
    } else if migration_mode_of(mode_text) is None {
        fails_validation(r, "未知的 MIGRATION_MODE: "@ + ascii_lower_seq(mode_text))
    } else if app_env_of(env_text) == Some(AppEnv::Prod) && migration_mode_of(mode_text) == Some(MigrationMode::Auto) {
        fails_validation(r, "生产环境禁止 MIGRATION_MODE=auto,请改为 manual 并在发布流水线独立执行迁移"@)
    } else if secret.len() == 0 {
        fails_validation(r, "JWT_SECRET 未设置"@)
    } else if app_env_of(env_text) == Some(AppEnv::Prod) && vstd::utf8::encode_utf8(secret).len() < 32 {
        fails_validation(r, "生产环境 JWT_SECRET 长度至少 32 字符"@)
    } else if port is Err {
        fails_validation(r, port->Err_0)
    } else if conns is Err {
        fails_validation(r, conns->Err_0)
    } else if ttl is Err {
        fails_validation(r, ttl->Err_0)
    } else if url.len() == 0 {
        fails_validation(r, "DATABASE_URL 未设置"@)
    } else {
        r matches Ok(c) && {
            &&& c.app_name@ == value_or(v.app_name, "EQYCC_CUBA_IMS"@)
            &&& c.app_env == app_env_of(env_text)->0
            &&& c.http_host@ == value_or(v.http_host, "0.0.0.0"@)
            &&& c.http_port as int == port->Ok_0
            &&& c.database_url@ == url
            &&& (if read_url.len() == 0 { c.database_read_url is None } else { c.database_read_url matches Some(u) && u@ == read_url })
            &&& c.database_max_connections as int == conns->Ok_0
            &&& c.jwt_secret@ == secret
            &&& c.jwt_ttl_seconds as int == ttl->Ok_0
            &&& c.migration_mode == migration_mode_of(mode_text)->0
        }
    }
}

impl AppConfig {
    /// Builds the configuration from the environment variables' values.
    pub fn from_values(v: &EnvValues) -> (r: Result<AppConfig, AppError>)
        ensures
            config_result(*v, r),
    {
        let env_text = read_or(&v.app_env, "dev");
        let app_env = AppEnv::from_str(env_text.as_str())?;
        let mode_text = read_or(&v.migration_mode, "auto");
        let migration_mode = MigrationMode::from_str(mode_text.as_str())?;
        if app_env.is_prod() && matches!(migration_mode, MigrationMode::Auto) {
            return Err(AppError::validation(
                "生产环境禁止 MIGRATION_MODE=auto,请改为 manual 并在发布流水线独立执行迁移".to_owned(),
            ));
        }
        let jwt_secret = read_or(&v.jwt_secret, "");
        if jwt_secret.as_str().is_empty() {
            return Err(AppError::validation("JWT_SECRET 未设置".to_owned()));
        }
        if app_env.is_prod() && jwt_secret.as_str().as_bytes().len() < 32 {
            return Err(AppError::validation("生产环境 JWT_SECRET 长度至少 32 字符".to_owned()));
        }
        let app_name = read_or(&v.app_name, "EQYCC_CUBA_IMS");
        let http_host = read_or(&v.http_host, "0.0.0.0");
        let http_port = parse_setting(&v.http_port, "HTTP_PORT", 8080, false, 65535, 0)?;
        let database_url = read_or(&v.database_url, "");
        let read_url = read_or(&v.database_read_url, "");
        let database_read_url = if read_url.as_str().is_empty() { None } else { Some(read_url) };
        let conns = parse_setting(&v.database_max_connections, "DATABASE_MAX_CONNECTIONS", 10, false, 4294967295, 0)?;
        let ttl = parse_setting(&v.jwt_ttl_seconds, "JWT_TTL_SECONDS", 86400, true, 9223372036854775807, 9223372036854775808)?;
        if database_url.as_str().is_empty() {
            return Err(AppError::validation("DATABASE_URL 未设置".to_owned()));
        }
        Ok(AppConfig {
            app_name,
            app_env,
            http_host,
            http_port: http_port as u16,
            database_url,
            database_read_url,
            database_max_connections: conns as u32,
            jwt_secret,
            jwt_ttl_seconds: ttl as i64,
            migration_mode,
        })
    }
}

/// A loaded configuration never runs migrations automatically in
/// production, and its production JWT secret has at least 32 bytes.
pub proof fn law_production_config_is_safe(v: EnvValues, c: AppConfig)
    requires
        config_result(v, Ok(c)),
    ensures
        c.app_env == AppEnv::Prod ==> c.migration_mode == MigrationMode::Manual,
        c.app_env == AppEnv::Prod ==> vstd::utf8::encode_utf8(c.jwt_secret@).len() >= 32,
        c.jwt_secret@.len() > 0,
        c.database_url@.len() > 0,
{
}

/// Every documented environment name is read as its environment, in any
/// ASCII case: dev and development as Dev, test as Test, staging, stage and
/// pre as Staging, prod and production as Prod; no other name is read.
pub proof fn law_environment_names(t: Seq<char>)
    ensures
        (ascii_lower_seq(t) == "dev"@ || ascii_lower_seq(t) == "development"@) ==> app_env_of(t) == Some(AppEnv::Dev),
        ascii_lower_seq(t) == "test"@ ==> app_env_of(t) == Some(AppEnv::Test),
        (ascii_lower_seq(t) == "staging"@ || ascii_lower_seq(t) == "stage"@ || ascii_lower_seq(t) == "pre"@)
            ==> app_env_of(t) == Some(AppEnv::Staging),
        (ascii_lower_seq(t) == "prod"@ || ascii_lower_seq(t) == "production"@) ==> app_env_of(t) == Some(AppEnv::Prod),
        app_env_of(t) is Some ==> {
            let l = ascii_lower_seq(t);
            l == "dev"@ || l == "development"@ || l == "test"@ || l == "staging"@ || l == "stage"@
                || l == "pre"@ || l == "prod"@ || l == "production"@
        },
        ascii_lower_seq(t) == "auto"@ ==> migration_mode_of(t) == Some(MigrationMode::Auto),
        ascii_lower_seq(t) == "manual"@ ==> migration_mode_of(t) == Some(MigrationMode::Manual),
        migration_mode_of(t) is Some ==> (ascii_lower_seq(t) == "auto"@ || ascii_lower_seq(t) == "manual"@),
{
    reveal_strlit("dev");
    reveal_strlit("development");
    reveal_strlit("test");
    reveal_strlit("staging");
    reveal_strlit("stage");
    reveal_strlit("pre");
    reveal_strlit("prod");
    reveal_strlit("production");
    reveal_strlit("auto");
    reveal_strlit("manual");
    assert("dev"@.len() != "development"@.len());
    assert("dev"@.len() != "test"@.len());
    assert("dev"@.len() != "staging"@.len());
    assert("dev"@.len() != "stage"@.len());
    assert("dev"@.len() != "prod"@.len());
    assert("dev"@.len() != "production"@.len());
    assert("development"@.len() != "test"@.len());
    assert("development"@.len() != "staging"@.len());
    assert("development"@.len() != "stage"@.len());
    assert("development"@.len() != "pre"@.len());
    assert("development"@.len() != "prod"@.len());
    assert("development"@.len() != "production"@.len());
    assert("test"@.len() != "staging"@.len());
    assert("test"@.len() != "stage"@.len());
    assert("test"@.len() != "pre"@.len());
    assert("test"@.len() != "production"@.len());
    assert("staging"@.len() != "stage"@.len());
    assert("staging"@.len() != "pre"@.len());
    assert("staging"@.len() != "prod"@.len());
    assert("staging"@.len() != "production"@.len());
    assert("stage"@.len() != "pre"@.len());
    assert("stage"@.len() != "prod"@.len());
    assert("stage"@.len() != "production"@.len());
    assert("pre"@.len() != "prod"@.len());
    assert("pre"@.len() != "production"@.len());
    assert("prod"@.len() != "production"@.len());
    assert("dev"@[0] != "pre"@[0]);
    assert("test"@[0] != "prod"@[0]);
    assert("auto"@.len() != "manual"@.len());
}

} // verus!
