use cuba_ims::config::{AppConfig, AppEnv, EnvValues, MigrationMode};
use cuba_ims::error::AppError;

fn env() -> EnvValues {
    EnvValues {
        app_env: None,
        migration_mode: None,
        jwt_secret: Some("dev-secret".to_string()),
        app_name: None,
        http_host: None,
        http_port: None,
        database_url: Some("postgres://localhost/cuba".to_string()),
        database_read_url: None,
        database_max_connections: None,
        jwt_ttl_seconds: None,
    }
}

fn err(m: &str) -> Result<AppConfig, AppError> {
    Err(AppError::Validation(m.to_string()))
}

#[test]
fn environment_names_in_any_case() {
    assert_eq!(AppEnv::from_str("DEV"), Ok(AppEnv::Dev));
    assert_eq!(AppEnv::from_str("Development"), Ok(AppEnv::Dev));
    assert_eq!(AppEnv::from_str("test"), Ok(AppEnv::Test));
    assert_eq!(AppEnv::from_str("Pre"), Ok(AppEnv::Staging));
    assert_eq!(AppEnv::from_str("stage"), Ok(AppEnv::Staging));
    assert_eq!(AppEnv::from_str("PRODUCTION"), Ok(AppEnv::Prod));
    assert_eq!(AppEnv::from_str("QA"), Err(AppError::Validation("未知的 APP_ENV: qa".to_string())));
    assert!(AppEnv::Prod.is_prod());
    assert!(!AppEnv::Staging.is_prod());
    assert!(AppEnv::Staging.json_logs());
    assert!(!AppEnv::Dev.json_logs());
}

#[test]
fn migration_modes() {
    assert_eq!(MigrationMode::from_str("AUTO"), Ok(MigrationMode::Auto));
    assert_eq!(MigrationMode::from_str("manual"), Ok(MigrationMode::Manual));
    assert_eq!(
        MigrationMode::from_str("Skip"),
        Err(AppError::Validation("未知的 MIGRATION_MODE: skip".to_string()))
    );
}

#[test]
fn defaults_fill_what_is_unset() {
    let c = AppConfig::from_values(&env()).unwrap();
    assert_eq!(c.app_name, "EQYCC_CUBA_IMS");
    assert_eq!(c.app_env, AppEnv::Dev);
    assert_eq!(c.http_host, "0.0.0.0");
    assert_eq!(c.http_port, 8080);
    assert_eq!(c.database_read_url, None);
    assert_eq!(c.database_max_connections, 10);
    assert_eq!(c.jwt_ttl_seconds, 86400);
    assert_eq!(c.migration_mode, MigrationMode::Auto);
    assert_eq!(c.bind_addr(), "0.0.0.0:8080");
}

#[test]
fn given_values_are_used() {
    let mut v = env();
    v.http_host = Some("127.0.0.1".to_string());
    v.http_port = Some("9000".to_string());
    v.database_read_url = Some("postgres://replica/cuba".to_string());
    v.jwt_ttl_seconds = Some("-5".to_string());
    v.database_max_connections = Some("+32".to_string());
    let c = AppConfig::from_values(&v).unwrap();
    assert_eq!(c.bind_addr(), "127.0.0.1:9000");
    assert_eq!(c.database_read_url.as_deref(), Some("postgres://replica/cuba"));
    assert_eq!(c.jwt_ttl_seconds, -5);
    assert_eq!(c.database_max_connections, 32);
    v.database_read_url = Some(String::new());
    assert_eq!(AppConfig::from_values(&v).unwrap().database_read_url, None);
}

#[test]
fn production_refuses_automatic_migrations() {
    let mut v = env();
    v.app_env = Some("prod".to_string());
    assert_eq!(
        AppConfig::from_values(&v),
        err("生产环境禁止 MIGRATION_MODE=auto,请改为 manual 并在发布流水线独立执行迁移")
    );
    v.migration_mode = Some("manual".to_string());
    assert_eq!(AppConfig::from_values(&v), err("生产环境 JWT_SECRET 长度至少 32 字符"));
    v.jwt_secret = Some("0123456789abcdef0123456789abcdef".to_string());
    let c = AppConfig::from_values(&v).unwrap();
    assert_eq!(c.app_env, AppEnv::Prod);
    assert_eq!(c.migration_mode, MigrationMode::Manual);
    // the secret's length is counted in bytes: 11 CJK characters are 33 bytes
    v.jwt_secret = Some("一二三四五六七八九十百".to_string());
    assert!(AppConfig::from_values(&v).is_ok());
}

#[test]
fn the_checks_come_in_order() {
    let mut v = env();
    v.app_env = Some("nowhere".to_string());
    v.jwt_secret = None;
    assert_eq!(AppConfig::from_values(&v), err("未知的 APP_ENV: nowhere"));
    v.app_env = None;
    assert_eq!(AppConfig::from_values(&v), err("JWT_SECRET 未设置"));
    v.jwt_secret = Some("s".to_string());
    v.database_url = None;
    v.http_port = Some("80a".to_string());
    assert_eq!(AppConfig::from_values(&v), err("HTTP_PORT 解析失败: invalid digit found in string"));
    v.http_port = Some("70000".to_string());
    assert_eq!(AppConfig::from_values(&v), err("HTTP_PORT 解析失败: number too large to fit in target type"));
    v.http_port = Some(String::new());
    assert_eq!(AppConfig::from_values(&v), err("HTTP_PORT 解析失败: cannot parse integer from empty string"));
    v.http_port = None;
    v.database_max_connections = Some("-1".to_string());
    assert_eq!(
        AppConfig::from_values(&v),
        err("DATABASE_MAX_CONNECTIONS 解析失败: invalid digit found in string")
    );
    v.database_max_connections = None;
    v.jwt_ttl_seconds = Some("-9223372036854775809".to_string());
    assert_eq!(
        AppConfig::from_values(&v),
        err("JWT_TTL_SECONDS 解析失败: number too small to fit in target type")
    );
    v.jwt_ttl_seconds = None;
    assert_eq!(AppConfig::from_values(&v), err("DATABASE_URL 未设置"));
}
