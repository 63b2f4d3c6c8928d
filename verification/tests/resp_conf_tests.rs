use user_server::conf::{AppConfig, CmdOpts, DbConfig, GrpcConfig, HttpConfig, RedisConfig};
use user_server::factory::GrpcChannelSettings;
use user_server::resp::ApiResponse;

#[test]
fn envelope_constructors_fix_their_fields() {
    let r: ApiResponse<i32> = ApiResponse::new(7, String::from("m"), Some(3));
    assert_eq!((r.code, r.message.as_str(), r.data), (7, "m", Some(3)));

    let r: ApiResponse<i32> = ApiResponse::ok("fine", Some(9));
    assert_eq!((r.code, r.message.as_str(), r.data), (200, "fine", Some(9)));

    let r = ApiResponse::success(1);
    assert_eq!((r.code, r.message.as_str(), r.data), (200, "success", Some(1)));

    let r: ApiResponse<i32> = ApiResponse::success_no_data();
    assert_eq!((r.code, r.message.as_str(), r.data), (200, "success", None));

    let r: ApiResponse<i32> = ApiResponse::success_with_msg("done");
    assert_eq!((r.code, r.message.as_str(), r.data), (200, "done", None));

    let r: ApiResponse<i32> = ApiResponse::err("broken");
    assert_eq!((r.code, r.message.as_str(), r.data), (-1, "broken", None));

    let r: ApiResponse<i32> = ApiResponse::err_with_code(1004, "refused");
    assert_eq!((r.code, r.message.as_str(), r.data), (1004, "refused", None));
}

fn sample_config() -> AppConfig {
    AppConfig {
        http: HttpConfig {
            port: 8080,
            log_level: String::from("info"),
            allowed_hosts: None,
        },
        grpc: GrpcConfig {
            name: String::from("user-grpc"),
            port: 50001,
            log_level: String::from("debug"),
        },
        database: DbConfig::default(),
        redis: RedisConfig {
            url: String::from("redis://localhost"),
            max_open: 10,
            max_idle: 5,
            timeout_sec: 3,
        },
        is_dev: true,
    }
}

#[test]
fn config_getters_expose_their_sections() {
    let config = sample_config();
    assert_eq!(config.http_config().port(), 8080);
    assert_eq!(config.http_config().log_level(), "info");
    assert_eq!(config.grpc_config().name(), "user-grpc");
    assert_eq!(config.grpc_config().port(), 50001);
    assert_eq!(config.grpc_config().log_level(), "debug");
    assert_eq!(config.redis().url(), "redis://localhost");
    assert_eq!(config.redis().max_open(), 10);
    assert_eq!(config.redis().max_idle(), 5);
    assert_eq!(config.redis().timeout_sec(), 3);
    assert!(config.is_dev());
}

#[test]
fn store_defaults_match_the_documented_values() {
    let db = DbConfig::default();
    assert_eq!(db.url(), "");
    assert_eq!(db.min_connections(), 3);
    assert_eq!(db.max_connections(), 10);
    assert_eq!(db.connect_timeout_secs(), 10);
    assert_eq!(db.acquire_timeout_secs(), 6);
    assert_eq!(db.idle_timeout_secs(), 600);
    assert_eq!(db.max_lifetime_secs(), 1800);
    assert!(!db.sqlx_logging());
    assert_eq!(db.schema(), "public");
    assert_eq!(db.timezone(), "Asia/Shanghai");
}

#[test]
fn allowed_hosts_default_to_local_addresses() {
    let config = sample_config();
    assert_eq!(config.http_config().allowed_host(), vec!["localhost", "127.0.0.1"]);
}

#[test]
fn configured_hosts_pass_through() {
    let mut config = sample_config();
    config.http.allowed_hosts = Some(vec![
        String::from("https://example.com"),
        String::from("https://other.example"),
    ]);
    assert_eq!(
        config.http_config().allowed_host(),
        vec!["https://example.com", "https://other.example"]
    );
}

#[test]
fn explicit_config_path_wins() {
    let opts = CmdOpts { config: Some(String::from("/etc/app.yml")) };
    assert_eq!(AppConfig::resolve_config_path(&opts, "prod"), "/etc/app.yml");
    assert_eq!(AppConfig::resolve_config_path(&opts, "dev"), "/etc/app.yml");
}

#[test]
fn run_mode_selects_the_profile() {
    let opts = CmdOpts { config: None };
    assert_eq!(AppConfig::resolve_config_path(&opts, "dev"), "./dev");
    assert_eq!(AppConfig::resolve_config_path(&opts, "prod"), "/app/conf/prod.yml");
    assert_eq!(AppConfig::resolve_config_path(&opts, "staging"), "/app/conf/prod.yml");
}

#[test]
fn channel_settings_default_to_the_documented_hygiene() {
    let settings = GrpcChannelSettings::default();
    assert_eq!(settings.timeout_secs, 30);
    assert_eq!(settings.connect_timeout_secs, 5);
    assert!(settings.keep_alive_while_idle);
}
