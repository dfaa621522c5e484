use ruuvi_data_forwarder_rs::config::{
    config_files, config_overrides, environment_overrides, load_config, AppConfig, CatalogTypeCfg,
    ConfigError, ConfigFile, DuckDBConfig, PipelineConfig, ResourceLimits, SinkType,
};
use ruuvi_data_forwarder_rs::pattern::{memory_limit, MEMORY_LIMIT_PATTERN, TABLE_NAME_PATTERN};

fn database() -> AppConfig {
    let mut config = AppConfig::embedded_defaults();
    config.sink.sink_type = SinkType::DuckDB;
    config
}

fn lake() -> AppConfig {
    let mut config = database();
    config.sink.duckdb.as_mut().unwrap().ducklake_enabled = true;
    config
}

fn refusal(config: &AppConfig) -> Option<String> {
    config.validate().err().map(|error| error.message())
}

fn refused_database(change: impl FnOnce(&mut DuckDBConfig)) -> String {
    let mut config = database();
    change(config.sink.duckdb.as_mut().unwrap());
    refusal(&config).unwrap()
}

#[test]
fn embedded_defaults_are_valid() {
    let config: AppConfig = AppConfig::embedded_defaults();
    config.validate().unwrap();
    assert_eq!(config.sink.sink_type, SinkType::Console);
    assert_eq!(config.pipeline.max_write_retries, 3);
}

#[test]
fn invalid_batch_configuration_is_rejected_before_startup() {
    // RUUVI_SINK_TYPE=duckdb RUUVI_DUCKDB_DESIRED_BATCH_SIZE=0
    let mut config = AppConfig::embedded_defaults();
    config.sink.sink_type = SinkType::DuckDB;
    config.sink.duckdb.as_mut().unwrap().desired_batch_size = 0;
    let error = load_config(Ok(config)).err().unwrap();
    assert!(error
        .message()
        .contains("desired_batch_size must be greater than zero"));
}

#[test]
fn embedded_database_and_lake_would_work() {
    assert_eq!(refusal(&database()), None);
    assert_eq!(refusal(&lake()), None);
    let config = AppConfig::embedded_defaults();
    let database = config.sink.duckdb.unwrap();
    assert_eq!(database.path, "telemetry.db");
    assert_eq!(database.table_name, "telemetry");
    assert_eq!(database.desired_batch_size, 5);
    assert_eq!(database.desired_max_batch_latency_seconds, 30);
    assert_eq!(database.ducklake.unwrap().data_path, "ducklake_files");
}

#[test]
fn default_pipeline_settings() {
    let pipeline = PipelineConfig::default();
    assert_eq!(pipeline.max_write_retries, 3);
    assert_eq!(pipeline.initial_retry_delay_ms, 250);
    assert_eq!(pipeline.max_retry_delay_ms, 5_000);
    assert_eq!(pipeline.shutdown_timeout_seconds, 30);
    let limits = ResourceLimits::default();
    assert_eq!(limits.memory_limit, None);
    assert_eq!(limits.threads, None);
}

#[test]
fn pipeline_settings_are_checked_for_every_sink() {
    let mut config = AppConfig::embedded_defaults();
    config.pipeline.shutdown_timeout_seconds = 0;
    assert_eq!(
        refusal(&config).unwrap(),
        "pipeline.shutdown_timeout_seconds must be greater than zero"
    );
    config.pipeline.max_retry_delay_ms = 249;
    assert_eq!(
        refusal(&config).unwrap(),
        "pipeline.max_retry_delay_ms must be greater than or equal to initial_retry_delay_ms"
    );
    config.pipeline.initial_retry_delay_ms = 0;
    assert_eq!(
        refusal(&config).unwrap(),
        "pipeline.initial_retry_delay_ms must be greater than zero"
    );
}

#[test]
fn database_settings_are_checked_only_for_the_database() {
    let mut config = database();
    config.sink.duckdb = None;
    assert_eq!(
        refusal(&config).unwrap(),
        "DuckDB sink selected but configuration is missing"
    );
    config.sink.sink_type = SinkType::Console;
    assert_eq!(refusal(&config), None);
}

#[test]
fn database_settings_are_refused_one_by_one() {
    assert_eq!(
        refused_database(|db| db.path = " ".to_string()),
        "sink.duckdb.path must not be empty"
    );
    assert_eq!(
        refused_database(|db| db.desired_batch_size = 0),
        "sink.duckdb.desired_batch_size must be greater than zero"
    );
    assert_eq!(
        refused_database(|db| db.desired_max_batch_latency_seconds = 0),
        "sink.duckdb.desired_max_batch_latency_seconds must be greater than zero"
    );
    assert_eq!(
        refused_database(|db| db.resource_limits.threads = Some(0)),
        "sink.duckdb.resource_limits.threads must be greater than zero"
    );
    assert_eq!(
        refused_database(|db| db.resource_limits.memory_limit = Some("much".to_string())),
        "sink.duckdb.resource_limits.memory_limit must be a positive size such as 200MB or 2GiB"
    );
    assert_eq!(
        refused_database(|db| {
            db.ducklake_enabled = true;
            db.ducklake = None;
        }),
        "DuckLake enabled but ducklake configuration is missing"
    );
}

#[test]
fn lake_needs_no_database_path() {
    let mut config = lake();
    config.sink.duckdb.as_mut().unwrap().path = String::new();
    assert_eq!(refusal(&config), None);
}

#[test]
fn lake_settings_are_refused_one_by_one() {
    let mut config = lake();
    let place = config.sink.duckdb.as_mut().unwrap().ducklake.as_mut().unwrap();
    place.data_path = "\u{2003}".to_string();
    assert_eq!(
        refusal(&config).unwrap(),
        "sink.duckdb.ducklake.data_path must not be empty"
    );
    let place = config.sink.duckdb.as_mut().unwrap().ducklake.as_mut().unwrap();
    place.catalog_path = String::new();
    assert_eq!(
        refusal(&config).unwrap(),
        "sink.duckdb.ducklake.catalog_path must not be empty"
    );
}

#[test]
fn postgres_catalogs_are_connection_strings() {
    let mut config = lake();
    let mut check = |path: &str| {
        let place = config.sink.duckdb.as_mut().unwrap().ducklake.as_mut().unwrap();
        place.catalog_type = CatalogTypeCfg::Postgres;
        place.catalog_path = path.to_string();
        refusal(&config)
    };
    for path in [
        "dbname=ruuvi",
        " postgres://host/db",
        "postgresql://host/db ",
        "a=b",
    ] {
        assert_eq!(check(path), None, "{path}");
    }
    for path in ["catalog.sqlite", "postgres:/host", "xpostgres://host"] {
        assert_eq!(
            check(path).unwrap(),
            "PostgreSQL DuckLake catalog_path must be a libpq connection string or PostgreSQL URI"
        );
    }
}

#[test]
fn memory_limits_are_positive_sizes() {
    for limit in [
        "200MB", "2GiB", "1b", " 10 kb ", "1.5TB", "9tib", "3\u{2003}MiB", "5Gb", "1\u{212a}b",
    ] {
        assert!(memory_limit(limit), "{limit}");
    }
    for limit in [
        "", "0MB", "MB", "200", "-1MB", "1,5GB", "1.GB", ".5GB", "1 0MB", "200MBs", "2PB", "01MB",
        "1.5.5GB", "\u{0661}MB",
    ] {
        assert!(!memory_limit(limit), "{limit}");
    }
}

#[test]
fn patterns_are_those_of_the_expressions() {
    assert_eq!(TABLE_NAME_PATTERN, r"^[a-zA-Z_][a-zA-Z0-9_]*$");
    assert_eq!(
        MEMORY_LIMIT_PATTERN,
        r"(?i)^\s*[1-9][0-9]*(?:\.[0-9]+)?\s*(?:b|kb|mb|gb|tb|kib|mib|gib|tib)\s*$"
    );
}

#[test]
fn unreadable_configuration_is_refused_with_its_reason() {
    let error = load_config(Err("unknown field".to_string())).err().unwrap();
    assert_eq!(error, ConfigError::Message("unknown field".to_string()));
    assert!(load_config(Ok(AppConfig::embedded_defaults())).is_ok());
}

#[test]
fn files_are_read_in_order() {
    let default = || ConfigFile {
        name: "config/default".to_string(),
        required: false,
    };
    assert_eq!(config_files(None), vec![default()]);
    assert_eq!(
        config_files(Some("deployment.toml".to_string())),
        vec![
            default(),
            ConfigFile {
                name: "deployment.toml".to_string(),
                required: true
            }
        ]
    );
}

#[test]
fn variables_that_are_set_override_their_keys() {
    let names: Vec<&str> = environment_overrides().iter().map(|entry| entry.0).collect();
    let values = names
        .iter()
        .map(|name| match *name {
            "RUUVI_SINK_TYPE" => Some("duckdb".to_string()),
            "RUUVI_DUCKDB_THREADS" => Some("4".to_string()),
            "RUUVI_SHUTDOWN_TIMEOUT_SECONDS" => Some("9".to_string()),
            _ => None,
        })
        .collect();
    assert_eq!(
        config_overrides(&values),
        vec![
            ("sink.sink_type", "duckdb".to_string()),
            ("sink.duckdb.resource_limits.threads", "4".to_string()),
            ("pipeline.shutdown_timeout_seconds", "9".to_string()),
        ]
    );
}

#[test]
fn every_variable_has_its_key() {
    assert_eq!(
        environment_overrides(),
        vec![
            ("RUUVI_SINK_TYPE", "sink.sink_type"),
            ("RUUVI_DUCKDB_PATH", "sink.duckdb.path"),
            ("RUUVI_DUCKDB_TABLE_NAME", "sink.duckdb.table_name"),
            ("RUUVI_DUCKDB_DEBUG_LOGGING", "sink.duckdb.debug_logging"),
            ("RUUVI_DUCKDB_DESIRED_BATCH_SIZE", "sink.duckdb.desired_batch_size"),
            (
                "RUUVI_DUCKDB_DESIRED_MAX_BATCH_LATENCY_SECONDS",
                "sink.duckdb.desired_max_batch_latency_seconds"
            ),
            ("RUUVI_DUCKDB_DUCKLAKE_ENABLED", "sink.duckdb.ducklake_enabled"),
            ("RUUVI_DUCKDB_DUCKLAKE_CATALOG_TYPE", "sink.duckdb.ducklake.catalog_type"),
            ("RUUVI_DUCKDB_DUCKLAKE_CATALOG_PATH", "sink.duckdb.ducklake.catalog_path"),
            ("RUUVI_DUCKDB_DUCKLAKE_DATA_PATH", "sink.duckdb.ducklake.data_path"),
            (
                "RUUVI_DUCKDB_DUCKLAKE_MAINTENANCE_EXPIRE_OLDER_THAN",
                "sink.duckdb.ducklake.maintenance.expire_older_than"
            ),
            ("RUUVI_DUCKDB_MEMORY_LIMIT", "sink.duckdb.resource_limits.memory_limit"),
            ("RUUVI_DUCKDB_THREADS", "sink.duckdb.resource_limits.threads"),
            ("RUUVI_MAX_WRITE_RETRIES", "pipeline.max_write_retries"),
            ("RUUVI_INITIAL_RETRY_DELAY_MS", "pipeline.initial_retry_delay_ms"),
            ("RUUVI_MAX_RETRY_DELAY_MS", "pipeline.max_retry_delay_ms"),
            ("RUUVI_SHUTDOWN_TIMEOUT_SECONDS", "pipeline.shutdown_timeout_seconds"),
        ]
    );
}
