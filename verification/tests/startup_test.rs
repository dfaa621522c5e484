use ruuvi_data_forwarder_rs::config::{AppConfig, CatalogTypeCfg, ResourceLimits, SinkType};
use ruuvi_data_forwarder_rs::error::SinkError;
use ruuvi_data_forwarder_rs::sink::SensorValuesSink;
use ruuvi_data_forwarder_rs::startup::{
    choose_sink, log_resource_limits, sink_report, ChosenSink, StartupError,
};

fn database() -> AppConfig {
    let mut config = AppConfig::embedded_defaults();
    config.sink.sink_type = SinkType::DuckDB;
    config
}

fn lake(catalog_type: CatalogTypeCfg, catalog_path: &str) -> AppConfig {
    let mut config = database();
    let database = config.sink.duckdb.as_mut().unwrap();
    database.ducklake_enabled = true;
    let lake = database.ducklake.as_mut().unwrap();
    lake.catalog_type = catalog_type;
    lake.catalog_path = catalog_path.to_string();
    config
}

#[test]
fn limits_that_are_set_are_told() {
    assert!(log_resource_limits(&ResourceLimits::default()).is_empty());
    assert_eq!(
        log_resource_limits(&ResourceLimits {
            memory_limit: Some("64MB".to_string()),
            threads: Some(12),
        }),
        vec!["Memory limit: 64MB", "Thread limit: 12"]
    );
}

#[test]
fn console_is_told_and_chosen() {
    let config = AppConfig::embedded_defaults();
    assert_eq!(sink_report(&config.sink), vec!["Using Console sink (stdout)"]);
    assert!(matches!(choose_sink(&config.sink), Ok(ChosenSink::Console(_))));
}

#[test]
fn database_is_told_and_chosen() {
    let mut config = database();
    config.sink.duckdb.as_mut().unwrap().resource_limits.threads = Some(2);
    assert_eq!(
        sink_report(&config.sink),
        vec![
            "Using DuckDB sink: telemetry.db",
            "Table name: telemetry",
            "Batch size: 5",
            "Batch latency: 30s",
            "Thread limit: 2",
        ]
    );
    match choose_sink(&config.sink) {
        Ok(ChosenSink::DuckDB(sink)) => assert_eq!(sink.desired_batch_size(), 5),
        _ => panic!("another sink was chosen"),
    }
}

#[test]
fn lake_is_told_and_chosen() {
    let config = lake(CatalogTypeCfg::SQLite, "catalog.sqlite");
    assert_eq!(
        sink_report(&config.sink),
        vec![
            "Using DuckLake sink",
            "Catalog type: SQLite",
            "Catalog path: catalog.sqlite",
            "Data path: ducklake_files",
            "Table name: telemetry",
            "Batch size: 5",
            "Batch latency: 30s",
        ]
    );
    match choose_sink(&config.sink) {
        Ok(ChosenSink::DuckLake(sink)) => {
            assert!(sink.insert_sql().contains("INSERT INTO ducklake.telemetry ("))
        }
        _ => panic!("another sink was chosen"),
    }
    let config = lake(CatalogTypeCfg::DuckDB, "c");
    assert_eq!(sink_report(&config.sink)[1], "Catalog type: DuckDB");
}

#[test]
fn connection_strings_are_not_told() {
    let config = lake(CatalogTypeCfg::Postgres, "dbname=ruuvi password=hidden");
    let report = sink_report(&config.sink);
    assert_eq!(report[1], "Catalog type: Postgres");
    assert_eq!(report[2], "Catalog path: <postgres connection string redacted>");
    assert!(!report.concat().contains("hidden"));
}

#[test]
fn missing_settings_stop_the_start() {
    let missing = |config: &AppConfig| match choose_sink(&config.sink) {
        Err(error) => {
            assert!(sink_report(&config.sink).is_empty());
            assert!(matches!(error, StartupError::Missing(_)));
            error.message()
        }
        Ok(_) => panic!("a sink was chosen"),
    };
    let mut config = lake(CatalogTypeCfg::SQLite, "c");
    config.sink.duckdb.as_mut().unwrap().ducklake = None;
    assert_eq!(missing(&config), "DuckLake enabled but ducklake configuration is missing");
    config.sink.duckdb = None;
    assert_eq!(missing(&config), "DuckDB sink selected but configuration is missing");
}

#[test]
fn refused_settings_stop_the_start() {
    for mut config in [database(), lake(CatalogTypeCfg::SQLite, "c")] {
        config.sink.duckdb.as_mut().unwrap().table_name = "a b".to_string();
        match choose_sink(&config.sink) {
            Err(error) => {
                assert_eq!(
                    error,
                    StartupError::Sink(SinkError::InvalidTableName("a b".to_string()))
                );
                assert!(error.message().starts_with("Invalid table name 'a b'"));
            }
            Ok(_) => panic!("a sink was chosen"),
        }
    }
}
