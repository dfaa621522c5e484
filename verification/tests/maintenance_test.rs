use ruuvi_data_forwarder_rs::config::{
    AppConfig, CatalogTypeCfg, DuckLakeConfig, DuckLakeMaintenanceConfig, ResourceLimits, SinkType,
};
use ruuvi_data_forwarder_rs::error::SinkError;
use ruuvi_data_forwarder_rs::maintenance::run_ducklake_maintenance;
use ruuvi_data_forwarder_rs::sink::ducklake::{CatalogType, DuckLakeConfig as LakePlace};
use ruuvi_data_forwarder_rs::sink::{Place, Step};
use ruuvi_data_forwarder_rs::startup::lake_place;
use std::collections::BTreeSet;

/// The defaults, with a SQLite catalog as the sink.
fn sqlite_lake() -> AppConfig {
    let mut config = AppConfig::embedded_defaults();
    config.sink.sink_type = SinkType::DuckDB;
    let database = config.sink.duckdb.as_mut().unwrap();
    database.ducklake_enabled = true;
    database.ducklake.as_mut().unwrap().catalog_type = CatalogTypeCfg::SQLite;
    config
}

fn lake(config: &mut AppConfig) -> &mut DuckLakeConfig {
    config.sink.duckdb.as_mut().unwrap().ducklake.as_mut().unwrap()
}

fn keep(config: &mut AppConfig, expire_older_than: &str) {
    lake(config).maintenance = Some(DuckLakeMaintenanceConfig {
        expire_older_than: expire_older_than.to_string(),
    });
}

fn refusal(config: &AppConfig) -> String {
    config.maintenance_settings().err().unwrap().message()
}

fn place(catalog_type: CatalogType) -> LakePlace {
    LakePlace {
        catalog_type,
        catalog_path: "catalog".to_string(),
        data_path: "data".to_string(),
    }
}

#[test]
fn explicit_retention_is_required() {
    assert!(refusal(&sqlite_lake()).contains("maintenance.expire_older_than must be configured"));
}

#[test]
fn duckdb_catalogs_are_rejected() {
    let mut config = sqlite_lake();
    lake(&mut config).catalog_type = CatalogTypeCfg::DuckDB;
    keep(&mut config, "1 week");
    assert!(refusal(&config).contains("DuckDB catalogs because they allow only one client"));
}

#[test]
fn missing_paths_fail_without_creating_storage() {
    let catalog = "/nowhere/missing/catalog.sqlite";
    let data = "/nowhere/missing/data";
    let mut config = sqlite_lake();
    lake(&mut config).catalog_path = catalog.to_string();
    lake(&mut config).data_path = data.to_string();
    keep(&mut config, "1 week");
    let settings = config.maintenance_settings().unwrap();
    let plan = run_ducklake_maintenance(
        &lake_place(&settings.ducklake),
        &settings.resource_limits,
        &settings.expire_older_than,
    )
    .unwrap();

    let mut files: BTreeSet<&str> = BTreeSet::new();
    let mut error = None;
    for step in plan {
        match &step {
            Step::Resolve(_) => {}
            Step::CreateDirectory(_) | Step::CreateParent(_) => {
                files.extend([catalog, data]);
            }
            Step::RequireDirectory(Place::Data) if files.contains(data) => {}
            Step::RequireDirectory(Place::Data) => {
                error = Some(step.failure(data.to_string()));
                break;
            }
            other => panic!("unexpected step {other:?}"),
        }
    }
    assert!(error
        .unwrap()
        .message()
        .contains("DuckLake data directory does not exist"));

    assert!(!files.contains(catalog));
    assert!(!files.contains(data));
}

#[test]
fn retention_is_bound_as_data_not_executed_as_sql() {
    let retention = "1 week'); DROP TABLE ducklake.telemetry; --";
    let mut config = sqlite_lake();
    keep(&mut config, retention);
    let settings = config.maintenance_settings().unwrap();
    let plan = run_ducklake_maintenance(
        &lake_place(&settings.ducklake),
        &settings.resource_limits,
        &settings.expire_older_than,
    )
    .unwrap();
    let mut bound = 0;
    for step in plan {
        match step {
            Step::Execute(sql) => assert!(!sql.contains("DROP TABLE")),
            Step::ExecuteWith(sql, parameter) => {
                assert_eq!(sql, "CALL ducklake.set_option('expire_older_than', ?)");
                assert_eq!(parameter, retention);
                bound += 1;
            }
            _ => {}
        }
    }
    assert_eq!(bound, 1);
}

#[test]
fn upkeep_takes_its_steps_in_order() {
    let limits = ResourceLimits {
        memory_limit: Some("1GB".to_string()),
        threads: None,
    };
    let plan = run_ducklake_maintenance(&place(CatalogType::Postgres), &limits, "1 week").unwrap();
    assert_eq!(
        plan,
        vec![
            Step::Resolve(Place::Data),
            Step::RequireDirectory(Place::Data),
            Step::OpenInMemory,
            Step::Execute("SET memory_limit = '1GB'".to_string()),
            Step::Execute("INSTALL ducklake; LOAD ducklake;".to_string()),
            Step::Execute("INSTALL postgres; LOAD postgres;".to_string()),
            Step::Attach,
            Step::ExecuteWith(
                "CALL ducklake.set_option('expire_older_than', ?)".to_string(),
                "1 week".to_string()
            ),
            Step::Execute("USE ducklake; CHECKPOINT;".to_string()),
        ]
    );
}

#[test]
fn upkeep_refuses_what_it_cannot_do() {
    let limits = ResourceLimits::default();
    assert_eq!(
        run_ducklake_maintenance(&place(CatalogType::DuckDB), &limits, ""),
        Err(SinkError::ConfigError(
            "DuckDB-backed DuckLake catalogs do not support a concurrent maintenance client"
                .to_string()
        ))
    );
    for blank in ["", " ", "\t\n\u{3000}"] {
        assert_eq!(
            run_ducklake_maintenance(&place(CatalogType::SQLite), &limits, blank),
            Err(SinkError::ConfigError("expire_older_than must not be empty".to_string()))
        );
    }
}

#[test]
fn settings_for_upkeep_are_refused_one_by_one() {
    let mut config = AppConfig::embedded_defaults();
    assert_eq!(refusal(&config), "DuckLake maintenance requires sink.sink_type = 'duckdb'");
    config.sink.sink_type = SinkType::DuckDB;
    assert_eq!(
        refusal(&config),
        "DuckLake maintenance requires sink.duckdb.ducklake_enabled = true"
    );
    config.sink.duckdb.as_mut().unwrap().ducklake_enabled = true;
    let mut without_lake = config.clone();
    without_lake.sink.duckdb.as_mut().unwrap().ducklake = None;
    assert_eq!(refusal(&without_lake), "DuckLake maintenance configuration is missing");
    keep(&mut config, " \t");
    assert_eq!(
        refusal(&config),
        "sink.duckdb.ducklake.maintenance.expire_older_than must not be empty"
    );
    config.sink.duckdb = None;
    assert_eq!(refusal(&config), "DuckDB sink selected but configuration is missing");
}

#[test]
fn retention_is_trimmed() {
    let mut config = sqlite_lake();
    keep(&mut config, "  1 week\n");
    config.sink.duckdb.as_mut().unwrap().resource_limits.threads = Some(3);
    let settings = config.maintenance_settings().unwrap();
    assert_eq!(settings.expire_older_than, "1 week");
    assert_eq!(settings.resource_limits.threads, Some(3));
    assert_eq!(settings.ducklake.catalog_path, "catalog.sqlite");
}
