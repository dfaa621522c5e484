use ruuvi_data_forwarder_rs::config::{CatalogTypeCfg, ResourceLimits};
use ruuvi_data_forwarder_rs::dto::RuuviTelemetry;
use ruuvi_data_forwarder_rs::error::SinkError;
use ruuvi_data_forwarder_rs::sink::duckdb::{create_table_sql, insert_sql};
use ruuvi_data_forwarder_rs::sink::ducklake::{
    attach_sql, open_ducklake_connection, CatalogType, DuckLakeConfig, DuckLakeSink,
};
use ruuvi_data_forwarder_rs::sink::{Place, SensorValuesSink, Step, WritePlan};

fn config(catalog_type: CatalogType) -> DuckLakeConfig {
    DuckLakeConfig {
        catalog_type,
        catalog_path: "catalog".into(),
        data_path: "data".into(),
    }
}

fn execute(sql: &str) -> Step {
    Step::Execute(sql.to_string())
}

#[test]
fn postgres_attach_uses_catalog_prefix_and_escapes_literals() {
    let config = DuckLakeConfig {
        catalog_type: CatalogType::Postgres,
        catalog_path: "dbname=ruuvi password='secret'".into(),
        data_path: "unused".into(),
    };
    let sql = attach_sql(&config, "/tmp/it's-data", "");
    assert_eq!(
        sql,
        "ATTACH 'ducklake:postgres:dbname=ruuvi password=''secret''' AS ducklake (DATA_PATH '/tmp/it''s-data', AUTOMATIC_MIGRATION)"
    );
}

#[test]
fn file_catalogs_are_attached_by_their_absolute_path() {
    assert_eq!(
        attach_sql(&config(CatalogType::DuckDB), "/data", "/x/it's"),
        "ATTACH 'ducklake:/x/it''s' AS ducklake (DATA_PATH '/data', AUTOMATIC_MIGRATION)"
    );
    assert_eq!(
        attach_sql(&config(CatalogType::SQLite), "/data", "/x/c.sqlite"),
        "ATTACH 'ducklake:sqlite:/x/c.sqlite' AS ducklake (DATA_PATH '/data', AUTOMATIC_MIGRATION)"
    );
}

#[test]
fn sqlite_lake_is_created_and_attached() {
    let limits = ResourceLimits {
        memory_limit: None,
        threads: Some(4),
    };
    assert_eq!(
        open_ducklake_connection(&config(CatalogType::SQLite), &limits, true),
        vec![
            Step::Resolve(Place::Data),
            Step::CreateDirectory(Place::Data),
            Step::Resolve(Place::Catalog),
            Step::CreateParent(Place::Catalog),
            Step::OpenInMemory,
            execute("SET threads = 4"),
            execute("INSTALL ducklake; LOAD ducklake;"),
            execute("INSTALL sqlite; LOAD sqlite;"),
            Step::Resolve(Place::Catalog),
            Step::Attach,
        ]
    );
}

#[test]
fn existing_places_are_required_otherwise() {
    assert_eq!(
        open_ducklake_connection(&config(CatalogType::DuckDB), &ResourceLimits::default(), false),
        vec![
            Step::Resolve(Place::Data),
            Step::RequireDirectory(Place::Data),
            Step::Resolve(Place::Catalog),
            Step::RequireFile(Place::Catalog),
            Step::OpenInMemory,
            execute("INSTALL ducklake; LOAD ducklake;"),
            Step::Resolve(Place::Catalog),
            Step::Attach,
        ]
    );
}

#[test]
fn postgres_catalogs_are_no_files() {
    for create in [true, false] {
        let plan = open_ducklake_connection(
            &config(CatalogType::Postgres),
            &ResourceLimits::default(),
            create,
        );
        assert!(!plan.contains(&Step::Resolve(Place::Catalog)));
        assert!(!plan.contains(&Step::CreateParent(Place::Catalog)));
        assert!(!plan.contains(&Step::RequireFile(Place::Catalog)));
        assert!(plan.contains(&execute("INSTALL postgres; LOAD postgres;")));
        assert_eq!(plan.last(), Some(&Step::Attach));
    }
}

#[test]
fn sink_writes_to_a_table_of_the_lake() {
    let sink = DuckLakeSink::new_with_debug(
        "telemetry",
        5,
        30,
        config(CatalogType::SQLite),
        ResourceLimits::default(),
        true,
    )
    .unwrap();
    assert_eq!(sink.desired_batch_size(), 5);
    assert_eq!(sink.desired_max_batch_latency(), 30_000_000_000);
    assert_eq!(sink.insert_sql(), insert_sql("ducklake.telemetry"));
    let mut plan = open_ducklake_connection(
        &config(CatalogType::SQLite),
        &ResourceLimits::default(),
        true,
    );
    plan.push(Step::Execute(create_table_sql("ducklake.telemetry")));
    assert_eq!(sink.connection_plan(), plan);

    let record = RuuviTelemetry {
        temperature_millicelsius: 1,
        humidity: 1,
        pressure: 1,
        battery_potential: 1,
        tx_power: 1,
        movement_counter: 1,
        measurement_sequence_number: 1,
        measurement_ts_ms: 1,
        mac_address: vec![1, 2, 3, 4, 5, 6],
    };
    assert_eq!(sink.write_batch(&vec![]), WritePlan::Skip);
    assert_eq!(
        sink.write_batch(&vec![record]),
        WritePlan::Insert(Some(
            "Inserting batch of 1 records into DuckLake table ducklake.telemetry".to_string()
        ))
    );
}

#[test]
fn lake_sink_refuses_what_the_database_sink_refuses() {
    let refused = |table: &str, batch_size: usize, latency: u64| {
        DuckLakeSink::new(
            table,
            batch_size,
            latency,
            config(CatalogType::DuckDB),
            ResourceLimits::default(),
        )
        .err()
    };
    assert_eq!(
        refused("a.b", 0, 0),
        Some(SinkError::InvalidTableName("a.b".to_string()))
    );
    assert_eq!(
        refused("t", 0, 30),
        Some(SinkError::ConfigError("batch size must be greater than zero".to_string()))
    );
    assert_eq!(
        refused("t", 5, 0),
        Some(SinkError::ConfigError("batch latency must be greater than zero".to_string()))
    );
    assert_eq!(refused("t", 5, 30), None);
}

#[test]
fn configured_catalog_types_carry_over() {
    assert_eq!(CatalogType::from(CatalogTypeCfg::DuckDB), CatalogType::DuckDB);
    assert_eq!(CatalogType::from(CatalogTypeCfg::SQLite), CatalogType::SQLite);
    assert_eq!(CatalogType::from(CatalogTypeCfg::Postgres), CatalogType::Postgres);
}

#[test]
fn a_cloned_place_is_the_same() {
    let place = config(CatalogType::SQLite);
    let copy = place.clone();
    assert_eq!(copy.catalog_type, place.catalog_type);
    assert_eq!(copy.catalog_path, place.catalog_path);
    assert_eq!(copy.data_path, place.data_path);
}
