//! The configuration of the forwarder: what it holds, its defaults, where its values come
//! from, and which values are refused.
use crate::pattern::{is_memory_limit, memory_limit};
use crate::text::{
    blank, contains, is_blank, is_space, is_surrounded, law_trimmed_text_stays,
    law_trimming_takes_white_space_only,
    lemma_blank_is_trimmed_to_nothing, starts_with, trim, trimmed,
};
use vstd::prelude::*;

verus! {

/// Where telemetry goes.
#[derive(Debug, Clone, Copy, PartialEq, Eq, Structural)]
pub enum SinkType {
    Console,
    DuckDB,
}

/// What holds the catalog of a DuckLake.
#[derive(Debug, Clone, Copy, PartialEq, Eq, Structural)]
pub enum CatalogTypeCfg {
    DuckDB,
    SQLite,
    Postgres,
}

/// The upkeep of a DuckLake.
#[derive(Debug)]
pub struct DuckLakeMaintenanceConfig {
    pub expire_older_than: String,
}

impl Clone for DuckLakeMaintenanceConfig {
    fn clone(&self) -> (r: Self)
        ensures
            r == *self,
    {
        DuckLakeMaintenanceConfig { expire_older_than: self.expire_older_than.clone() }
    }
}

/// A DuckLake: its catalog and the directory of its data.
#[derive(Debug)]
pub struct DuckLakeConfig {
    pub catalog_type: CatalogTypeCfg,
    pub catalog_path: String,
    pub data_path: String,
    pub maintenance: Option<DuckLakeMaintenanceConfig>,
}

impl Clone for DuckLakeConfig {
    fn clone(&self) -> (r: Self)
        ensures
            r == *self,
    {
        DuckLakeConfig {
            catalog_type: self.catalog_type,
            catalog_path: self.catalog_path.clone(),
            data_path: self.data_path.clone(),
            maintenance: match &self.maintenance {
                Some(maintenance) => Some(maintenance.clone()),
                None => None,
            },
        }
    }
}

/// What the database may use.
#[derive(Debug)]
pub struct ResourceLimits {
    pub memory_limit: Option<String>,
    pub threads: Option<usize>,
}

impl Clone for ResourceLimits {
    fn clone(&self) -> (r: Self)
        ensures
            r == *self,
    {
        ResourceLimits {
            memory_limit: match &self.memory_limit {
                Some(limit) => Some(limit.clone()),
                None => None,
            },
            threads: self.threads,
        }
    }
}

impl Default for ResourceLimits {
    fn default() -> (r: Self)
        ensures
            r.memory_limit is None,
            r.threads is None,
    {
        ResourceLimits { memory_limit: None, threads: None }
    }
}

/// The database sink.
#[derive(Debug)]
pub struct DuckDBConfig {
    pub path: String,
    pub table_name: String,
    pub debug_logging: bool,
    pub desired_batch_size: usize,
    pub desired_max_batch_latency_seconds: u64,
    pub ducklake_enabled: bool,
    pub ducklake: Option<DuckLakeConfig>,
    pub resource_limits: ResourceLimits,
}

impl Clone for DuckDBConfig {
    fn clone(&self) -> (r: Self)
        ensures
            r == *self,
    {
        DuckDBConfig {
            path: self.path.clone(),
            table_name: self.table_name.clone(),
            debug_logging: self.debug_logging,
            desired_batch_size: self.desired_batch_size,
            desired_max_batch_latency_seconds: self.desired_max_batch_latency_seconds,
            ducklake_enabled: self.ducklake_enabled,
            ducklake: match &self.ducklake {
                Some(ducklake) => Some(ducklake.clone()),
                None => None,
            },
            resource_limits: self.resource_limits.clone(),
        }
    }
}

/// The sink and its settings.
#[derive(Debug)]
pub struct SinkConfig {
    pub sink_type: SinkType,
    pub duckdb: Option<DuckDBConfig>,
}

impl Clone for SinkConfig {
    fn clone(&self) -> (r: Self)
        ensures
            r == *self,
    {
        SinkConfig {
            sink_type: self.sink_type,
            duckdb: match &self.duckdb {
                Some(duckdb) => Some(duckdb.clone()),
                None => None,
            },
        }
    }
}

/// How the pipeline treats failures and how long it may take to stop.
#[derive(Debug, Clone, Copy, PartialEq, Eq)]
pub struct PipelineConfig {
    pub max_write_retries: u32,
    pub initial_retry_delay_ms: u64,
    pub max_retry_delay_ms: u64,
    pub shutdown_timeout_seconds: u64,
}

impl Default for PipelineConfig {
    fn default() -> (r: Self)
        ensures
            r.max_write_retries == 3,
            r.initial_retry_delay_ms == 250,
            r.max_retry_delay_ms == 5_000,
            r.shutdown_timeout_seconds == 30,
    {
        PipelineConfig {
            max_write_retries: 3,
            initial_retry_delay_ms: 250,
            max_retry_delay_ms: 5_000,
            shutdown_timeout_seconds: 30,
        }
    }
}

/// The configuration of the forwarder.
#[derive(Debug)]
pub struct AppConfig {
    pub sink: SinkConfig,
    pub pipeline: PipelineConfig,
}

impl Clone for AppConfig {
    fn clone(&self) -> (r: Self)
        ensures
            r == *self,
    {
        AppConfig {
            sink: self.sink.clone(),
            pipeline: self.pipeline,
        }
    }
}

/// What the upkeep of a DuckLake needs.
#[derive(Debug)]
pub struct MaintenanceSettings {
    pub ducklake: DuckLakeConfig,
    pub resource_limits: ResourceLimits,
    pub expire_older_than: String,
}

impl Clone for MaintenanceSettings {
    fn clone(&self) -> (r: Self)
        ensures
            r == *self,
    {
        MaintenanceSettings {
            ducklake: self.ducklake.clone(),
            resource_limits: self.resource_limits.clone(),
            expire_older_than: self.expire_older_than.clone(),
        }
    }
}

/// Why a configuration is refused.
#[derive(Debug, PartialEq, Eq)]
pub enum ConfigError {
    Message(String),
}

impl ConfigError {
    /// The text of the error.
    pub open spec fn spec_message(self) -> Seq<char> {
        match self {
            ConfigError::Message(message) => message@,
        }
    }

    /// The text of the error.
    pub fn message(&self) -> (r: String)
        ensures
            r@ == self.spec_message(),
    {
        match self {
            ConfigError::Message(message) => message.clone(),
        }
    }
}

fn invalid<T>(message: &str) -> (r: Result<T, ConfigError>)
    ensures
        r matches Err(error) && error.spec_message() == message@,
{
    Err(ConfigError::Message(message.to_owned()))
}

impl PipelineConfig {
    /// What is wrong with the settings, if anything is.
    pub open spec fn fault(self) -> Option<Seq<char>> {
        if self.initial_retry_delay_ms == 0 {
            Some("pipeline.initial_retry_delay_ms must be greater than zero"@)
        } else if self.max_retry_delay_ms < self.initial_retry_delay_ms {
            Some(
                "pipeline.max_retry_delay_ms must be greater than or equal to initial_retry_delay_ms"@,
            )
        } else if self.shutdown_timeout_seconds == 0 {
            Some("pipeline.shutdown_timeout_seconds must be greater than zero"@)
        } else {
            None
        }
    }

    fn check(&self) -> (r: Result<(), ConfigError>)
        ensures
            refuses(r, self.fault()),
    {
        if self.initial_retry_delay_ms == 0 {
            invalid("pipeline.initial_retry_delay_ms must be greater than zero")
        } else if self.max_retry_delay_ms < self.initial_retry_delay_ms {
            invalid(
                "pipeline.max_retry_delay_ms must be greater than or equal to initial_retry_delay_ms",
            )
        } else if self.shutdown_timeout_seconds == 0 {
            invalid("pipeline.shutdown_timeout_seconds must be greater than zero")
        } else {
            Ok(())
        }
    }
}

/// Whether the outcome of a check refuses exactly a fault.
pub open spec fn refuses(outcome: Result<(), ConfigError>, fault: Option<Seq<char>>) -> bool {
    match fault {
        None => outcome is Ok,
        Some(message) => outcome matches Err(error) && error.spec_message() == message,
    }
}

/// Whether the text can lead to a PostgreSQL catalog: a libpq connection string, which
/// holds an equals sign, or a PostgreSQL URI.
pub open spec fn is_postgres_catalog(path: Seq<char>) -> bool {
    let catalog = trimmed(path);
    ||| catalog.contains('=')
    ||| "postgres://"@.is_prefix_of(catalog)
    ||| "postgresql://"@.is_prefix_of(catalog)
}

impl DuckLakeConfig {
    /// What is wrong with the settings, if anything is.
    pub open spec fn fault(self) -> Option<Seq<char>> {
        if is_blank(self.catalog_path@) {
            Some("sink.duckdb.ducklake.catalog_path must not be empty"@)
        } else if is_blank(self.data_path@) {
            Some("sink.duckdb.ducklake.data_path must not be empty"@)
        } else if self.catalog_type is Postgres && !is_postgres_catalog(self.catalog_path@) {
            Some(
                "PostgreSQL DuckLake catalog_path must be a libpq connection string or PostgreSQL URI"@,
            )
        } else {
            None
        }
    }

    fn check(&self) -> (r: Result<(), ConfigError>)
        ensures
            refuses(r, self.fault()),
    {
        if blank(self.catalog_path.as_str()) {
            return invalid("sink.duckdb.ducklake.catalog_path must not be empty");
        }
        if blank(self.data_path.as_str()) {
            return invalid("sink.duckdb.ducklake.data_path must not be empty");
        }
        if self.catalog_type == CatalogTypeCfg::Postgres {
            let catalog = trim(self.catalog_path.as_str());
            if !contains(catalog, '=') && !starts_with(catalog, "postgres://") && !starts_with(
                catalog,
                "postgresql://",
            ) {
                return invalid(
                    "PostgreSQL DuckLake catalog_path must be a libpq connection string or PostgreSQL URI",
                );
            }
        }
        Ok(())
    }
}

impl DuckDBConfig {
    /// What is wrong with the settings, if anything is.
    pub open spec fn fault(self) -> Option<Seq<char>> {
        if is_blank(self.path@) && !self.ducklake_enabled {
            Some("sink.duckdb.path must not be empty"@)
        } else if self.desired_batch_size == 0 {
            Some("sink.duckdb.desired_batch_size must be greater than zero"@)
        } else if self.desired_max_batch_latency_seconds == 0 {
            Some("sink.duckdb.desired_max_batch_latency_seconds must be greater than zero"@)
        } else if self.resource_limits.threads == Some(0usize) {
            Some("sink.duckdb.resource_limits.threads must be greater than zero"@)
        } else if self.resource_limits.memory_limit is Some && !is_memory_limit(
            self.resource_limits.memory_limit->0@,
        ) {
            Some(
                "sink.duckdb.resource_limits.memory_limit must be a positive size such as 200MB or 2GiB"@,
            )
        } else if self.ducklake_enabled {
            match self.ducklake {
                None => Some("DuckLake enabled but ducklake configuration is missing"@),
                Some(lake) => lake.fault(),
            }
        } else {
            None
        }
    }

    fn check(&self) -> (r: Result<(), ConfigError>)
        ensures
            refuses(r, self.fault()),
    {
        if blank(self.path.as_str()) && !self.ducklake_enabled {
            return invalid("sink.duckdb.path must not be empty");
        }
        if self.desired_batch_size == 0 {
            return invalid("sink.duckdb.desired_batch_size must be greater than zero");
        }
        if self.desired_max_batch_latency_seconds == 0 {
            return invalid(
                "sink.duckdb.desired_max_batch_latency_seconds must be greater than zero",
            );
        }
        if let Some(threads) = self.resource_limits.threads {
            if threads == 0 {
                return invalid("sink.duckdb.resource_limits.threads must be greater than zero");
            }
        }
        if let Some(limit) = &self.resource_limits.memory_limit {
            if !memory_limit(limit.as_str()) {
                return invalid(
                    "sink.duckdb.resource_limits.memory_limit must be a positive size such as 200MB or 2GiB",
                );
            }
        }
        if self.ducklake_enabled {
            match &self.ducklake {
                None => {
                    return invalid("DuckLake enabled but ducklake configuration is missing");
                },
                Some(lake) => {
                    return lake.check();
                },
            }
        }
        Ok(())
    }
}

impl AppConfig {
    /// What is wrong with the configuration, if anything is. The database is looked at
    /// only where it is the sink.
    pub open spec fn fault(self) -> Option<Seq<char>> {
        if self.pipeline.fault() is Some {
            self.pipeline.fault()
        } else if self.sink.sink_type is DuckDB {
            match self.sink.duckdb {
                None => Some("DuckDB sink selected but configuration is missing"@),
                Some(db) => db.fault(),
            }
        } else {
            None
        }
    }

    /// Refuses values that the forwarder cannot work with, with the first fault found.
    pub fn validate(&self) -> (r: Result<(), ConfigError>)
        ensures
            refuses(r, self.fault()),
    {
        match self.pipeline.check() {
            Err(error) => {
                return Err(error);
            },
            Ok(()) => {},
        }
        if self.sink.sink_type == SinkType::DuckDB {
            match &self.sink.duckdb {
                None => {
                    return invalid("DuckDB sink selected but configuration is missing");
                },
                Some(db) => {
                    return db.check();
                },
            }
        }
        Ok(())
    }

    /// Why the configuration does not allow the upkeep of a DuckLake, if it does not.
    pub open spec fn maintenance_fault(self) -> Option<Seq<char>> {
        if !(self.sink.sink_type is DuckDB) {
            Some("DuckLake maintenance requires sink.sink_type = 'duckdb'"@)
        } else if self.sink.duckdb is None {
            Some("DuckDB sink selected but configuration is missing"@)
        } else if !self.sink.duckdb->0.ducklake_enabled {
            Some("DuckLake maintenance requires sink.duckdb.ducklake_enabled = true"@)
        } else if self.sink.duckdb->0.ducklake is None {
            Some("DuckLake maintenance configuration is missing"@)
        } else {
            let lake = self.sink.duckdb->0.ducklake->0;
            if lake.catalog_type is DuckDB {
                Some(
                    "DuckLake maintenance does not support DuckDB catalogs because they allow only one client; use SQLite or PostgreSQL"@,
                )
            } else if lake.maintenance is None {
                Some("sink.duckdb.ducklake.maintenance.expire_older_than must be configured"@)
            } else if is_blank(lake.maintenance->0.expire_older_than@) {
                Some("sink.duckdb.ducklake.maintenance.expire_older_than must not be empty"@)
            } else {
                None
            }
        }
    }

    /// What the upkeep of a DuckLake needs, or why the configuration does not allow it.
    pub fn maintenance_settings(&self) -> (r: Result<MaintenanceSettings, ConfigError>)
        ensures
            match self.maintenance_fault() {
                Some(message) => r matches Err(error) && error.spec_message() == message,
                None => {
                    &&& r matches Ok(settings)
                    &&& settings.ducklake == self.sink.duckdb->0.ducklake->0
                    &&& settings.resource_limits == self.sink.duckdb->0.resource_limits
                    &&& settings.expire_older_than@ == trimmed(
                        self.sink.duckdb->0.ducklake->0.maintenance->0.expire_older_than@,
                    )
                },
            },
    {
        if self.sink.sink_type != SinkType::DuckDB {
            return invalid("DuckLake maintenance requires sink.sink_type = 'duckdb'");
        }
        let db = match &self.sink.duckdb {
            Some(db) => db,
            None => {
                return invalid("DuckDB sink selected but configuration is missing");
            },
        };
        if !db.ducklake_enabled {
            return invalid("DuckLake maintenance requires sink.duckdb.ducklake_enabled = true");
        }
        let ducklake = match &db.ducklake {
            Some(ducklake) => ducklake,
            None => {
                return invalid("DuckLake maintenance configuration is missing");
            },
        };
        if ducklake.catalog_type == CatalogTypeCfg::DuckDB {
            return invalid(
                "DuckLake maintenance does not support DuckDB catalogs because they allow only one client; use SQLite or PostgreSQL",
            );
        }
        let maintenance = match &ducklake.maintenance {
            Some(maintenance) => maintenance,
            None => {
                return invalid(
                    "sink.duckdb.ducklake.maintenance.expire_older_than must be configured",
                );
            },
        };
        if blank(maintenance.expire_older_than.as_str()) {
            return invalid(
                "sink.duckdb.ducklake.maintenance.expire_older_than must not be empty",
            );
        }
        Ok(
            MaintenanceSettings {
                ducklake: ducklake.clone(),
                resource_limits: db.resource_limits.clone(),
                expire_older_than: trim(maintenance.expire_older_than.as_str()).to_owned(),
            },
        )
    }
}

/// The environment variables that override the configuration, with the keys they set, in
/// the order in which they are applied.
pub open spec fn environment_keys() -> Seq<(Seq<char>, Seq<char>)> {
    seq![
        ("RUUVI_SINK_TYPE"@, "sink.sink_type"@),
        ("RUUVI_DUCKDB_PATH"@, "sink.duckdb.path"@),
        ("RUUVI_DUCKDB_TABLE_NAME"@, "sink.duckdb.table_name"@),
        ("RUUVI_DUCKDB_DEBUG_LOGGING"@, "sink.duckdb.debug_logging"@),
        ("RUUVI_DUCKDB_DESIRED_BATCH_SIZE"@, "sink.duckdb.desired_batch_size"@),
        ("RUUVI_DUCKDB_DESIRED_MAX_BATCH_LATENCY_SECONDS"@, "sink.duckdb.desired_max_batch_latency_seconds"@),
        ("RUUVI_DUCKDB_DUCKLAKE_ENABLED"@, "sink.duckdb.ducklake_enabled"@),
        ("RUUVI_DUCKDB_DUCKLAKE_CATALOG_TYPE"@, "sink.duckdb.ducklake.catalog_type"@),
        ("RUUVI_DUCKDB_DUCKLAKE_CATALOG_PATH"@, "sink.duckdb.ducklake.catalog_path"@),
        ("RUUVI_DUCKDB_DUCKLAKE_DATA_PATH"@, "sink.duckdb.ducklake.data_path"@),
        ("RUUVI_DUCKDB_DUCKLAKE_MAINTENANCE_EXPIRE_OLDER_THAN"@, "sink.duckdb.ducklake.maintenance.expire_older_than"@),
        ("RUUVI_DUCKDB_MEMORY_LIMIT"@, "sink.duckdb.resource_limits.memory_limit"@),
        ("RUUVI_DUCKDB_THREADS"@, "sink.duckdb.resource_limits.threads"@),
        ("RUUVI_MAX_WRITE_RETRIES"@, "pipeline.max_write_retries"@),
        ("RUUVI_INITIAL_RETRY_DELAY_MS"@, "pipeline.initial_retry_delay_ms"@),
        ("RUUVI_MAX_RETRY_DELAY_MS"@, "pipeline.max_retry_delay_ms"@),
        ("RUUVI_SHUTDOWN_TIMEOUT_SECONDS"@, "pipeline.shutdown_timeout_seconds"@),
    ]
}

/// A table of names with its texts as sequences.
pub open spec fn table_view(table: Seq<(&'static str, &'static str)>) -> Seq<
    (Seq<char>, Seq<char>),
> {
    table.map_values(|row: (&'static str, &'static str)| (row.0@, row.1@))
}

/// The environment variables that override the configuration, with the keys they set.
pub fn environment_overrides() -> (r: Vec<(&'static str, &'static str)>)
    ensures
        table_view(r@) == environment_keys(),
{
    let table = vec![
        ("RUUVI_SINK_TYPE", "sink.sink_type"),
        ("RUUVI_DUCKDB_PATH", "sink.duckdb.path"),
        ("RUUVI_DUCKDB_TABLE_NAME", "sink.duckdb.table_name"),
        ("RUUVI_DUCKDB_DEBUG_LOGGING", "sink.duckdb.debug_logging"),
        ("RUUVI_DUCKDB_DESIRED_BATCH_SIZE", "sink.duckdb.desired_batch_size"),
        ("RUUVI_DUCKDB_DESIRED_MAX_BATCH_LATENCY_SECONDS", "sink.duckdb.desired_max_batch_latency_seconds"),
        ("RUUVI_DUCKDB_DUCKLAKE_ENABLED", "sink.duckdb.ducklake_enabled"),
        ("RUUVI_DUCKDB_DUCKLAKE_CATALOG_TYPE", "sink.duckdb.ducklake.catalog_type"),
        ("RUUVI_DUCKDB_DUCKLAKE_CATALOG_PATH", "sink.duckdb.ducklake.catalog_path"),
        ("RUUVI_DUCKDB_DUCKLAKE_DATA_PATH", "sink.duckdb.ducklake.data_path"),
        ("RUUVI_DUCKDB_DUCKLAKE_MAINTENANCE_EXPIRE_OLDER_THAN", "sink.duckdb.ducklake.maintenance.expire_older_than"),
        ("RUUVI_DUCKDB_MEMORY_LIMIT", "sink.duckdb.resource_limits.memory_limit"),
        ("RUUVI_DUCKDB_THREADS", "sink.duckdb.resource_limits.threads"),
        ("RUUVI_MAX_WRITE_RETRIES", "pipeline.max_write_retries"),
        ("RUUVI_INITIAL_RETRY_DELAY_MS", "pipeline.initial_retry_delay_ms"),
        ("RUUVI_MAX_RETRY_DELAY_MS", "pipeline.max_retry_delay_ms"),
        ("RUUVI_SHUTDOWN_TIMEOUT_SECONDS", "pipeline.shutdown_timeout_seconds"),
    ];
    assert(table_view(table@) =~= environment_keys());
    table
}

/// The keys to set, with their values: those whose variable is set, in order.
pub open spec fn set_keys(
    table: Seq<(Seq<char>, Seq<char>)>,
    values: Seq<Option<String>>,
) -> Seq<(Seq<char>, Seq<char>)>
    decreases table.len(),
{
    if table.len() == 0 || values.len() != table.len() {
        Seq::empty()
    } else {
        let earlier = set_keys(table.drop_last(), values.drop_last());
        match values.last() {
            Some(value) => earlier.push((table.last().1, value@)),
            None => earlier,
        }
    }
}

/// The overrides to apply, given the value that each variable of
/// [`environment_overrides`] has, if it is set.
pub fn config_overrides(values: &Vec<Option<String>>) -> (r: Vec<(&'static str, String)>)
    requires
        values@.len() == environment_keys().len(),
    ensures
        r@.map_values(|row: (&'static str, String)| (row.0@, row.1@)) == set_keys(
            environment_keys(),
            values@,
        ),
{
    let table = environment_overrides();
    let mut overrides: Vec<(&'static str, String)> = Vec::new();
    let ghost view = |row: (&'static str, String)| (row.0@, row.1@);
    let ghost keys = environment_keys();
    let mut i: usize = 0;
    assert(table@.len() == table_view(table@).len());
    assert(overrides@.map_values(view) =~= Seq::empty());
    while i < table.len()
        invariant
            i <= table@.len(),
            table@.len() == values@.len(),
            table_view(table@) == keys,
            keys.len() == table@.len(),
            view == (|row: (&'static str, String)| (row.0@, row.1@)),
            overrides@.map_values(view) == set_keys(keys.take(i as int), values@.take(i as int)),
        decreases table@.len() - i,
    {
        let ghost before = overrides@;
        assert(keys.take(i + 1).drop_last() =~= keys.take(i as int));
        assert(values@.take(i + 1).drop_last() =~= values@.take(i as int));
        assert(keys[i as int] == table_view(table@)[i as int]);
        if let Some(value) = &values[i] {
            overrides.push((table[i].1, value.clone()));
            assert(overrides@.map_values(view) =~= before.map_values(view).push(
                view(overrides@.last()),
            ));
        }
        i = i + 1;
    }
    assert(keys.take(i as int) =~= keys);
    assert(values@.take(i as int) =~= values@);
    overrides
}

/// A file that configuration is read from.
#[derive(Debug, PartialEq, Eq)]
pub struct ConfigFile {
    /// The name of the file.
    pub name: String,
    /// Whether it is an error that the file is missing.
    pub required: bool,
}

/// The files to read over the defaults, each overriding those before it: one under the
/// current directory that may be missing, and the one that was named, which may not.
pub fn config_files(named: Option<String>) -> (r: Vec<ConfigFile>)
    ensures
        r@.len() == if named is Some {
            2nat
        } else {
            1nat
        },
        r@[0].name@ == "config/default"@ && !r@[0].required,
        named is Some ==> r@[1] == (ConfigFile { name: named->0, required: true }),
{
    let mut files = vec![ConfigFile { name: "config/default".to_owned(), required: false }];
    if let Some(name) = named {
        files.push(ConfigFile { name, required: true });
    }
    files
}

impl AppConfig {
    /// The configuration that holds where nothing overrides it.
    pub fn embedded_defaults() -> (r: AppConfig)
        ensures
            r.fault() is None,
            r.sink.sink_type is Console,
            r.pipeline.max_write_retries == 3,
            r.pipeline.initial_retry_delay_ms == 250,
            r.pipeline.max_retry_delay_ms == 5_000,
            r.pipeline.shutdown_timeout_seconds == 30,
            ({
                &&& r.sink.duckdb matches Some(db)
                &&& db.path@ == "telemetry.db"@
                &&& db.table_name@ == "telemetry"@
                &&& !db.debug_logging
                &&& db.desired_batch_size == 5
                &&& db.desired_max_batch_latency_seconds == 30
                &&& !db.ducklake_enabled
                &&& db.resource_limits.memory_limit is None
                &&& db.resource_limits.threads is None
                &&& db.ducklake matches Some(lake)
                &&& lake.catalog_type is SQLite
                &&& lake.catalog_path@ == "catalog.sqlite"@
                &&& lake.data_path@ == "ducklake_files"@
                &&& lake.maintenance is None
                &&& db.fault() is None
                &&& lake.fault() is None
            }),
    {
        proof {
            reveal_strlit("telemetry.db");
            reveal_strlit("catalog.sqlite");
            reveal_strlit("ducklake_files");
            assert(!is_space("telemetry.db"@[0]));
            assert(!is_space("catalog.sqlite"@[0]));
            assert(!is_space("ducklake_files"@[0]));
        }
        AppConfig {
            sink: SinkConfig {
                sink_type: SinkType::Console,
                duckdb: Some(
                    DuckDBConfig {
                        path: "telemetry.db".to_owned(),
                        table_name: "telemetry".to_owned(),
                        debug_logging: false,
                        desired_batch_size: 5,
                        desired_max_batch_latency_seconds: 30,
                        ducklake_enabled: false,
                        ducklake: Some(
                            DuckLakeConfig {
                                catalog_type: CatalogTypeCfg::SQLite,
                                catalog_path: "catalog.sqlite".to_owned(),
                                data_path: "ducklake_files".to_owned(),
                                maintenance: None,
                            },
                        ),
                        resource_limits: ResourceLimits::default(),
                    },
                ),
            },
            pipeline: PipelineConfig::default(),
        }
    }
}

/// Accepts the configuration that was read, unless it could not be read or is refused.
pub fn load_config(parsed: Result<AppConfig, String>) -> (r: Result<AppConfig, ConfigError>)
    ensures
        match parsed {
            Err(detail) => r == Err::<AppConfig, ConfigError>(ConfigError::Message(detail)),
            Ok(config) => match config.fault() {
                None => r == Ok::<AppConfig, ConfigError>(config),
                Some(message) => r matches Err(error) && error.spec_message() == message,
            },
        },
{
    match parsed {
        Err(detail) => Err(ConfigError::Message(detail)),
        Ok(config) => match config.validate() {
            Ok(()) => Ok(config),
            Err(error) => Err(error),
        },
    }
}

/// What a database sink needs to work: where its records go, batches that fill and wait,
/// limits that can be kept, and, where it writes to a lake, a lake that can be found.
pub open spec fn database_works(db: DuckDBConfig) -> bool {
    &&& db.ducklake_enabled || !is_blank(db.path@)
    &&& db.desired_batch_size > 0
    &&& db.desired_max_batch_latency_seconds > 0
    &&& db.resource_limits.threads matches Some(threads) ==> threads > 0
    &&& db.resource_limits.memory_limit matches Some(limit) ==> is_memory_limit(limit@)
    &&& db.ducklake_enabled ==> {
        &&& db.ducklake matches Some(lake)
        &&& !is_blank(lake.catalog_path@)
        &&& !is_blank(lake.data_path@)
        &&& lake.catalog_type is Postgres ==> is_postgres_catalog(lake.catalog_path@)
    }
}

/// Exactly these configurations are accepted. Whatever the sink, retries wait for some
/// time, no maximum is below where it starts, and a shutdown has time; a database works
/// where it is the sink, and does not matter where it is not.
pub proof fn law_accepted_configurations_work(config: AppConfig)
    ensures
        config.fault() is None <==> {
            &&& config.pipeline.initial_retry_delay_ms > 0
            &&& config.pipeline.max_retry_delay_ms >= config.pipeline.initial_retry_delay_ms
            &&& config.pipeline.shutdown_timeout_seconds > 0
            &&& config.sink.sink_type is DuckDB ==> (config.sink.duckdb matches Some(db)
                && database_works(db))
        },
{
}

/// The settings of the pipeline come before those of the sink: where they are at fault, that
/// is what is reported, whatever the sink and its settings are. They are looked at in order.
pub proof fn law_pipeline_faults_are_reported_first(config: AppConfig)
    ensures
        ({
            let initial = config.pipeline.initial_retry_delay_ms;
            let maximum = config.pipeline.max_retry_delay_ms;
            let timeout = config.pipeline.shutdown_timeout_seconds;
            &&& initial == 0 ==> config.fault() == Some(
                "pipeline.initial_retry_delay_ms must be greater than zero"@,
            )
            &&& 0 < initial && maximum < initial ==> config.fault() == Some(
                "pipeline.max_retry_delay_ms must be greater than or equal to initial_retry_delay_ms"@,
            )
            &&& 0 < initial <= maximum && timeout == 0 ==> config.fault() == Some(
                "pipeline.shutdown_timeout_seconds must be greater than zero"@,
            )
        }),
{
}

/// A database that is the sink is told what it lacks: that it is missing, and otherwise the
/// first thing that keeps it from working.
pub proof fn law_database_faults_are_reported_in_order(config: AppConfig)
    requires
        config.pipeline.initial_retry_delay_ms > 0,
        config.pipeline.max_retry_delay_ms >= config.pipeline.initial_retry_delay_ms,
        config.pipeline.shutdown_timeout_seconds > 0,
        config.sink.sink_type is DuckDB,
    ensures
        config.sink.duckdb is None ==> config.fault() == Some(
            "DuckDB sink selected but configuration is missing"@,
        ),
        config.sink.duckdb matches Some(db) ==> {
            let placed = db.ducklake_enabled || !is_blank(db.path@);
            let batched = placed && db.desired_batch_size > 0;
            let waiting = batched && db.desired_max_batch_latency_seconds > 0;
            let threaded = waiting && db.resource_limits.threads != Some(0usize);
            let limited = threaded && (db.resource_limits.memory_limit matches Some(limit)
                ==> is_memory_limit(limit@));
            &&& !placed ==> config.fault() == Some("sink.duckdb.path must not be empty"@)
            &&& placed && !batched ==> config.fault() == Some(
                "sink.duckdb.desired_batch_size must be greater than zero"@,
            )
            &&& batched && !waiting ==> config.fault() == Some(
                "sink.duckdb.desired_max_batch_latency_seconds must be greater than zero"@,
            )
            &&& waiting && !threaded ==> config.fault() == Some(
                "sink.duckdb.resource_limits.threads must be greater than zero"@,
            )
            &&& threaded && !limited ==> config.fault() == Some(
                "sink.duckdb.resource_limits.memory_limit must be a positive size such as 200MB or 2GiB"@,
            )
            &&& limited && db.ducklake_enabled && db.ducklake is None ==> config.fault() == Some(
                "DuckLake enabled but ducklake configuration is missing"@,
            )
            &&& limited && !db.ducklake_enabled ==> config.fault() is None
        },
{
}

/// A lake that is the sink is told the first thing that keeps it from being found.
pub proof fn law_lake_faults_are_reported_in_order(
    config: AppConfig,
    db: DuckDBConfig,
    lake: DuckLakeConfig,
)
    requires
        config.pipeline.initial_retry_delay_ms > 0,
        config.pipeline.max_retry_delay_ms >= config.pipeline.initial_retry_delay_ms,
        config.pipeline.shutdown_timeout_seconds > 0,
        config.sink.sink_type is DuckDB,
        config.sink.duckdb == Some(db),
        db.desired_batch_size > 0,
        db.desired_max_batch_latency_seconds > 0,
        db.resource_limits.threads != Some(0usize),
        db.resource_limits.memory_limit matches Some(limit) ==> is_memory_limit(limit@),
        db.ducklake_enabled,
        db.ducklake == Some(lake),
    ensures
        is_blank(lake.catalog_path@) ==> config.fault() == Some(
            "sink.duckdb.ducklake.catalog_path must not be empty"@,
        ),
        !is_blank(lake.catalog_path@) && is_blank(lake.data_path@) ==> config.fault() == Some(
            "sink.duckdb.ducklake.data_path must not be empty"@,
        ),
        !is_blank(lake.catalog_path@) && !is_blank(lake.data_path@) ==> config.fault()
            == if lake.catalog_type is Postgres && !is_postgres_catalog(lake.catalog_path@) {
            Some(
                "PostgreSQL DuckLake catalog_path must be a libpq connection string or PostgreSQL URI"@,
            )
        } else {
            None
        },
{
}

/// Whether the text begins with the words once white space is taken off its start.
pub open spec fn begins_with(text: Seq<char>, words: Seq<char>) -> bool {
    exists|space: Seq<char>|
        is_blank(space) && (#[trigger] (space + words)).is_prefix_of(text)
}

proof fn lemma_trimmed_beginnings(text: Seq<char>, words: Seq<char>)
    requires
        words.len() > 0,
        !is_space(words[0]),
        !is_space(words.last()),
    ensures
        begins_with(text, words) <==> words.is_prefix_of(trimmed(text)),
{
    law_trimming_takes_white_space_only(text);
    let middle = trimmed(text);
    let (before, behind) = choose|before: Seq<char>, behind: Seq<char>| #[trigger]
        is_surrounded(text, before, middle, behind);
    if words.is_prefix_of(middle) {
        assert forall|i: int| 0 <= i < (before + words).len() implies (before + words)[i]
            == text[i] by {
            if i >= before.len() {
                assert(words[i - before.len()] == middle[i - before.len()]);
            }
        }
        assert((before + words).is_prefix_of(text));
        assert(is_blank(before));
    }
    if begins_with(text, words) {
        let space = choose|space: Seq<char>|
            is_blank(space) && (#[trigger] (space + words)).is_prefix_of(text);
        let all = space + words;
        assert(forall|i: int| 0 <= i < all.len() ==> #[trigger] all[i] == text[i]);
        assert(all[space.len() as int] == words[0]);
        assert(all[all.len() - 1] == words.last());
        let first = space.len() as int;
        let last = all.len() - 1;
        assert(all[first] == text[first]);
        if first < before.len() {
            assert(is_space(before[first]));
            assert(text[first] == before[first]);
        }
        if first >= before.len() + middle.len() {
            assert(is_space(behind[first - before.len() - middle.len()]));
            assert(text[first] == behind[first - before.len() - middle.len()]);
        }
        if last >= before.len() + middle.len() {
            assert(is_space(behind[last - before.len() - middle.len()]));
        }
        if before.len() < first {
            let k = before.len() as int;
            assert(middle[0] == text[k]);
            assert(all[k] == text[k]);
            assert(all[k] == space[k]);
            assert(is_space(space[k]));
        }
        assert(before.len() == first);
        assert forall|i: int| 0 <= i < words.len() implies words[i] == middle[i] by {
            assert(all[first + i] == text[first + i]);
        }
        assert(words =~= middle.subrange(0, words.len() as int));
    }
}

/// A PostgreSQL catalog is found by a text that holds an equals sign anywhere, or that
/// begins with the scheme of a PostgreSQL URI, white space aside.
pub proof fn law_postgres_catalogs_are_connection_strings_or_uris(path: Seq<char>)
    ensures
        is_postgres_catalog(path) <==> (exists|i: int|
            0 <= i < path.len() && #[trigger] path[i] == '=') || begins_with(
            path,
            "postgres://"@,
        ) || begins_with(path, "postgresql://"@),
{
    reveal_strlit("postgres://");
    reveal_strlit("postgresql://");
    lemma_trimmed_beginnings(path, "postgres://"@);
    lemma_trimmed_beginnings(path, "postgresql://"@);
    law_trimming_takes_white_space_only(path);
    let middle = trimmed(path);
    let (before, behind) = choose|before: Seq<char>, behind: Seq<char>| #[trigger]
        is_surrounded(path, before, middle, behind);
    if middle.contains('=') {
        let i = choose|i: int| 0 <= i < middle.len() && middle[i] == '=';
        assert(path[before.len() + i] == '=');
    }
    if exists|i: int| 0 <= i < path.len() && #[trigger] path[i] == '=' {
        let i = choose|i: int| 0 <= i < path.len() && #[trigger] path[i] == '=';
        if i < before.len() {
            assert(is_space(before[i]));
        } else if i >= before.len() + middle.len() {
            assert(is_space(behind[i - before.len() - middle.len()]));
        } else {
            assert(middle[i - before.len()] == '=');
        }
    }
}

/// Exactly these configurations allow the upkeep of a lake: the sink is a lake whose catalog
/// can be shared, and it is said how long snapshots are kept.
pub proof fn law_upkeep_needs_a_shared_lake_and_a_retention(config: AppConfig)
    ensures
        config.maintenance_fault() is None <==> {
            &&& config.sink.sink_type is DuckDB
            &&& config.sink.duckdb matches Some(db)
            &&& db.ducklake_enabled
            &&& db.ducklake matches Some(lake)
            &&& lake.catalog_type is SQLite || lake.catalog_type is Postgres
            &&& lake.maintenance matches Some(kept)
            &&& exists|i: int|
                0 <= i < kept.expire_older_than@.len() && !is_space(
                    #[trigger] kept.expire_older_than@[i],
                )
        },
{
}

/// Where upkeep is not allowed, the first thing that it lacks is reported.
pub proof fn law_upkeep_faults_are_reported_in_order(config: AppConfig)
    ensures
        ({
            let fault = config.maintenance_fault();
            match (config.sink.sink_type, config.sink.duckdb) {
                (SinkType::Console, _) => fault == Some(
                    "DuckLake maintenance requires sink.sink_type = 'duckdb'"@,
                ),
                (SinkType::DuckDB, None) => fault == Some(
                    "DuckDB sink selected but configuration is missing"@,
                ),
                (SinkType::DuckDB, Some(db)) => {
                    &&& !db.ducklake_enabled ==> fault == Some(
                        "DuckLake maintenance requires sink.duckdb.ducklake_enabled = true"@,
                    )
                    &&& db.ducklake_enabled && db.ducklake is None ==> fault == Some(
                        "DuckLake maintenance configuration is missing"@,
                    )
                    &&& db.ducklake_enabled && (db.ducklake matches Some(lake)
                        && lake.catalog_type is DuckDB) ==> fault == Some(
                        "DuckLake maintenance does not support DuckDB catalogs because they allow only one client; use SQLite or PostgreSQL"@,
                    )
                    &&& db.ducklake_enabled && (db.ducklake matches Some(lake)
                        && !(lake.catalog_type is DuckDB) && lake.maintenance is None) ==> fault
                        == Some(
                        "sink.duckdb.ducklake.maintenance.expire_older_than must be configured"@,
                    )
                    &&& db.ducklake_enabled && (db.ducklake matches Some(lake)
                        && !(lake.catalog_type is DuckDB) && (lake.maintenance matches Some(kept)
                        && trimmed(kept.expire_older_than@).len() == 0)) ==> fault == Some(
                        "sink.duckdb.ducklake.maintenance.expire_older_than must not be empty"@,
                    )
                },
            }
        }),
{
    if let Some(db) = config.sink.duckdb {
        if let Some(lake) = db.ducklake {
            if let Some(kept) = lake.maintenance {
                lemma_blank_is_trimmed_to_nothing(kept.expire_older_than@);
            }
        }
    }
}

/// Every variable that is set sets its key to its value as it stands, be it empty, and one
/// that is not set sets nothing: what two parts of the table set is what the one sets and
/// then what the other sets.
pub proof fn law_set_variables_set_their_keys(
    table: Seq<(Seq<char>, Seq<char>)>,
    values: Seq<Option<String>>,
    more: Seq<(Seq<char>, Seq<char>)>,
    more_values: Seq<Option<String>>,
    name: Seq<char>,
    key: Seq<char>,
    value: String,
)
    requires
        table.len() == values.len(),
        more.len() == more_values.len(),
    ensures
        set_keys(seq![(name, key)], seq![Some(value)]) == seq![(key, value@)],
        set_keys(seq![(name, key)], seq![None]) == Seq::<(Seq<char>, Seq<char>)>::empty(),
        set_keys(table + more, values + more_values) == set_keys(table, values) + set_keys(
            more,
            more_values,
        ),
    decreases more.len(),
{
    let nothing = Seq::<(Seq<char>, Seq<char>)>::empty();
    let one: Seq<(Seq<char>, Seq<char>)> = seq![(name, key)];
    let set: Seq<Option<String>> = seq![Some(value)];
    let unset: Seq<Option<String>> = seq![None];
    assert(one.drop_last() =~= nothing);
    assert(set_keys(one.drop_last(), set.drop_last()) =~= nothing);
    assert(set_keys(one.drop_last(), unset.drop_last()) =~= nothing);
    assert(set_keys(one, set) =~= seq![(key, value@)]);
    assert(set_keys(one, unset) =~= nothing);
    if more.len() == 0 {
        assert(table + more =~= table);
        assert(values + more_values =~= values);
        assert(set_keys(table, values) + set_keys(more, more_values) =~= set_keys(table, values));
    } else {
        law_set_variables_set_their_keys(
            table,
            values,
            more.drop_last(),
            more_values.drop_last(),
            name,
            key,
            value,
        );
        assert((table + more).drop_last() =~= table + more.drop_last());
        assert((values + more_values).drop_last() =~= values + more_values.drop_last());
        assert(set_keys(table + more, values + more_values) =~= set_keys(table, values) + set_keys(
            more,
            more_values,
        ));
    }
}

/// A check succeeds exactly where nothing is at fault, and otherwise says what is.
pub proof fn law_checks_refuse_exactly_what_is_at_fault(
    outcome: Result<(), ConfigError>,
    fault: Option<Seq<char>>,
)
    requires
        refuses(outcome, fault),
    ensures
        outcome is Ok <==> fault is None,
        outcome matches Err(ConfigError::Message(message)) ==> fault == Some(message@),
{
}

/// A configuration that is loaded is the one that was read, unchanged, and it works. One that
/// could not be read is refused with what the reading said.
pub proof fn law_loaded_configurations_work(
    parsed: Result<AppConfig, String>,
    loaded: Result<AppConfig, ConfigError>,
)
    requires
        call_ensures(load_config, (parsed,), loaded),
    ensures
        loaded matches Ok(config) ==> {
            &&& parsed == Ok::<AppConfig, String>(config)
            &&& config.pipeline.initial_retry_delay_ms > 0
            &&& config.pipeline.max_retry_delay_ms >= config.pipeline.initial_retry_delay_ms
            &&& config.pipeline.shutdown_timeout_seconds > 0
            &&& config.sink.sink_type is DuckDB ==> (config.sink.duckdb matches Some(db)
                && database_works(db))
        },
        parsed matches Ok(config) && config.fault() is None ==> loaded is Ok,
        parsed matches Err(detail) ==> loaded == Err::<AppConfig, ConfigError>(
            ConfigError::Message(detail),
        ),
{
}

/// A configuration is refused where it is validated exactly if it is where it is loaded, and
/// for the same reason.
pub proof fn law_loading_validates(
    config: AppConfig,
    loaded: Result<AppConfig, ConfigError>,
    validated: Result<(), ConfigError>,
)
    requires
        call_ensures(load_config, (Ok(config),), loaded),
        call_ensures(AppConfig::validate, (&config,), validated),
    ensures
        loaded is Ok <==> validated is Ok,
        loaded is Err ==> loaded->Err_0.spec_message() == validated->Err_0.spec_message(),
{
}

/// The settings of upkeep are those of the lake that is the sink, and a retention that says
/// something, with no white space around it.
pub proof fn law_upkeep_settings_are_those_of_the_sink(
    config: &AppConfig,
    settings: Result<MaintenanceSettings, ConfigError>,
)
    requires
        call_ensures(AppConfig::maintenance_settings, (config,), settings),
    ensures
        settings is Ok <==> config.maintenance_fault() is None,
        settings matches Ok(found) ==> {
            &&& config.sink.duckdb matches Some(db)
            &&& db.ducklake == Some(found.ducklake)
            &&& found.resource_limits == db.resource_limits
            &&& found.ducklake.maintenance matches Some(kept)
            &&& found.expire_older_than@ == trimmed(kept.expire_older_than@)
            &&& found.expire_older_than@.len() > 0
            &&& trimmed(found.expire_older_than@) == found.expire_older_than@
        },
{
    if let Ok(found) = settings {
        let kept = config.sink.duckdb->0.ducklake->0.maintenance->0.expire_older_than@;
        lemma_blank_is_trimmed_to_nothing(kept);
        law_trimmed_text_stays(kept);
    }
}

/// A named file is read last, and has to be there; the one under the current directory is
/// read first, and may be missing.
pub proof fn law_named_files_come_last(named: Option<String>, files: Vec<ConfigFile>)
    requires
        call_ensures(config_files, (named,), files),
    ensures
        files@.len() == if named is Some {
            2int
        } else {
            1int
        },
        files@[0].name@ == "config/default"@ && !files@[0].required,
        named matches Some(name) ==> files@.last() == (ConfigFile { name, required: true }),
{
}

} // verus!
