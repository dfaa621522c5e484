//! What the forwarder does before it reads: which sink it takes, and what it says of it.
use crate::config::{
    AppConfig, CatalogTypeCfg, DuckDBConfig, DuckLakeConfig, ResourceLimits, SinkConfig, SinkType,
};
use crate::error::SinkError;
use crate::pattern::is_table_name;
use crate::sink::console::ConsoleSink;
use crate::sink::duckdb::{batch_fault, limit_steps, sink_accepted, sink_refused, DuckDBSink};
use crate::sink::ducklake::{
    catalog_type, lake_table, CatalogType, DuckLakeConfig as LakePlace, DuckLakeSink,
};
use crate::sink::SensorValuesSink;
use crate::text::{concat, concat3, decimal, decimal_text};
use vstd::prelude::*;

verus! {

/// The lines as sequences.
pub open spec fn lines_view(lines: Seq<String>) -> Seq<Seq<char>> {
    lines.map_values(|line: String| line@)
}

/// The lines on the limits of the database.
pub open spec fn limit_lines(limits: ResourceLimits) -> Seq<Seq<char>> {
    let memory = match limits.memory_limit {
        Some(limit) => seq!["Memory limit: "@ + limit@],
        None => Seq::empty(),
    };
    let threads = match limits.threads {
        Some(threads) => seq!["Thread limit: "@ + decimal(threads as nat)],
        None => Seq::empty(),
    };
    memory + threads
}

/// The lines on the limits of the database: those that are set.
pub fn log_resource_limits(limits: &ResourceLimits) -> (lines: Vec<String>)
    ensures
        lines_view(lines@) == limit_lines(*limits),
{
    let mut lines: Vec<String> = Vec::new();
    if let Some(limit) = &limits.memory_limit {
        lines.push(concat("Memory limit: ", limit.as_str()));
    }
    if let Some(threads) = limits.threads {
        lines.push(concat("Thread limit: ", decimal_text(threads as u64).as_str()));
    }
    assert(lines_view(lines@) =~= limit_lines(*limits));
    lines
}

/// What a kind of catalog is called.
pub open spec fn catalog_type_name(catalog_type: CatalogTypeCfg) -> Seq<char> {
    match catalog_type {
        CatalogTypeCfg::DuckDB => "DuckDB"@,
        CatalogTypeCfg::SQLite => "SQLite"@,
        CatalogTypeCfg::Postgres => "Postgres"@,
    }
}

/// The lines on where a lake is. A PostgreSQL connection string may carry credentials, so
/// it is not told.
pub open spec fn lake_lines(lake: DuckLakeConfig) -> Seq<Seq<char>> {
    seq![
        "Using DuckLake sink"@,
        "Catalog type: "@ + catalog_type_name(lake.catalog_type),
        if lake.catalog_type is Postgres {
            "Catalog path: <postgres connection string redacted>"@
        } else {
            "Catalog path: "@ + lake.catalog_path@
        },
        "Data path: "@ + lake.data_path@,
    ]
}

/// The lines on the table and the batches of a database, and on its limits.
pub open spec fn table_lines(db: DuckDBConfig) -> Seq<Seq<char>> {
    seq![
        "Table name: "@ + db.table_name@,
        "Batch size: "@ + decimal(db.desired_batch_size as nat),
        "Batch latency: "@ + decimal(db.desired_max_batch_latency_seconds as nat) + "s"@,
    ] + limit_lines(db.resource_limits)
}

/// The lines on the sink.
pub open spec fn sink_lines(sink: SinkConfig) -> Seq<Seq<char>> {
    match (sink.sink_type, sink.duckdb) {
        (SinkType::Console, _) => seq!["Using Console sink (stdout)"@],
        (SinkType::DuckDB, None) => Seq::empty(),
        (SinkType::DuckDB, Some(db)) => if !db.ducklake_enabled {
            seq!["Using DuckDB sink: "@ + db.path@] + table_lines(db)
        } else {
            match db.ducklake {
                Some(lake) => lake_lines(lake) + table_lines(db),
                None => Seq::empty(),
            }
        },
    }
}

fn lake_report(lake: &DuckLakeConfig) -> (lines: Vec<String>)
    ensures
        lines_view(lines@) == lake_lines(*lake),
{
    let mut lines: Vec<String> = Vec::new();
    lines.push("Using DuckLake sink".to_owned());
    let name = match lake.catalog_type {
        CatalogTypeCfg::DuckDB => "DuckDB",
        CatalogTypeCfg::SQLite => "SQLite",
        CatalogTypeCfg::Postgres => "Postgres",
    };
    lines.push(concat("Catalog type: ", name));
    if lake.catalog_type == CatalogTypeCfg::Postgres {
        lines.push("Catalog path: <postgres connection string redacted>".to_owned());
    } else {
        lines.push(concat("Catalog path: ", lake.catalog_path.as_str()));
    }
    lines.push(concat("Data path: ", lake.data_path.as_str()));
    assert(lines_view(lines@) =~= lake_lines(*lake));
    lines
}

fn table_report(db: &DuckDBConfig) -> (lines: Vec<String>)
    ensures
        lines_view(lines@) == table_lines(*db),
{
    let mut lines: Vec<String> = Vec::new();
    lines.push(concat("Table name: ", db.table_name.as_str()));
    lines.push(concat("Batch size: ", decimal_text(db.desired_batch_size as u64).as_str()));
    lines.push(
        concat3(
            "Batch latency: ",
            decimal_text(db.desired_max_batch_latency_seconds).as_str(),
            "s",
        ),
    );
    let ghost settings = lines@;
    let mut limits = log_resource_limits(&db.resource_limits);
    let ghost limiting = limits@;
    lines.append(&mut limits);
    assert(lines_view(lines@) =~= lines_view(settings) + lines_view(limiting));
    assert(lines_view(lines@) =~= table_lines(*db));
    lines
}

/// The lines on the sink that is about to be used.
pub fn sink_report(sink: &SinkConfig) -> (lines: Vec<String>)
    ensures
        lines_view(lines@) == sink_lines(*sink),
{
    let mut lines: Vec<String> = Vec::new();
    match sink.sink_type {
        SinkType::Console => {
            lines.push("Using Console sink (stdout)".to_owned());
            assert(lines_view(lines@) =~= sink_lines(*sink));
        },
        SinkType::DuckDB => if let Some(db) = &sink.duckdb {
            if !db.ducklake_enabled {
                lines.push(concat("Using DuckDB sink: ", db.path.as_str()));
                let ghost head = lines@;
                let mut rest = table_report(db);
                let ghost tail = rest@;
                lines.append(&mut rest);
                assert(lines_view(lines@) =~= lines_view(head) + lines_view(tail));
                assert(lines_view(lines@) =~= sink_lines(*sink));
            } else if let Some(lake) = &db.ducklake {
                let mut head = lake_report(lake);
                let mut tail = table_report(db);
                let ghost all = head@ + tail@;
                assert(lines_view(all) =~= lines_view(head@) + lines_view(tail@));
                head.append(&mut tail);
                return head;
            }
        },
    }
    assert(lines_view(lines@) =~= sink_lines(*sink));
    lines
}

/// Why the forwarder does not start.
#[derive(Debug, PartialEq, Eq)]
pub enum StartupError {
    /// Settings that the sink needs are missing.
    Missing(String),
    /// The sink refuses its settings.
    Sink(SinkError),
}

impl StartupError {
    /// The text of the error.
    pub open spec fn spec_message(self) -> Seq<char> {
        match self {
            StartupError::Missing(message) => message@,
            StartupError::Sink(error) => error.spec_message(),
        }
    }

    /// The text of the error.
    pub fn message(&self) -> (r: String)
        ensures
            r@ == self.spec_message(),
    {
        match self {
            StartupError::Missing(message) => message.clone(),
            StartupError::Sink(error) => error.message(),
        }
    }
}

/// The sink that telemetry goes to.
pub enum ChosenSink {
    Console(ConsoleSink),
    DuckDB(DuckDBSink),
    DuckLake(DuckLakeSink),
}

/// Whether the outcome of choosing a sink is right for a database without a lake.
pub open spec fn chooses_database(
    outcome: Result<ChosenSink, StartupError>,
    db: DuckDBConfig,
) -> bool {
    let latency = db.desired_max_batch_latency_seconds as nat;
    match outcome {
        Ok(ChosenSink::DuckDB(sink)) => {
            &&& sink_accepted(db.table_name@, db.desired_batch_size as nat, latency)
            &&& sink.path() == db.path@
            &&& sink.table() == db.table_name@
            &&& sink.batch_size() == db.desired_batch_size
            &&& sink.latency_seconds() == latency
            &&& sink.limits() == db.resource_limits
            &&& sink.debug() == db.debug_logging
        },
        Err(StartupError::Sink(error)) => sink_refused(
            db.table_name@,
            db.desired_batch_size as nat,
            latency,
            error,
        ),
        _ => false,
    }
}

/// Whether the outcome of choosing a sink is right for a database with a lake.
pub open spec fn chooses_lake(
    outcome: Result<ChosenSink, StartupError>,
    db: DuckDBConfig,
    lake: DuckLakeConfig,
) -> bool {
    let latency = db.desired_max_batch_latency_seconds as nat;
    match outcome {
        Ok(ChosenSink::DuckLake(sink)) => {
            &&& sink_accepted(db.table_name@, db.desired_batch_size as nat, latency)
            &&& sink.full_table() == lake_table(db.table_name@)
            &&& sink.batch_size() == db.desired_batch_size
            &&& sink.latency_seconds() == latency
            &&& sink.lake().catalog_type == catalog_type(lake.catalog_type)
            &&& sink.lake().catalog_path@ == lake.catalog_path@
            &&& sink.lake().data_path@ == lake.data_path@
            &&& sink.limits() == db.resource_limits
            &&& sink.debug() == db.debug_logging
        },
        Err(StartupError::Sink(error)) => sink_refused(
            db.table_name@,
            db.desired_batch_size as nat,
            latency,
            error,
        ),
        _ => false,
    }
}

/// Whether the outcome says that settings are missing, in these words.
pub open spec fn misses(outcome: Result<ChosenSink, StartupError>, message: Seq<char>) -> bool {
    outcome matches Err(StartupError::Missing(text)) && text@ == message
}

/// The place that a configured lake has.
pub fn lake_place(lake: &DuckLakeConfig) -> (r: LakePlace)
    ensures
        r.catalog_type == catalog_type(lake.catalog_type),
        r.catalog_path@ == lake.catalog_path@,
        r.data_path@ == lake.data_path@,
{
    LakePlace {
        catalog_type: CatalogType::from(lake.catalog_type),
        catalog_path: lake.catalog_path.clone(),
        data_path: lake.data_path.clone(),
    }
}

/// Chooses the sink that is configured.
pub fn choose_sink(sink: &SinkConfig) -> (r: Result<ChosenSink, StartupError>)
    ensures
        match (sink.sink_type, sink.duckdb) {
            (SinkType::Console, _) => r matches Ok(ChosenSink::Console(_)),
            (SinkType::DuckDB, None) => misses(
                r,
                "DuckDB sink selected but configuration is missing"@,
            ),
            (SinkType::DuckDB, Some(db)) => if !db.ducklake_enabled {
                chooses_database(r, db)
            } else {
                match db.ducklake {
                    Some(lake) => chooses_lake(r, db, lake),
                    None => misses(r, "DuckLake enabled but ducklake configuration is missing"@),
                }
            },
        },
{
    if sink.sink_type == SinkType::Console {
        return Ok(ChosenSink::Console(ConsoleSink));
    }
    let db = match &sink.duckdb {
        Some(db) => db,
        None => {
            return Err(
                StartupError::Missing(
                    "DuckDB sink selected but configuration is missing".to_owned(),
                ),
            );
        },
    };
    if !db.ducklake_enabled {
        return match DuckDBSink::new_with_debug(
            db.path.as_str(),
            db.table_name.as_str(),
            db.desired_batch_size,
            db.desired_max_batch_latency_seconds,
            db.resource_limits.clone(),
            db.debug_logging,
        ) {
            Ok(sink) => Ok(ChosenSink::DuckDB(sink)),
            Err(error) => Err(StartupError::Sink(error)),
        };
    }
    let lake = match &db.ducklake {
        Some(lake) => lake,
        None => {
            return Err(
                StartupError::Missing(
                    "DuckLake enabled but ducklake configuration is missing".to_owned(),
                ),
            );
        },
    };
    match DuckLakeSink::new_with_debug(
        db.table_name.as_str(),
        db.desired_batch_size,
        db.desired_max_batch_latency_seconds,
        lake_place(lake),
        db.resource_limits.clone(),
        db.debug_logging,
    ) {
        Ok(sink) => Ok(ChosenSink::DuckLake(sink)),
        Err(error) => Err(StartupError::Sink(error)),
    }
}

/// What is told of the sink does not depend on a PostgreSQL connection string, so nothing
/// of it can be learned there.
pub proof fn law_connection_strings_are_not_told(
    sink: SinkConfig,
    db: DuckDBConfig,
    lake: DuckLakeConfig,
    other: String,
)
    requires
        sink.duckdb == Some(db),
        db.ducklake == Some(lake),
        lake.catalog_type is Postgres,
    ensures
        ({
            let other_lake = DuckLakeConfig { catalog_path: other, ..lake };
            let other_db = DuckDBConfig { ducklake: Some(other_lake), ..db };
            let other_sink = SinkConfig { duckdb: Some(other_db), ..sink };
            sink_lines(other_sink) == sink_lines(sink)
        }),
{
}

/// Settings of a database that were found faultless are not refused later on: the batches
/// can work, and the limits can be applied.
pub proof fn law_faultless_settings_are_accepted(db: DuckDBConfig)
    requires
        db.fault() is None,
    ensures
        batch_fault(
            db.desired_batch_size as nat,
            db.desired_max_batch_latency_seconds as nat,
        ) is None,
        forall|i: int|
            0 <= i < limit_steps(db.resource_limits).len() ==> #[trigger] limit_steps(
                db.resource_limits,
            )[i] is Execute,
{
}

/// Each limit that is set has its line, the memory before the threads, and no other has one.
pub proof fn law_limits_that_are_set_are_told(limits: ResourceLimits)
    ensures
        ({
            let lines = limit_lines(limits);
            &&& lines.len() == (if limits.memory_limit is Some {
                1int
            } else {
                0int
            }) + (if limits.threads is Some {
                1int
            } else {
                0int
            })
            &&& limits.memory_limit matches Some(limit) ==> lines[0] == "Memory limit: "@ + limit@
            &&& limits.threads matches Some(threads) ==> lines.last() == "Thread limit: "@
                + decimal(threads as nat)
        }),
{
}

/// What is told of a database sink and of a lake ends with the same lines: the table, the
/// batches and the limits, each as it is configured. A database is told by its path; a lake
/// by its catalog and its data. Without settings there is nothing to tell.
pub proof fn law_settings_are_told_as_they_are(sink: SinkConfig, db: DuckDBConfig)
    requires
        sink.sink_type is DuckDB,
        sink.duckdb == Some(db),
        db.ducklake_enabled ==> db.ducklake is Some,
    ensures
        ({
            let lines = sink_lines(sink);
            let table: int = if db.ducklake_enabled {
                4
            } else {
                1
            };
            &&& lines.len() == table + 3 + limit_lines(db.resource_limits).len()
            &&& lines[table] == "Table name: "@ + db.table_name@
            &&& lines[table + 1] == "Batch size: "@ + decimal(db.desired_batch_size as nat)
            &&& lines[table + 2] == "Batch latency: "@ + decimal(
                db.desired_max_batch_latency_seconds as nat,
            ) + "s"@
            &&& lines.skip(table + 3) == limit_lines(db.resource_limits)
            &&& !db.ducklake_enabled ==> lines[0] == "Using DuckDB sink: "@ + db.path@
            &&& db.ducklake_enabled ==> {
                let lake = db.ducklake->0;
                &&& lines[0] == "Using DuckLake sink"@
                &&& lake.catalog_type is DuckDB ==> lines[1] == "Catalog type: "@ + "DuckDB"@
                &&& lake.catalog_type is SQLite ==> lines[1] == "Catalog type: "@ + "SQLite"@
                &&& lake.catalog_type is Postgres ==> lines[1] == "Catalog type: "@ + "Postgres"@
                &&& lake.catalog_type is Postgres ==> lines[2]
                    == "Catalog path: <postgres connection string redacted>"@
                &&& !(lake.catalog_type is Postgres) ==> lines[2] == "Catalog path: "@
                    + lake.catalog_path@
                &&& lines[3] == "Data path: "@ + lake.data_path@
            }
        }),
{
    let lines = sink_lines(sink);
    let table: int = if db.ducklake_enabled {
        4
    } else {
        1
    };
    assert(lines.skip(table + 3) =~= limit_lines(db.resource_limits));
}

/// The console has one line, whatever else is configured, and nothing is told of a database
/// or a lake that is not configured.
pub proof fn law_nothing_is_told_of_what_is_missing(sink: SinkConfig)
    ensures
        sink.sink_type is Console ==> sink_lines(sink) == seq!["Using Console sink (stdout)"@],
        sink.sink_type is DuckDB && sink.duckdb is None ==> sink_lines(sink).len() == 0,
        sink.sink_type is DuckDB && (sink.duckdb matches Some(db) && db.ducklake_enabled
            && db.ducklake is None) ==> sink_lines(sink).len() == 0,
{
}

/// A database is chosen exactly if its settings are accepted, and then with these settings.
/// Otherwise it is refused, with the error of the sink.
pub proof fn law_databases_are_chosen_with_their_settings(
    outcome: Result<ChosenSink, StartupError>,
    db: DuckDBConfig,
)
    requires
        chooses_database(outcome, db),
    ensures
        outcome is Ok <==> sink_accepted(
            db.table_name@,
            db.desired_batch_size as nat,
            db.desired_max_batch_latency_seconds as nat,
        ),
        outcome matches Ok(chosen) ==> (chosen matches ChosenSink::DuckDB(sink) && sink.path()
            == db.path@ && sink.table() == db.table_name@ && sink.batch_size()
            == db.desired_batch_size && sink.latency_seconds()
            == db.desired_max_batch_latency_seconds && sink.limits() == db.resource_limits
            && sink.debug() == db.debug_logging),
        outcome matches Err(refused) ==> (refused matches StartupError::Sink(error)
            && sink_refused(
            db.table_name@,
            db.desired_batch_size as nat,
            db.desired_max_batch_latency_seconds as nat,
            error,
        )),
{
}

/// A lake is chosen exactly if its settings are accepted, and then at its own place and with
/// these settings. Otherwise it is refused, with the error of the sink.
pub proof fn law_lakes_are_chosen_with_their_settings(
    outcome: Result<ChosenSink, StartupError>,
    db: DuckDBConfig,
    lake: DuckLakeConfig,
)
    requires
        chooses_lake(outcome, db, lake),
    ensures
        outcome is Ok <==> sink_accepted(
            db.table_name@,
            db.desired_batch_size as nat,
            db.desired_max_batch_latency_seconds as nat,
        ),
        outcome matches Ok(chosen) ==> (chosen matches ChosenSink::DuckLake(sink)
            && sink.full_table() == lake_table(db.table_name@) && sink.batch_size()
            == db.desired_batch_size && sink.latency_seconds()
            == db.desired_max_batch_latency_seconds && sink.limits() == db.resource_limits
            && sink.debug() == db.debug_logging && sink.lake().catalog_type == catalog_type(
            lake.catalog_type,
        ) && sink.lake().catalog_path@ == lake.catalog_path@ && sink.lake().data_path@
            == lake.data_path@),
        outcome matches Err(refused) ==> (refused matches StartupError::Sink(error)
            && sink_refused(
            db.table_name@,
            db.desired_batch_size as nat,
            db.desired_max_batch_latency_seconds as nat,
            error,
        )),
{
}

/// Why the forwarder does not start is told in the words of what is missing or of the sink,
/// and missing settings choose no sink.
pub proof fn law_refused_starts_say_why(
    message: String,
    error: SinkError,
    outcome: Result<ChosenSink, StartupError>,
    words: Seq<char>,
)
    ensures
        StartupError::Missing(message).spec_message() == message@,
        StartupError::Sink(error).spec_message() == error.spec_message(),
        misses(outcome, words) ==> (outcome matches Err(refused) && refused is Missing
            && refused.spec_message() == words),
{
}

/// A configuration without fault finds its sink: no settings are missing, and the only thing
/// that can still be refused is the name of the table.
pub proof fn law_faultless_configurations_find_their_sink(
    config: AppConfig,
    chosen: Result<ChosenSink, StartupError>,
)
    requires
        config.fault() is None,
        call_ensures(choose_sink, (&config.sink,), chosen),
    ensures
        config.sink.sink_type is Console ==> (chosen matches Ok(sink) && sink is Console),
        chosen matches Ok(sink) && sink is Console ==> config.sink.sink_type is Console,
        chosen matches Ok(sink) && sink is DuckLake ==> config.sink.duckdb->0.ducklake_enabled,
        chosen matches Ok(sink) && sink is DuckDB ==> !config.sink.duckdb->0.ducklake_enabled,
        chosen matches Err(error) ==> (error matches StartupError::Sink(
            SinkError::InvalidTableName(name),
        ) && name@ == config.sink.duckdb->0.table_name@),
        config.sink.sink_type is DuckDB && is_table_name(config.sink.duckdb->0.table_name@)
            ==> chosen is Ok,
{
}

/// A lake is where it is configured to be.
pub proof fn law_lakes_are_where_they_are_configured(lake: &DuckLakeConfig, place: LakePlace)
    requires
        call_ensures(lake_place, (lake,), place),
    ensures
        place.catalog_path@ == lake.catalog_path@,
        place.data_path@ == lake.data_path@,
        place.catalog_type is DuckDB <==> lake.catalog_type is DuckDB,
        place.catalog_type is SQLite <==> lake.catalog_type is SQLite,
        place.catalog_type is Postgres <==> lake.catalog_type is Postgres,
{
}

/// Every line is told, in order, as it stands.
pub proof fn law_lines_are_told_as_they_stand(lines: Seq<String>, i: int)
    ensures
        lines_view(lines).len() == lines.len(),
        0 <= i < lines.len() ==> lines_view(lines)[i] == lines[i]@,
{
}

} // verus!
