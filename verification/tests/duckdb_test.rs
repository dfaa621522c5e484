//! The DuckDB sink against databases that are kept in a map.
use ruuvi_data_forwarder_rs::config::{PipelineConfig, ResourceLimits};
use ruuvi_data_forwarder_rs::dto::RuuviTelemetry;
use ruuvi_data_forwarder_rs::error::SinkError;
use ruuvi_data_forwarder_rs::pipeline::{Action, Event, Phase, Pipeline};
use ruuvi_data_forwarder_rs::sink::duckdb::{
    apply_resource_limits, create_table_sql, insert_sql, sql_string, validate_batch_settings,
    validate_table_name, DuckDBSink,
};
use ruuvi_data_forwarder_rs::sink::transaction::{insert_batch, row, InsertAction, Row};
use ruuvi_data_forwarder_rs::sink::worker::{
    begin_shutdown, finish_shutdown, request, Command, DatabaseWorker, Progress, WorkerEnd,
    WorkerThread,
};
use ruuvi_data_forwarder_rs::sink::{Place, SensorValuesSink, Step, WritePlan};
use std::collections::{BTreeMap, BTreeSet};

fn telemetry1() -> RuuviTelemetry {
    RuuviTelemetry {
        battery_potential: 2335,
        humidity: 653675,
        mac_address: vec![254, 38, 136, 122, 102, 102],
        measurement_ts_ms: 1693460525699,
        measurement_sequence_number: 53300,
        movement_counter: 2,
        pressure: 100755,
        temperature_millicelsius: -29020,
        tx_power: 4,
    }
}

fn telemetry2() -> RuuviTelemetry {
    RuuviTelemetry {
        battery_potential: 2176,
        humidity: 576425,
        mac_address: vec![213, 18, 52, 102, 20, 20],
        measurement_ts_ms: 1693460525701,
        measurement_sequence_number: 1589,
        movement_counter: 79,
        pressure: 100556,
        temperature_millicelsius: 22080,
        tx_power: 4,
    }
}

fn telemetry3() -> RuuviTelemetry {
    RuuviTelemetry {
        battery_potential: 2500,
        humidity: 600000,
        mac_address: vec![100, 200, 50, 75, 125, 150i16],
        measurement_ts_ms: 1693460525702,
        measurement_sequence_number: 2000,
        movement_counter: 100,
        pressure: 101000,
        temperature_millicelsius: 25000,
        tx_power: 4,
    }
}

fn telemetry(humidity: i32) -> RuuviTelemetry {
    RuuviTelemetry {
        temperature_millicelsius: 1,
        humidity,
        pressure: 1,
        battery_potential: 1,
        tx_power: 1,
        movement_counter: 1,
        measurement_sequence_number: 1,
        measurement_ts_ms: 1,
        mac_address: vec![1, 2, 3, 4, 5, 6],
    }
}

fn parse_mac_hex(s: &str) -> Vec<i16> {
    s.split(':').map(|h| i16::from_str_radix(h, 16).unwrap()).collect()
}

fn record(row: &Row) -> RuuviTelemetry {
    RuuviTelemetry {
        temperature_millicelsius: row.temperature_millicelsius,
        humidity: row.humidity,
        pressure: row.pressure,
        battery_potential: row.battery_potential,
        tx_power: row.tx_power,
        movement_counter: row.movement_counter,
        measurement_sequence_number: row.measurement_sequence_number,
        measurement_ts_ms: row.measurement_ts_ms,
        mac_address: parse_mac_hex(&row.mac_address),
    }
}

/// A database: its tables, and whether it refuses records without humidity.
#[derive(Default)]
struct Database {
    tables: BTreeMap<String, Vec<RuuviTelemetry>>,
    humidity_check: bool,
    settings: BTreeMap<String, String>,
    /// The statement that fails, if one does.
    broken: Option<&'static str>,
    pending: Option<Vec<RuuviTelemetry>>,
}

impl Database {
    fn execute(&mut self, sql: &str) -> Result<(), String> {
        if let Some(setting) = sql.strip_prefix("SET ") {
            let (name, value) = setting.split_once(" = ").unwrap();
            self.settings.insert(name.to_string(), value.to_string());
        } else {
            let rest = sql.strip_prefix("\n    CREATE TABLE IF NOT EXISTS ").unwrap();
            let (table, columns) = rest.split_once(" (\n").unwrap();
            assert_eq!(columns.matches("NOT NULL").count(), 9);
            self.tables.entry(table.to_string()).or_default();
        }
        Ok(())
    }

    fn count(&self, sql: &str) -> i64 {
        let table = sql.strip_prefix("SELECT COUNT(*) FROM ").unwrap();
        self.tables[table].len() as i64
    }

    fn act(
        &mut self,
        action: InsertAction,
        sql: &str,
        batch: &[RuuviTelemetry],
    ) -> Result<(), String> {
        let statement = action.sql().unwrap_or(match action {
            InsertAction::Prepare => "PREPARE",
            _ => "INSERT",
        });
        if self.broken == Some(statement) {
            return Err(format!("{statement} is broken"));
        }
        let rest = sql.strip_prefix("\n    INSERT INTO ").unwrap();
        let (table, columns) = rest.split_once(" (\n").unwrap();
        assert_eq!(columns.matches('?').count(), 9);
        match action {
            InsertAction::Begin => self.pending = Some(Vec::new()),
            InsertAction::Prepare => {
                if !self.tables.contains_key(table) {
                    return Err(format!("no table {table}"));
                }
            }
            InsertAction::Insert(index) => {
                let values = row(&batch[index]);
                if self.humidity_check && values.humidity <= 0 {
                    return Err("CHECK constraint failed".to_string());
                }
                self.pending.as_mut().unwrap().push(record(&values));
            }
            InsertAction::Rollback => self.pending = None,
            InsertAction::Commit => {
                let rows = self.pending.take().unwrap();
                self.tables.get_mut(table).unwrap().extend(rows);
            }
            InsertAction::Finish => unreachable!(),
        }
        Ok(())
    }
}

fn insert(
    database: &mut Database,
    sql: &str,
    batch: &[RuuviTelemetry],
) -> Result<(), SinkError> {
    let mut transaction = insert_batch(batch.len());
    while transaction.action() != InsertAction::Finish {
        let outcome = database.act(transaction.action(), sql, batch);
        transaction = transaction.step(outcome);
    }
    transaction.result().unwrap()
}

#[derive(Default)]
struct Disk {
    directories: BTreeSet<String>,
    databases: BTreeMap<String, Database>,
    opened: usize,
}

impl Disk {
    /// Takes the steps of a plan; gives the key of the database that was opened.
    fn run(&mut self, plan: Vec<Step>, path: &str) -> Result<String, SinkError> {
        let parent = path.rsplit_once('/').map(|(parent, _)| parent.to_string());
        let mut key = String::new();
        for step in plan {
            match &step {
                Step::CreateParent(Place::Database) => {
                    self.directories.extend(parent.clone());
                }
                Step::Open(opened) => {
                    assert_eq!(opened, path);
                    if parent.as_ref().is_some_and(|p| !self.directories.contains(p)) {
                        return Err(step.failure("no such directory".to_string()));
                    }
                    self.opened += 1;
                    key = match path {
                        ":memory:" => format!(":memory:{}", self.opened),
                        _ => path.to_string(),
                    };
                    self.databases.entry(key.clone()).or_default();
                }
                Step::Execute(sql) => {
                    let outcome = self.databases.get_mut(&key).unwrap().execute(sql);
                    if let Err(detail) = outcome {
                        return Err(step.failure(detail));
                    }
                }
                Step::Reject(_) => return Err(step.failure(String::new())),
                other => panic!("unexpected step {other:?}"),
            }
        }
        Ok(key)
    }
}

/// A sink with its worker, which works where it stands instead of on a thread.
struct Client {
    path: String,
    sink: DuckDBSink,
    worker: Option<DatabaseWorker>,
    connection: Option<String>,
    thread: WorkerThread,
}

impl Client {
    fn new(path: &str, table: &str, batch_size: usize, latency: u64) -> Client {
        let limits = ResourceLimits::default();
        Client {
            path: path.to_string(),
            sink: DuckDBSink::new(path, table, batch_size, latency, limits).unwrap(),
            worker: Some(DatabaseWorker::start()),
            connection: None,
            thread: WorkerThread::Running,
        }
    }

    fn ask(
        &mut self,
        disk: &mut Disk,
        command: Command,
        batch: &[RuuviTelemetry],
    ) -> Option<Result<(), SinkError>> {
        let mut progress = self.worker.take()?.receive(command);
        loop {
            progress = match progress {
                Progress::Connect(connecting) => {
                    assert!(self.connection.is_none());
                    let outcome = disk.run(self.sink.connection_plan(), &self.path);
                    connecting.outcome(outcome.map(|key| self.connection = Some(key)))
                }
                Progress::Insert(inserting) => {
                    let key = self.connection.as_ref().unwrap();
                    let database = disk.databases.get_mut(key).unwrap();
                    inserting.outcome(insert(database, &self.sink.insert_sql(), batch))
                }
                Progress::Reply { worker, drop_connection, result } => {
                    if drop_connection {
                        assert!(self.connection.take().is_some());
                    }
                    self.worker = worker;
                    return Some(result);
                }
            }
        }
    }

    fn initialize(&mut self, disk: &mut Disk) -> Result<(), SinkError> {
        request(self.ask(disk, Command::Initialize, &[]))
    }

    fn write_batch(&mut self, disk: &mut Disk, batch: Vec<RuuviTelemetry>) -> Result<(), SinkError> {
        match self.sink.write_batch(&batch) {
            WritePlan::Skip => Ok(()),
            WritePlan::Insert(_) => request(self.ask(disk, Command::Write, &batch)),
        }
    }

    fn shutdown(&mut self, disk: &mut Disk) -> Result<(), SinkError> {
        if let Some(result) = begin_shutdown(self.thread) {
            return result;
        }
        let answer = request(self.ask(disk, Command::Shutdown, &[]));
        self.thread = WorkerThread::Joined;
        finish_shutdown(answer, WorkerEnd::Finished)
    }
}

fn read_records(disk: &Disk, path: &str, table: &str) -> Vec<RuuviTelemetry> {
    let mut records = disk.databases[path].tables[table].clone();
    records.sort_by_key(|t| t.measurement_ts_ms);
    records
}

#[test]
fn failed_batch_is_rolled_back_atomically() {
    let mut conn = Database {
        humidity_check: true,
        ..Database::default()
    };
    conn.tables.insert("telemetry".to_string(), Vec::new());
    let template = "
    INSERT INTO {table} (
        temperature_millicelsius,
        humidity,
        pressure,
        battery_potential,
        tx_power,
        movement_counter,
        measurement_sequence_number,
        measurement_ts_ms,
        mac_address
    ) VALUES (?, ?, ?, ?, ?, ?, ?, ?, ?)
";
    assert_eq!(insert_sql("telemetry"), template.replace("{table}", "telemetry"));
    let error = insert(
        &mut conn,
        &insert_sql("telemetry"),
        &[telemetry(1), telemetry(-1)],
    )
    .unwrap_err();
    assert!(matches!(error, SinkError::DuckDBError(_)));
    let count: i64 = conn.count("SELECT COUNT(*) FROM telemetry");
    assert_eq!(count, 0);
}

#[test]
fn resource_limits_are_applied_and_zero_threads_are_rejected() {
    let mut disk = Disk::default();
    let mut apply = |limits: &ResourceLimits| {
        let mut plan = vec![Step::Open("limited.db".to_string())];
        plan.append(&mut apply_resource_limits(limits));
        disk.run(plan, "limited.db").map(|key| {
            disk.databases[&key].settings.clone()
        })
    };
    let settings = apply(&ResourceLimits {
        memory_limit: Some("64MB".into()),
        threads: Some(1),
    })
    .unwrap();
    // SELECT current_setting('threads')
    let threads: i64 = settings["threads"].parse().unwrap();
    assert_eq!(threads, 1);
    assert_eq!(settings["memory_limit"], "'64MB'");
    assert!(apply(&ResourceLimits {
        memory_limit: None,
        threads: Some(0),
    })
    .is_err());
}

#[test]
fn limits_are_set_in_order_and_quoted() {
    assert_eq!(
        apply_resource_limits(&ResourceLimits {
            memory_limit: Some("1'2".to_string()),
            threads: Some(16),
        }),
        vec![
            Step::Execute("SET memory_limit = '1''2'".to_string()),
            Step::Execute("SET threads = 16".to_string()),
        ]
    );
    assert_eq!(
        apply_resource_limits(&ResourceLimits {
            memory_limit: Some("64MB".to_string()),
            threads: Some(0),
        }),
        vec![
            Step::Execute("SET memory_limit = '64MB'".to_string()),
            Step::Reject("DuckDB threads must be greater than zero".to_string()),
        ]
    );
    assert_eq!(apply_resource_limits(&ResourceLimits::default()), vec![]);
}

#[test]
fn test_write_telemetry_to_file_db_and_read_back() {
    let mut disk = Disk::default();
    let mut sink = Client::new("telemetry.db", "test_telemetry", 5, 30);
    sink.initialize(&mut disk).unwrap();
    sink.write_batch(&mut disk, vec![telemetry1(), telemetry2()]).unwrap();

    let records = read_records(&disk, "telemetry.db", "test_telemetry");
    assert_eq!(records.len(), 2);

    let mut expected = vec![telemetry1(), telemetry2()];
    expected.sort_by_key(|t| t.measurement_ts_ms);
    assert_eq!(records, expected);
}

#[test]
fn test_create_database_file_and_table() {
    let mut disk = Disk::default();
    assert!(!disk.databases.contains_key("new.db"));
    let mut sink = Client::new("new.db", "telemetry", 5, 30);
    sink.initialize(&mut disk).unwrap();
    sink.write_batch(&mut disk, vec![telemetry1()]).unwrap();

    assert!(disk.databases.contains_key("new.db"));
    let records = read_records(&disk, "new.db", "telemetry");
    assert_eq!(records, vec![telemetry1()]);
}

#[test]
fn test_create_parent_directories() {
    let path = "nested/path/telemetry.db";
    let mut disk = Disk::default();
    assert!(!disk.databases.contains_key(path));
    let mut sink = Client::new(path, "telemetry", 5, 30);
    sink.initialize(&mut disk).unwrap();
    sink.write_batch(&mut disk, vec![telemetry1()]).unwrap();

    assert!(disk.databases.contains_key(path));
    assert!(disk.directories.contains("nested/path"));
    let records = read_records(&disk, path, "telemetry");
    assert_eq!(records, vec![telemetry1()]);
}

#[test]
fn test_append_to_existing_database() {
    let mut disk = Disk::default();
    let mut sink = Client::new("append.db", "telemetry", 5, 30);
    sink.initialize(&mut disk).unwrap();
    sink.write_batch(&mut disk, vec![telemetry1()]).unwrap();

    // Second write - should append
    let mut sink2 = Client::new("append.db", "telemetry", 5, 30);
    sink2.initialize(&mut disk).unwrap();
    sink2.write_batch(&mut disk, vec![telemetry2()]).unwrap();

    let records = read_records(&disk, "append.db", "telemetry");
    assert_eq!(records.len(), 2);

    let mut expected = vec![telemetry1(), telemetry2()];
    expected.sort_by_key(|t| t.measurement_ts_ms);
    assert_eq!(records, expected);
}

#[test]
fn test_reject_invalid_table_names() {
    let invalid_names = vec![
        "telemetry; DROP TABLE users--",
        "telemetry'--",
        "telemetry OR 1=1",
        "123invalid",
        "table-name",
        "table.name",
    ];

    for name in invalid_names {
        let result = DuckDBSink::new(":memory:", name, 5, 30, ResourceLimits::default());
        assert!(result.is_err(), "Expected error for table name: '{}'", name);
        let err_msg = result.err().unwrap().message();
        assert!(
            err_msg.contains("Invalid table name"),
            "Expected 'Invalid table name' in error for '{}', got: {}",
            name,
            err_msg
        );
    }
}

#[test]
fn table_names_are_letters_digits_and_underscores() {
    for name in ["t", "_", "Telemetry_2", "a1", "_0"] {
        assert_eq!(validate_table_name(name), Ok(()));
    }
    for name in ["", " t", "t\n", "\u{e4}", "t\u{0660}", "0", "a b"] {
        assert_eq!(
            validate_table_name(name),
            Err(SinkError::InvalidTableName(name.to_string()))
        );
    }
}

#[test]
fn test_batch_10_records_efficiently() {
    let batch: Vec<RuuviTelemetry> = (1..=10)
        .map(|i| RuuviTelemetry {
            battery_potential: 2000 + i,
            humidity: 500000 + i * 1000,
            mac_address: vec![254, 38, 136, 122, 102, i as i16],
            measurement_ts_ms: 1693460525699 + i as i64,
            measurement_sequence_number: 53300 + i,
            movement_counter: i,
            pressure: 100000 + i * 100,
            temperature_millicelsius: 20000 + i * 100,
            tx_power: 4,
        })
        .collect();

    let mut disk = Disk::default();
    let mut sink = Client::new("batch10.db", "telemetry", 5, 30);
    sink.initialize(&mut disk).unwrap();
    sink.write_batch(&mut disk, batch).unwrap();

    let count = disk.databases["batch10.db"].count("SELECT COUNT(*) FROM telemetry");
    assert_eq!(count, 10);
}

#[test]
fn test_insert_3_records_in_single_batch() {
    let batch = vec![telemetry1(), telemetry2(), telemetry3()];
    let mut disk = Disk::default();
    let mut sink = Client::new("batch3.db", "telemetry", 5, 30);
    sink.initialize(&mut disk).unwrap();
    sink.write_batch(&mut disk, batch.clone()).unwrap();

    let records = read_records(&disk, "batch3.db", "telemetry");
    assert_eq!(records.len(), 3);

    let mut expected = batch.clone();
    expected.sort_by_key(|t| t.measurement_ts_ms);
    assert_eq!(records, expected);
}

#[test]
fn test_pipeline_flushes_partial_batch_at_eof() {
    // A finite stream with fewer records than the batch size must flush at EOF.
    let batch = [telemetry1(), telemetry2(), telemetry3()];
    let mut disk = Disk::default();
    let mut sink = Client::new("pipeline.db", "telemetry", 5, 1);

    let mut items = batch.iter().cloned();
    let mut last = Vec::new();
    let (mut pipeline, mut action) = Pipeline::new(
        sink.sink.desired_batch_size(),
        sink.sink.desired_max_batch_latency(),
        &PipelineConfig::default(),
    );
    while action != Action::Exit {
        let event = match action {
            Action::Initialize => Event::SinkReturned(sink.initialize(&mut disk)),
            Action::Write(records) => {
                last = records;
                Event::SinkReturned(sink.write_batch(&mut disk, last.clone()))
            }
            Action::WriteAgain => Event::SinkReturned(sink.write_batch(&mut disk, last.clone())),
            Action::Close => Event::SinkReturned(sink.shutdown(&mut disk)),
            Action::Listen(_) => Event::Item(items.next().map(Ok)),
            other => panic!("unexpected action {other:?}"),
        };
        (pipeline, action) = pipeline.step(event, 0);
    }
    assert!(matches!(pipeline.phase(), Phase::Finished(Ok(()))));

    let count = disk.databases["pipeline.db"].count("SELECT COUNT(*) FROM telemetry");
    assert_eq!(count, 3);
}

#[test]
fn test_in_memory_database_persists_across_worker_commands() {
    let mut disk = Disk::default();
    let mut sink = Client::new(":memory:", "telemetry", 5, 30);
    sink.initialize(&mut disk).unwrap();
    sink.write_batch(&mut disk, vec![telemetry1()]).unwrap();
    sink.write_batch(&mut disk, vec![telemetry2()]).unwrap();
    assert_eq!(disk.opened, 1);
    assert_eq!(read_records(&disk, ":memory:1", "telemetry").len(), 2);
    sink.shutdown(&mut disk).unwrap();
    assert!(disk.directories.is_empty());
}

#[test]
fn test_shutdown_is_idempotent() {
    let mut disk = Disk::default();
    let mut sink = Client::new(":memory:", "telemetry", 5, 30);
    sink.initialize(&mut disk).unwrap();
    sink.write_batch(&mut disk, vec![telemetry1()]).unwrap();
    sink.shutdown(&mut disk).unwrap();
    sink.shutdown(&mut disk).unwrap();
    assert!(sink.connection.is_none());
}

#[test]
fn test_failed_write_reconnects_on_next_attempt() {
    // A database with a constraint that the sink's own table lacks, so that a write can be
    // made to fail.
    let mut disk = Disk::default();
    let database = Database {
        humidity_check: true,
        ..Database::default()
    };
    disk.databases.insert("reconnect.db".to_string(), database);
    let mut sink = Client::new("reconnect.db", "telemetry", 5, 30);
    sink.initialize(&mut disk).unwrap();

    let mut invalid = telemetry1();
    invalid.humidity = -1;
    let error = sink.write_batch(&mut disk, vec![invalid]).unwrap_err();
    assert!(matches!(error, SinkError::DuckDBError(_)));
    assert!(sink.connection.is_none());

    // The worker recycled its connection; the next write must succeed.
    sink.write_batch(&mut disk, vec![telemetry2()]).unwrap();
    sink.shutdown(&mut disk).unwrap();
    assert_eq!(disk.opened, 2);

    let records = read_records(&disk, "reconnect.db", "telemetry");
    assert_eq!(records, vec![telemetry2()]);
}

#[test]
fn test_reject_zero_batch_settings() {
    assert!(DuckDBSink::new(":memory:", "telemetry", 0, 30, ResourceLimits::default()).is_err());
    assert!(DuckDBSink::new(":memory:", "telemetry", 5, 0, ResourceLimits::default()).is_err());
}

#[test]
fn refused_batch_settings_say_why() {
    assert_eq!(
        validate_batch_settings(0, 0),
        Err(SinkError::ConfigError("batch size must be greater than zero".to_string()))
    );
    assert_eq!(
        validate_batch_settings(1, 0),
        Err(SinkError::ConfigError("batch latency must be greater than zero".to_string()))
    );
    assert_eq!(validate_batch_settings(1, 1), Ok(()));
}

#[test]
fn table_name_is_checked_before_the_batch_settings() {
    let error = DuckDBSink::new(":memory:", "no table", 0, 0, ResourceLimits::default()).err();
    assert_eq!(error, Some(SinkError::InvalidTableName("no table".to_string())));
}

#[test]
fn sink_knows_its_batches() {
    let sink = DuckDBSink::new("a.db", "t", 7, 30, ResourceLimits::default()).unwrap();
    assert_eq!(sink.desired_batch_size(), 7);
    assert_eq!(sink.desired_max_batch_latency(), 30_000_000_000);
    let long = DuckDBSink::new("a.db", "t", 7, u64::MAX, ResourceLimits::default()).unwrap();
    assert_eq!(long.desired_max_batch_latency(), u64::MAX as u128 * 1_000_000_000);
}

#[test]
fn connection_plan_prepares_the_database() {
    let limits = ResourceLimits {
        memory_limit: Some("1GB".to_string()),
        threads: Some(2),
    };
    let sink = DuckDBSink::new("dir/a.db", "t", 7, 30, limits).unwrap();
    assert_eq!(
        sink.connection_plan(),
        vec![
            Step::CreateParent(Place::Database),
            Step::Open("dir/a.db".to_string()),
            Step::Execute("SET memory_limit = '1GB'".to_string()),
            Step::Execute("SET threads = 2".to_string()),
            Step::Execute(create_table_sql("t")),
        ]
    );
    let memory = DuckDBSink::new(":memory:", "t", 7, 30, ResourceLimits::default()).unwrap();
    assert_eq!(
        memory.connection_plan(),
        vec![
            Step::Open(":memory:".to_string()),
            Step::Execute(create_table_sql("t")),
        ]
    );
}

#[test]
fn create_table_sql_names_the_columns() {
    let template = "
    CREATE TABLE IF NOT EXISTS {table} (
        temperature_millicelsius INTEGER NOT NULL,
        humidity INTEGER NOT NULL,
        pressure INTEGER NOT NULL,
        battery_potential INTEGER NOT NULL,
        tx_power INTEGER NOT NULL,
        movement_counter INTEGER NOT NULL,
        measurement_sequence_number INTEGER NOT NULL,
        measurement_ts_ms BIGINT NOT NULL,
        mac_address VARCHAR NOT NULL
    )
";
    assert_eq!(create_table_sql("data"), template.replace("{table}", "data"));
}

#[test]
fn empty_batches_are_skipped_and_others_announced_when_wanted() {
    let limits = ResourceLimits::default();
    let loud = DuckDBSink::new_with_debug("a.db", "t", 7, 30, limits.clone(), true).unwrap();
    let quiet = DuckDBSink::new("a.db", "t", 7, 30, limits).unwrap();
    assert_eq!(loud.write_batch(&vec![]), WritePlan::Skip);
    assert_eq!(quiet.write_batch(&vec![]), WritePlan::Skip);
    assert_eq!(quiet.write_batch(&vec![telemetry1()]), WritePlan::Insert(None));
    assert_eq!(
        loud.write_batch(&vec![telemetry1(), telemetry2()]),
        WritePlan::Insert(Some("Inserting batch of 2 records into DuckDB table t".to_string()))
    );
}

#[test]
fn quotes_are_doubled() {
    for text in ["", "plain", "'", "it's", "''", "a'b'c'", "\u{e4}'\u{1f980}"] {
        assert_eq!(sql_string(text), text.replace('\'', "''"));
    }
}

#[test]
fn failures_of_a_transaction_are_told_apart() {
    let failing = |statement: &'static str| {
        let mut conn = Database {
            broken: Some(statement),
            ..Database::default()
        };
        conn.tables.insert("t".to_string(), Vec::new());
        let result = insert(&mut conn, &insert_sql("t"), &[telemetry(1)]);
        assert_eq!(conn.count("SELECT COUNT(*) FROM t"), 0);
        result.unwrap_err()
    };
    let begin = failing("BEGIN TRANSACTION");
    assert_eq!(begin, SinkError::DuckDBError("BEGIN TRANSACTION is broken".to_string()));
    assert!(begin.is_retryable());
    assert_eq!(failing("PREPARE"), SinkError::DuckDBError("PREPARE is broken".to_string()));
    assert_eq!(failing("INSERT"), SinkError::DuckDBError("INSERT is broken".to_string()));
    let commit = failing("COMMIT");
    assert_eq!(
        commit,
        SinkError::TransactionOutcomeUnknown("commit failed (COMMIT is broken)".to_string())
    );
    assert!(!commit.is_retryable());
}

#[test]
fn failed_rollback_has_an_unknown_outcome() {
    let mut transaction = insert_batch(2);
    let outcomes = [
        (InsertAction::Begin, Ok(())),
        (InsertAction::Prepare, Ok(())),
        (InsertAction::Insert(0), Ok(())),
        (InsertAction::Insert(1), Err("full".to_string())),
        (InsertAction::Rollback, Err("gone".to_string())),
    ];
    for (action, outcome) in outcomes {
        assert_eq!(transaction.action(), action);
        transaction = transaction.step(outcome);
    }
    assert_eq!(transaction.action(), InsertAction::Finish);
    assert_eq!(
        transaction.result(),
        Some(Err(SinkError::TransactionOutcomeUnknown(
            "insert failed (full); rollback failed (gone)".to_string()
        )))
    );
}

#[test]
fn transaction_without_records_only_commits() {
    let mut transaction = insert_batch(0);
    for action in [InsertAction::Begin, InsertAction::Prepare, InsertAction::Commit] {
        assert_eq!(transaction.action(), action);
        transaction = transaction.step(Ok(()));
    }
    assert_eq!(transaction.result(), Some(Ok(())));
    assert_eq!(insert_batch(1).result(), None);
}

#[test]
fn statements_of_a_transaction() {
    assert_eq!(InsertAction::Begin.sql(), Some("BEGIN TRANSACTION"));
    assert_eq!(InsertAction::Rollback.sql(), Some("ROLLBACK"));
    assert_eq!(InsertAction::Commit.sql(), Some("COMMIT"));
    assert_eq!(InsertAction::Prepare.sql(), None);
    assert_eq!(InsertAction::Insert(3).sql(), None);
    assert_eq!(InsertAction::Finish.sql(), None);
}

#[test]
fn records_become_rows() {
    assert_eq!(
        row(&telemetry1()),
        Row {
            temperature_millicelsius: -29020,
            humidity: 653675,
            pressure: 100755,
            battery_potential: 2335,
            tx_power: 4,
            movement_counter: 2,
            measurement_sequence_number: 53300,
            measurement_ts_ms: 1693460525699,
            mac_address: "FE:26:88:7A:66:66".to_string(),
        }
    );
}

#[test]
fn failed_steps_have_their_errors() {
    let detail = || "why".to_string();
    assert_eq!(Step::Resolve(Place::Data).failure(detail()), SinkError::IoError(detail()));
    assert_eq!(
        Step::CreateDirectory(Place::Data).failure(detail()),
        SinkError::IoError(detail())
    );
    assert_eq!(
        Step::CreateParent(Place::Catalog).failure(detail()),
        SinkError::IoError(detail())
    );
    assert_eq!(
        Step::RequireDirectory(Place::Data).failure("/x".to_string()),
        SinkError::ConfigError("DuckLake data directory does not exist: /x".to_string())
    );
    assert_eq!(
        Step::RequireFile(Place::Catalog).failure("/c".to_string()),
        SinkError::ConfigError("DuckLake catalog does not exist: /c".to_string())
    );
    for step in [
        Step::Open("a".to_string()),
        Step::OpenInMemory,
        Step::Execute("b".to_string()),
        Step::ExecuteWith("b".to_string(), "c".to_string()),
        Step::Attach,
    ] {
        assert_eq!(step.failure(detail()), SinkError::DuckDBError(detail()));
    }
    assert_eq!(
        Step::Reject("no".to_string()).failure(detail()),
        SinkError::ConfigError("no".to_string())
    );
}
