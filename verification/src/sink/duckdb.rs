//! The DuckDB sink: its SQL, its settings, and the transaction that writes a batch.
use crate::config::ResourceLimits;
use crate::error::{differ_in_detail_only, SinkError};
use crate::pattern::{is_table_name, table_name as is_valid_table_name};
use crate::dto::RuuviTelemetry;
use crate::pipeline::NANOS_PER_SECOND;
use crate::sink::{
    is_write_plan, plan_view, write_plan, Place, SensorValuesSink, Step, StepView, WritePlan,
};
use crate::text::{concat, concat3, decimal, decimal_text};
use vstd::prelude::*;

verus! {

/// The text with every quote doubled.
pub open spec fn doubled_quotes(s: Seq<char>) -> Seq<char>
    decreases s.len(),
{
    if s.len() == 0 {
        Seq::empty()
    } else if s.last() == '\'' {
        doubled_quotes(s.drop_last()) + seq!['\'', '\'']
    } else {
        doubled_quotes(s.drop_last()).push(s.last())
    }
}

/// Makes a text fit to stand between the quotes of an SQL string.
pub fn sql_string(value: &str) -> (r: String)
    ensures
        r@ == doubled_quotes(value@),
{
    let mut text = String::new();
    assert(value@.take(0) =~= Seq::empty());
    for c in it: value.chars()
        invariant
            it.seq() == value@,
            text@ == doubled_quotes(value@.take(it.index())),
    {
        assert(value@.take(it.index() + 1).drop_last() =~= value@.take(it.index()));
        text.push(c);
        if c == '\'' {
            text.push(c);
            assert(text@ =~= doubled_quotes(value@.take(it.index() + 1)));
        }
    }
    assert(value@.take(value@.len() as int) =~= value@);
    text
}

/// Reads an SQL string from behind its opening quote: its value, and what follows its
/// closing quote. A doubled quote stands for a quote.
pub open spec fn read_sql_string(s: Seq<char>) -> Option<(Seq<char>, Seq<char>)>
    decreases s.len(),
{
    if s.len() == 0 {
        None
    } else if s[0] != '\'' {
        match read_sql_string(s.skip(1)) {
            Some((value, rest)) => Some((seq![s[0]] + value, rest)),
            None => None,
        }
    } else if s.len() > 1 && s[1] == '\'' {
        match read_sql_string(s.skip(2)) {
            Some((value, rest)) => Some((seq![s[0]] + value, rest)),
            None => None,
        }
    } else {
        Some((Seq::empty(), s.skip(1)))
    }
}

proof fn lemma_doubled_quotes_from_the_front(s: Seq<char>)
    requires
        s.len() > 0,
    ensures
        doubled_quotes(s) == doubled_quotes(seq![s[0]]) + doubled_quotes(s.drop_first()),
    decreases s.len(),
{
    if s.len() == 1 {
        assert(s =~= seq![s[0]]);
        assert(s.drop_first() =~= Seq::empty());
    } else {
        lemma_doubled_quotes_from_the_front(s.drop_last());
        assert(s.drop_last().drop_first() =~= s.drop_first().drop_last());
        assert(doubled_quotes(s) =~= doubled_quotes(seq![s[0]]) + doubled_quotes(s.drop_first()));
    }
}

/// A text that was made fit stays within the quotes that it is put in, whatever it holds:
/// the string reads as the text itself, and what follows the string stays what it is.
pub proof fn law_quoted_text_is_data(value: Seq<char>, rest: Seq<char>)
    requires
        rest.len() == 0 || rest[0] != '\'',
    ensures
        read_sql_string(doubled_quotes(value) + seq!['\''] + rest) == Some((value, rest)),
    decreases value.len(),
{
    let text = doubled_quotes(value) + seq!['\''] + rest;
    if value.len() == 0 {
        assert(text =~= seq!['\''] + rest);
        assert(text.skip(1) =~= rest);
        assert(value =~= Seq::empty());
    } else {
        let tail = value.drop_first();
        let tail_text = doubled_quotes(tail) + seq!['\''] + rest;
        law_quoted_text_is_data(tail, rest);
        lemma_doubled_quotes_from_the_front(value);
        assert(seq![value[0]].drop_last() =~= Seq::<char>::empty());
        assert(doubled_quotes(Seq::<char>::empty()) =~= Seq::<char>::empty());
        assert(value =~= seq![value[0]] + tail);
        if value[0] == '\'' {
            assert(doubled_quotes(seq![value[0]]) =~= seq!['\'', '\'']);
            assert(text.skip(2) =~= tail_text);
        } else {
            assert(doubled_quotes(seq![value[0]]) =~= seq![value[0]]);
            assert(text.skip(1) =~= tail_text);
        }
    }
}

/// The SQL that limits the memory of the database.
pub open spec fn memory_limit_sql(limit: Seq<char>) -> Seq<char> {
    "SET memory_limit = '"@ + doubled_quotes(limit) + "'"@
}

/// The SQL that limits the threads of the database.
pub open spec fn threads_sql(threads: nat) -> Seq<char> {
    "SET threads = "@ + decimal(threads)
}

/// The steps that apply limits: first the memory, then the threads. No threads at all are
/// refused, once the memory is limited.
pub open spec fn limit_steps(limits: ResourceLimits) -> Seq<StepView> {
    let memory = match limits.memory_limit {
        Some(limit) => seq![StepView::Execute(memory_limit_sql(limit@))],
        None => Seq::empty(),
    };
    let threads = match limits.threads {
        Some(0) => seq![StepView::Reject("DuckDB threads must be greater than zero"@)],
        Some(threads) => seq![StepView::Execute(threads_sql(threads as nat))],
        None => Seq::empty(),
    };
    memory + threads
}

/// The steps that apply limits to a connection.
pub fn apply_resource_limits(limits: &ResourceLimits) -> (plan: Vec<Step>)
    ensures
        plan_view(plan@) == limit_steps(*limits),
{
    let mut plan: Vec<Step> = Vec::new();
    if let Some(limit) = &limits.memory_limit {
        plan.push(
            Step::Execute(
                concat3("SET memory_limit = '", sql_string(limit.as_str()).as_str(), "'"),
            ),
        );
    }
    if let Some(threads) = limits.threads {
        if threads == 0 {
            plan.push(Step::Reject("DuckDB threads must be greater than zero".to_owned()));
        } else {
            plan.push(
                Step::Execute(concat("SET threads = ", decimal_text(threads as u64).as_str())),
            );
        }
    }
    assert(plan_view(plan@) =~= limit_steps(*limits));
    plan
}

/// Refuses a name that cannot be used for a table.
pub fn validate_table_name(name: &str) -> (r: Result<(), SinkError>)
    ensures
        is_table_name(name@) ==> r is Ok,
        !is_table_name(name@) ==> (r matches Err(SinkError::InvalidTableName(refused)) && refused@
            == name@),
{
    if is_valid_table_name(name) {
        Ok(())
    } else {
        Err(SinkError::InvalidTableName(name.to_owned()))
    }
}

/// What is wrong with the settings of a batch, if anything is.
pub open spec fn batch_fault(batch_size: nat, latency: nat) -> Option<Seq<char>> {
    if batch_size == 0 {
        Some("batch size must be greater than zero"@)
    } else if latency == 0 {
        Some("batch latency must be greater than zero"@)
    } else {
        None
    }
}

/// Refuses batches of nothing and batches that may not wait.
pub fn validate_batch_settings(batch_size: usize, latency: u64) -> (r: Result<(), SinkError>)
    ensures
        match batch_fault(batch_size as nat, latency as nat) {
            None => r is Ok,
            Some(fault) => r matches Err(SinkError::ConfigError(detail)) && detail@ == fault,
        },
{
    if batch_size == 0 {
        return Err(SinkError::ConfigError("batch size must be greater than zero".to_owned()));
    }
    if latency == 0 {
        return Err(SinkError::ConfigError("batch latency must be greater than zero".to_owned()));
    }
    Ok(())
}

/// What stands before the name of the table in the SQL that creates it.
pub const CREATE_TABLE_HEAD: &'static str = "
    CREATE TABLE IF NOT EXISTS ";

/// What stands behind the name of the table in the SQL that creates it.
pub const CREATE_TABLE_TAIL: &'static str = " (
        temperature_millicelsius INTEGER NOT NULL,
        humidity INTEGER NOT NULL,
        pressure INTEGER NOT NULL,
        battery_potential INTEGER NOT NULL,
        tx_power INTEGER NOT NULL,
        movement_counter INTEGER NOT NULL,
        measurement_sequence_number INTEGER NOT NULL,
        measurement_ts_ms BIGINT NOT NULL,
        mac_address VARCHAR NOT NULL
    )
";

/// What stands before the name of the table in the SQL that inserts a record.
pub const INSERT_HEAD: &'static str = "
    INSERT INTO ";

/// What stands behind the name of the table in the SQL that inserts a record.
pub const INSERT_TAIL: &'static str = " (
        temperature_millicelsius,
        humidity,
        pressure,
        battery_potential,
        tx_power,
        movement_counter,
        measurement_sequence_number,
        measurement_ts_ms,
        mac_address
    ) VALUES (?, ?, ?, ?, ?, ?, ?, ?, ?)
";

/// The SQL that creates a table unless there is one.
pub open spec fn create_statement(table: Seq<char>) -> Seq<char> {
    CREATE_TABLE_HEAD@ + table + CREATE_TABLE_TAIL@
}

/// The SQL that inserts a record into a table.
pub open spec fn insert_statement(table: Seq<char>) -> Seq<char> {
    INSERT_HEAD@ + table + INSERT_TAIL@
}

/// The SQL that creates the table unless there is one.
pub fn create_table_sql(table: &str) -> (r: String)
    ensures
        r@ == create_statement(table@),
{
    concat3(CREATE_TABLE_HEAD, table, CREATE_TABLE_TAIL)
}

/// The SQL that inserts one record into the table.
pub fn insert_sql(table: &str) -> (r: String)
    ensures
        r@ == insert_statement(table@),
{
    concat3(INSERT_HEAD, table, INSERT_TAIL)
}

/// Whether a sink with these settings is refused, and with which error.
pub open spec fn sink_refused(
    table: Seq<char>,
    batch_size: nat,
    latency: nat,
    error: SinkError,
) -> bool {
    if !is_table_name(table) {
        error matches SinkError::InvalidTableName(refused) && refused@ == table
    } else {
        match batch_fault(batch_size, latency) {
            Some(fault) => error matches SinkError::ConfigError(detail) && detail@ == fault,
            None => false,
        }
    }
}

/// Whether a sink can work with these settings.
pub open spec fn sink_accepted(table: Seq<char>, batch_size: nat, latency: nat) -> bool {
    is_table_name(table) && batch_size > 0 && latency > 0
}

/// The steps to a connection to the database at the path, with the table in place.
pub open spec fn connection_steps(
    path: Seq<char>,
    table: Seq<char>,
    limits: ResourceLimits,
) -> Seq<StepView> {
    let directory = if path == ":memory:"@ {
        Seq::empty()
    } else {
        seq![StepView::CreateParent(Place::Database)]
    };
    directory.push(StepView::Open(path)) + limit_steps(limits).push(
        StepView::Execute(create_statement(table)),
    )
}

/// A sink that writes batches to a table of a DuckDB database.
pub struct DuckDBSink {
    db_path: String,
    table_name: String,
    batch_size: usize,
    max_latency_seconds: u64,
    resource_limits: ResourceLimits,
    debug_logging: bool,
}

impl DuckDBSink {
    /// The path of the database.
    pub closed spec fn path(self) -> Seq<char> {
        self.db_path@
    }

    /// The name of the table.
    pub closed spec fn table(self) -> Seq<char> {
        self.table_name@
    }

    /// How many seconds a record may wait in a batch.
    pub closed spec fn latency_seconds(self) -> nat {
        self.max_latency_seconds as nat
    }

    /// The limits that the database is given.
    pub closed spec fn limits(self) -> ResourceLimits {
        self.resource_limits
    }

    /// Whether each batch is announced.
    pub closed spec fn debug(self) -> bool {
        self.debug_logging
    }

    #[verifier::type_invariant]
    spec fn well_formed(self) -> bool {
        sink_accepted(
            self.table_name@,
            self.batch_size as nat,
            self.max_latency_seconds as nat,
        )
    }

    /// A sink that does not announce its batches.
    pub fn new(
        db_path: &str,
        table_name: &str,
        batch_size: usize,
        max_latency_seconds: u64,
        resource_limits: ResourceLimits,
    ) -> (r: Result<DuckDBSink, SinkError>)
        ensures
            match r {
                Ok(sink) => {
                    &&& sink_accepted(table_name@, batch_size as nat, max_latency_seconds as nat)
                    &&& sink.path() == db_path@
                    &&& sink.table() == table_name@
                    &&& sink.batch_size() == batch_size
                    &&& sink.latency_seconds() == max_latency_seconds
                    &&& sink.limits() == resource_limits
                    &&& !sink.debug()
                },
                Err(error) => sink_refused(
                    table_name@,
                    batch_size as nat,
                    max_latency_seconds as nat,
                    error,
                ),
            },
    {
        Self::new_with_debug(
            db_path,
            table_name,
            batch_size,
            max_latency_seconds,
            resource_limits,
            false,
        )
    }

    /// A sink that announces its batches where that is wanted. A name that cannot be used
    /// for a table is refused, and then settings of a batch that cannot work.
    pub fn new_with_debug(
        db_path: &str,
        table_name: &str,
        batch_size: usize,
        max_latency_seconds: u64,
        resource_limits: ResourceLimits,
        debug_logging: bool,
    ) -> (r: Result<DuckDBSink, SinkError>)
        ensures
            match r {
                Ok(sink) => {
                    &&& sink_accepted(table_name@, batch_size as nat, max_latency_seconds as nat)
                    &&& sink.path() == db_path@
                    &&& sink.table() == table_name@
                    &&& sink.batch_size() == batch_size
                    &&& sink.latency_seconds() == max_latency_seconds
                    &&& sink.limits() == resource_limits
                    &&& sink.debug() == debug_logging
                },
                Err(error) => sink_refused(
                    table_name@,
                    batch_size as nat,
                    max_latency_seconds as nat,
                    error,
                ),
            },
    {
        if let Err(error) = validate_table_name(table_name) {
            return Err(error);
        }
        if let Err(error) = validate_batch_settings(batch_size, max_latency_seconds) {
            return Err(error);
        }
        Ok(
            DuckDBSink {
                db_path: db_path.to_owned(),
                table_name: table_name.to_owned(),
                batch_size,
                max_latency_seconds,
                resource_limits,
                debug_logging,
            },
        )
    }

    /// The steps to a new connection. The directory of the database is created, unless the
    /// database is kept in memory, and so is the table.
    pub fn connection_plan(&self) -> (plan: Vec<Step>)
        ensures
            plan_view(plan@) == connection_steps(self.path(), self.table(), self.limits()),
    {
        let mut plan: Vec<Step> = Vec::new();
        let in_memory = self.db_path == ":memory:".to_owned();
        if !in_memory {
            plan.push(Step::CreateParent(Place::Database));
        }
        plan.push(Step::Open(self.db_path.clone()));
        let ghost opening = plan@;
        assert(plan_view(opening) =~= if self.db_path@ == ":memory:"@ {
            seq![StepView::Open(self.path())]
        } else {
            seq![StepView::CreateParent(Place::Database), StepView::Open(self.path())]
        });
        let mut limits = apply_resource_limits(&self.resource_limits);
        let ghost limiting = limits@;
        plan.append(&mut limits);
        plan.push(Step::Execute(create_table_sql(self.table_name.as_str())));
        assert(plan_view(plan@) =~= plan_view(opening) + plan_view(limiting).push(
            plan@.last()@,
        ));
        assert(plan_view(plan@) =~= connection_steps(self.path(), self.table(), self.limits()));
        plan
    }

    /// The SQL that inserts one record.
    pub fn insert_sql(&self) -> (r: String)
        ensures
            r@ == insert_statement(self.table()),
    {
        insert_sql(self.table_name.as_str())
    }

    /// What to do with a batch.
    pub fn write_batch(&self, batch: &Vec<RuuviTelemetry>) -> (plan: WritePlan)
        ensures
            is_write_plan(plan, batch@.len(), "DuckDB"@, self.table(), self.debug()),
    {
        write_plan(batch.len(), "DuckDB", self.table_name.as_str(), self.debug_logging)
    }
}

impl SensorValuesSink for DuckDBSink {
    closed spec fn batch_size(&self) -> nat {
        self.batch_size as nat
    }

    open spec fn latency(&self) -> nat {
        self.latency_seconds() * NANOS_PER_SECOND as nat
    }

    /// At least one record.
    fn desired_batch_size(&self) -> (count: usize)
        ensures
            count > 0,
    {
        proof {
            use_type_invariant(self);
        }
        self.batch_size
    }

    /// At least one second.
    fn desired_max_batch_latency(&self) -> (nanos: u128)
        ensures
            nanos >= NANOS_PER_SECOND,
    {
        proof {
            use_type_invariant(self);
        }
        self.max_latency_seconds as u128 * NANOS_PER_SECOND
    }
}

/// Each limit that is set is applied, by one step: the memory first, with the limit as data,
/// and then the threads. No threads at all are refused. Where no limit is set nothing is
/// done.
pub proof fn law_limits_are_applied(limits: ResourceLimits)
    ensures
        ({
            let steps = limit_steps(limits);
            let memory: int = if limits.memory_limit is Some {
                1
            } else {
                0
            };
            let threads: int = if limits.threads is Some {
                1
            } else {
                0
            };
            &&& steps.len() == memory + threads
            &&& limits.memory_limit matches Some(limit) ==> steps[0] matches StepView::Execute(sql)
                && sql.len() >= 20 && sql.take(20) == "SET memory_limit = '"@ && read_sql_string(
                sql.skip(20),
            ) == Some((limit@, Seq::<char>::empty()))
            &&& limits.threads matches Some(count) ==> if count == 0 {
                steps.last() == StepView::Reject("DuckDB threads must be greater than zero"@)
            } else {
                steps.last() == StepView::Execute("SET threads = "@ + decimal(count as nat))
            }
        }),
{
    if let Some(limit) = limits.memory_limit {
        reveal_strlit("SET memory_limit = '");
        reveal_strlit("'");
        let sql = memory_limit_sql(limit@);
        let end = Seq::<char>::empty();
        assert(limit_steps(limits)[0] == StepView::Execute(sql));
        assert(sql.take(20) =~= "SET memory_limit = '"@);
        assert(sql.skip(20) =~= doubled_quotes(limit@) + seq!['\''] + end);
        law_quoted_text_is_data(limit@, end);
    }
}

/// Batches work exactly if they hold and wait for something; otherwise the first thing that
/// is wrong is said.
pub proof fn law_batches_hold_and_wait(batch_size: nat, latency: nat)
    ensures
        batch_fault(batch_size, latency) is None <==> batch_size > 0 && latency > 0,
        batch_size == 0 ==> batch_fault(batch_size, latency) == Some(
            "batch size must be greater than zero"@,
        ),
        batch_size > 0 && latency == 0 ==> batch_fault(batch_size, latency) == Some(
            "batch latency must be greater than zero"@,
        ),
{
}

/// A sink is accepted exactly if its table can have its name and its batches work, and then
/// no error refuses it. Otherwise the name comes first, and the error tells which name, or
/// what is wrong with the batches.
pub proof fn law_sinks_are_accepted_or_refused(
    table: Seq<char>,
    batch_size: nat,
    latency: nat,
    error: SinkError,
)
    ensures
        sink_accepted(table, batch_size, latency) <==> is_table_name(table) && batch_size > 0
            && latency > 0,
        sink_refused(table, batch_size, latency, error) <==> {
            ||| !is_table_name(table) && error is InvalidTableName
                && error->InvalidTableName_0@ == table
            ||| is_table_name(table) && batch_size == 0 && error is ConfigError
                && error->ConfigError_0@ == "batch size must be greater than zero"@
            ||| is_table_name(table) && batch_size > 0 && latency == 0 && error is ConfigError
                && error->ConfigError_0@ == "batch latency must be greater than zero"@
        },
{
}

/// The statements for two tables are the same but for the name of the table.
pub proof fn law_statements_differ_in_the_table_only(table: Seq<char>, other: Seq<char>)
    ensures
        differ_in_detail_only(create_statement(table), table, create_statement(other), other),
        differ_in_detail_only(insert_statement(table), table, insert_statement(other), other),
{
    assert(create_statement(table) == CREATE_TABLE_HEAD@ + table + CREATE_TABLE_TAIL@);
    assert(create_statement(other) == CREATE_TABLE_HEAD@ + other + CREATE_TABLE_TAIL@);
    assert(insert_statement(table) == INSERT_HEAD@ + table + INSERT_TAIL@);
    assert(insert_statement(other) == INSERT_HEAD@ + other + INSERT_TAIL@);
}

/// A connection opens the database once, at its path, with the directory created first
/// unless the database is kept in memory; then the limits are applied, all of them, and the
/// table is created last. It needs nothing to be there.
pub proof fn law_connections_open_limit_and_create(
    path: Seq<char>,
    table: Seq<char>,
    limits: ResourceLimits,
    i: int,
)
    ensures
        ({
            let steps = connection_steps(path, table, limits);
            let open: int = if path == ":memory:"@ {
                0
            } else {
                1
            };
            let limiting = limit_steps(limits);
            &&& steps.len() == open + 2 + limiting.len()
            &&& path != ":memory:"@ ==> steps[0] == StepView::CreateParent(Place::Database)
            &&& steps[open] == StepView::Open(path)
            &&& steps.subrange(open + 1, open + 1 + limiting.len()) == limiting
            &&& steps.last() == StepView::Execute(create_statement(table))
            &&& 0 <= i < steps.len() && i != open ==> !(steps[i] is Open) && !(
            steps[i] is OpenInMemory)
            &&& 0 <= i < steps.len() ==> !(steps[i] is RequireDirectory) && !(
            steps[i] is RequireFile)
            &&& 0 <= i < steps.len() && steps[i] is CreateParent ==> path != ":memory:"@
        }),
{
    let steps = connection_steps(path, table, limits);
    let open: int = if path == ":memory:"@ {
        0
    } else {
        1
    };
    let limiting = limit_steps(limits);
    assert(steps.subrange(open + 1, open + 1 + limiting.len()) =~= limiting);
    if open < i < steps.len() - 1 {
        assert(steps[i] == limiting[i - open - 1]);
    }
}

/// A record waits for the seconds that were asked for.
pub proof fn law_database_latency_is_in_seconds(sink: DuckDBSink)
    ensures
        sink.latency() == sink.latency_seconds() * 1_000_000_000,
{
}

/// A sink is made exactly if its table can have its name and its batches work, and it then
/// has what it was made with. One made without a word on announcements is like one that is
/// told to make none.
pub proof fn law_database_sinks_are_what_was_asked_for(
    path: &str,
    table: &str,
    batch_size: usize,
    seconds: u64,
    limits: ResourceLimits,
    debug_logging: bool,
    made: Result<DuckDBSink, SinkError>,
    quiet: Result<DuckDBSink, SinkError>,
)
    requires
        call_ensures(
            DuckDBSink::new_with_debug,
            (path, table, batch_size, seconds, limits, debug_logging),
            made,
        ),
        call_ensures(DuckDBSink::new, (path, table, batch_size, seconds, limits), quiet),
    ensures
        made is Ok <==> is_table_name(table@) && batch_size > 0 && seconds > 0,
        quiet is Ok <==> made is Ok,
        made matches Ok(sink) ==> {
            &&& sink.path() == path@
            &&& sink.table() == table@
            &&& sink.batch_size() == batch_size
            &&& sink.latency() == seconds as nat * 1_000_000_000
            &&& sink.limits() == limits
            &&& sink.debug() == debug_logging
        },
        quiet matches Ok(sink) ==> {
            &&& sink.path() == path@
            &&& sink.table() == table@
            &&& sink.batch_size() == batch_size
            &&& sink.latency() == seconds as nat * 1_000_000_000
            &&& sink.limits() == limits
            &&& !sink.debug()
        },
{
}

/// The table that a connection creates, last, is the one that records are inserted into, in
/// the database at the path of the sink.
pub proof fn law_database_records_go_into_the_table_created(
    sink: &DuckDBSink,
    plan: Vec<Step>,
    sql: String,
    batch: &Vec<RuuviTelemetry>,
    write: WritePlan,
)
    requires
        call_ensures(DuckDBSink::connection_plan, (sink,), plan),
        call_ensures(DuckDBSink::insert_sql, (sink,), sql),
        call_ensures(DuckDBSink::write_batch, (sink, batch), write),
    ensures
        plan@.len() > 0,
        plan@.last()@ == StepView::Execute(create_statement(sink.table())),
        sql@ == insert_statement(sink.table()),
        plan_view(plan@).contains(StepView::Open(sink.path())),
        write is Skip <==> batch@.len() == 0,
{
    let steps = connection_steps(sink.path(), sink.table(), sink.limits());
    law_connections_open_limit_and_create(sink.path(), sink.table(), sink.limits(), 0);
    assert(plan_view(plan@).len() == plan@.len());
    assert(plan_view(plan@)[plan@.len() - 1] == plan@.last()@);
    if sink.path() == ":memory:"@ {
        assert(steps[0] == StepView::Open(sink.path()));
    } else {
        assert(steps[1] == StepView::Open(sink.path()));
    }
}

/// The checks of a sink, one by one: a name passes exactly if a table can have it, and is
/// named otherwise; the settings of a batch pass exactly if it holds and waits for something;
/// and limits become the steps that apply them.
pub proof fn law_checks_pass_exactly_what_works(
    name: &str,
    named: Result<(), SinkError>,
    batch_size: usize,
    latency: u64,
    batched: Result<(), SinkError>,
    limits: &ResourceLimits,
    plan: Vec<Step>,
)
    requires
        call_ensures(validate_table_name, (name,), named),
        call_ensures(validate_batch_settings, (batch_size, latency), batched),
        call_ensures(apply_resource_limits, (limits,), plan),
    ensures
        named is Ok <==> is_table_name(name@),
        named matches Err(error) ==> error is InvalidTableName && error->InvalidTableName_0@
            == name@,
        batched is Ok <==> batch_size > 0 && latency > 0,
        batched matches Err(error) ==> error is ConfigError,
        plan@.len() == (if limits.memory_limit is Some {
            1int
        } else {
            0int
        }) + (if limits.threads is Some {
            1int
        } else {
            0int
        }),
        limits.threads matches Some(threads) ==> (plan@.last() is Reject <==> threads == 0),
{
    law_limits_are_applied(*limits);
    assert(plan_view(plan@).len() == plan@.len());
    if plan@.len() > 0 {
        assert(plan_view(plan@)[plan@.len() - 1] == plan@.last()@);
    }
}

} // verus!
