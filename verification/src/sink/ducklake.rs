//! The DuckLake sink: how a lake is attached, and what has to be there first.
use crate::config::{CatalogTypeCfg, ResourceLimits};
use crate::dto::RuuviTelemetry;
use crate::error::SinkError;
use crate::pattern::is_table_name;
use crate::pipeline::NANOS_PER_SECOND;
use crate::sink::duckdb::{
    apply_resource_limits, create_statement, create_table_sql, doubled_quotes, insert_sql,
    insert_statement, law_quoted_text_is_data, limit_steps, read_sql_string, sink_accepted,
    sink_refused, sql_string, validate_batch_settings, validate_table_name,
};
use crate::sink::{
    is_write_plan, plan_view, write_plan, Place, SensorValuesSink, Step, StepView, WritePlan,
};
use crate::text::{concat, concat3};
use vstd::prelude::*;

verus! {

/// What keeps the catalog of a lake.
#[derive(Debug, Clone, Copy, PartialEq, Eq, Structural)]
pub enum CatalogType {
    DuckDB,
    SQLite,
    Postgres,
}

/// The catalog type that a configured one stands for.
pub open spec fn catalog_type(configured: CatalogTypeCfg) -> CatalogType {
    match configured {
        CatalogTypeCfg::DuckDB => CatalogType::DuckDB,
        CatalogTypeCfg::SQLite => CatalogType::SQLite,
        CatalogTypeCfg::Postgres => CatalogType::Postgres,
    }
}

impl From<CatalogTypeCfg> for CatalogType {
    fn from(configured: CatalogTypeCfg) -> (r: CatalogType) {
        match configured {
            CatalogTypeCfg::DuckDB => CatalogType::DuckDB,
            CatalogTypeCfg::SQLite => CatalogType::SQLite,
            CatalogTypeCfg::Postgres => CatalogType::Postgres,
        }
    }
}

impl vstd::std_specs::convert::FromSpecImpl<CatalogTypeCfg> for CatalogType {
    open spec fn obeys_from_spec() -> bool {
        true
    }

    open spec fn from_spec(configured: CatalogTypeCfg) -> CatalogType {
        catalog_type(configured)
    }
}

/// Where a lake is.
#[derive(Debug)]
pub struct DuckLakeConfig {
    pub catalog_type: CatalogType,
    /// The file of the catalog, or a PostgreSQL connection string.
    pub catalog_path: String,
    /// The directory of the data.
    pub data_path: String,
}

impl Clone for DuckLakeConfig {
    fn clone(&self) -> (r: DuckLakeConfig)
        ensures
            r == *self,
    {
        DuckLakeConfig {
            catalog_type: self.catalog_type,
            catalog_path: self.catalog_path.clone(),
            data_path: self.data_path.clone(),
        }
    }
}

/// What the catalog is called in the statement that attaches the lake: its absolute path,
/// or for PostgreSQL its connection string.
pub open spec fn catalog_name(config: DuckLakeConfig, absolute_catalog: Seq<char>) -> Seq<char> {
    match config.catalog_type {
        CatalogType::Postgres => "postgres:"@ + config.catalog_path@,
        CatalogType::DuckDB => absolute_catalog,
        CatalogType::SQLite => "sqlite:"@ + absolute_catalog,
    }
}

/// The SQL that attaches a lake under the name `ducklake`.
pub open spec fn attach_statement(catalog: Seq<char>, data: Seq<char>) -> Seq<char> {
    "ATTACH 'ducklake:"@ + doubled_quotes(catalog) + "' AS ducklake (DATA_PATH '"@
        + doubled_quotes(data) + "', AUTOMATIC_MIGRATION)"@
}

/// The SQL that attaches a lake, whose data is in the directory. The absolute path of the
/// catalog plays no part where PostgreSQL keeps the catalog.
pub fn attach_sql(config: &DuckLakeConfig, data_path: &str, absolute_catalog: &str) -> (r: String)
    ensures
        r@ == attach_statement(catalog_name(*config, absolute_catalog@), data_path@),
{
    let catalog = match config.catalog_type {
        CatalogType::Postgres => concat("postgres:", config.catalog_path.as_str()),
        CatalogType::DuckDB => absolute_catalog.to_owned(),
        CatalogType::SQLite => concat("sqlite:", absolute_catalog),
    };
    let head = concat3(
        "ATTACH 'ducklake:",
        sql_string(catalog.as_str()).as_str(),
        "' AS ducklake (DATA_PATH '",
    );
    concat3(head.as_str(), sql_string(data_path).as_str(), "', AUTOMATIC_MIGRATION)")
}

/// The steps that see to the places of a lake: they are created, or have to be there.
pub open spec fn place_steps(catalog_type: CatalogType, create_missing_paths: bool) -> Seq<
    StepView,
> {
    let data = if create_missing_paths {
        StepView::CreateDirectory(Place::Data)
    } else {
        StepView::RequireDirectory(Place::Data)
    };
    let catalog = if create_missing_paths {
        StepView::CreateParent(Place::Catalog)
    } else {
        StepView::RequireFile(Place::Catalog)
    };
    if catalog_type is Postgres {
        seq![StepView::Resolve(Place::Data), data]
    } else {
        seq![StepView::Resolve(Place::Data), data, StepView::Resolve(Place::Catalog), catalog]
    }
}

/// The steps that load the extensions and attach a lake.
pub open spec fn attach_steps(catalog_type: CatalogType) -> Seq<StepView> {
    let ducklake = StepView::Execute("INSTALL ducklake; LOAD ducklake;"@);
    match catalog_type {
        CatalogType::SQLite => seq![
            ducklake,
            StepView::Execute("INSTALL sqlite; LOAD sqlite;"@),
            StepView::Resolve(Place::Catalog),
            StepView::Attach,
        ],
        CatalogType::Postgres => seq![
            ducklake,
            StepView::Execute("INSTALL postgres; LOAD postgres;"@),
            StepView::Attach,
        ],
        CatalogType::DuckDB => seq![ducklake, StepView::Resolve(Place::Catalog), StepView::Attach],
    }
}

/// The steps to a connection with the lake attached.
pub open spec fn lake_steps(
    catalog_type: CatalogType,
    limits: ResourceLimits,
    create_missing_paths: bool,
) -> Seq<StepView> {
    place_steps(catalog_type, create_missing_paths).push(StepView::OpenInMemory) + limit_steps(
        limits,
    ) + attach_steps(catalog_type)
}

fn places_plan(catalog_type: CatalogType, create_missing_paths: bool) -> (plan: Vec<Step>)
    ensures
        plan_view(plan@) == place_steps(catalog_type, create_missing_paths),
{
    let mut plan: Vec<Step> = Vec::new();
    plan.push(Step::Resolve(Place::Data));
    if create_missing_paths {
        plan.push(Step::CreateDirectory(Place::Data));
    } else {
        plan.push(Step::RequireDirectory(Place::Data));
    }
    if catalog_type != CatalogType::Postgres {
        plan.push(Step::Resolve(Place::Catalog));
        if create_missing_paths {
            plan.push(Step::CreateParent(Place::Catalog));
        } else {
            plan.push(Step::RequireFile(Place::Catalog));
        }
    }
    assert(plan_view(plan@) =~= place_steps(catalog_type, create_missing_paths));
    plan
}

fn attach_plan(catalog_type: CatalogType) -> (plan: Vec<Step>)
    ensures
        plan_view(plan@) == attach_steps(catalog_type),
{
    let mut plan: Vec<Step> = Vec::new();
    plan.push(Step::Execute("INSTALL ducklake; LOAD ducklake;".to_owned()));
    match catalog_type {
        CatalogType::SQLite => {
            plan.push(Step::Execute("INSTALL sqlite; LOAD sqlite;".to_owned()));
        },
        CatalogType::Postgres => {
            plan.push(Step::Execute("INSTALL postgres; LOAD postgres;".to_owned()));
        },
        CatalogType::DuckDB => {},
    }
    if catalog_type != CatalogType::Postgres {
        plan.push(Step::Resolve(Place::Catalog));
    }
    plan.push(Step::Attach);
    assert(plan_view(plan@) =~= attach_steps(catalog_type));
    plan
}

/// The steps to a connection with the lake attached. Unless missing paths are created, they
/// have to be there before anything is opened.
pub fn open_ducklake_connection(
    config: &DuckLakeConfig,
    limits: &ResourceLimits,
    create_missing_paths: bool,
) -> (plan: Vec<Step>)
    ensures
        plan_view(plan@) == lake_steps(config.catalog_type, *limits, create_missing_paths),
{
    let mut plan = places_plan(config.catalog_type, create_missing_paths);
    let ghost places = plan@;
    plan.push(Step::OpenInMemory);
    let mut limiting = apply_resource_limits(limits);
    let ghost limited = limiting@;
    let mut attaching = attach_plan(config.catalog_type);
    let ghost attached = attaching@;
    plan.append(&mut limiting);
    plan.append(&mut attaching);
    assert(plan_view(plan@) =~= plan_view(places).push(StepView::OpenInMemory) + plan_view(limited)
        + plan_view(attached));
    plan
}

/// Without leave to create missing paths, a connection creates nothing in the file system,
/// and what it needs there is checked before a database is opened.
pub proof fn law_only_existing_lakes_are_opened_without_leave(
    catalog_type: CatalogType,
    limits: ResourceLimits,
    i: int,
    j: int,
)
    requires
        0 <= i < lake_steps(catalog_type, limits, false).len(),
        0 <= j < lake_steps(catalog_type, limits, false).len(),
    ensures
        !(lake_steps(catalog_type, limits, false)[i] is CreateDirectory),
        !(lake_steps(catalog_type, limits, false)[i] is CreateParent),
        ({
            let steps = lake_steps(catalog_type, limits, false);
            (steps[i] is RequireDirectory || steps[i] is RequireFile) && (steps[j] is OpenInMemory
                || steps[j] is Execute || steps[j] is Attach) ==> i < j
        }),
        lake_steps(catalog_type, limits, false).contains(StepView::RequireDirectory(Place::Data)),
        !(catalog_type is Postgres) ==> lake_steps(catalog_type, limits, false).contains(
            StepView::RequireFile(Place::Catalog),
        ),
{
    let steps = lake_steps(catalog_type, limits, false);
    assert(steps[1] == StepView::RequireDirectory(Place::Data));
    if !(catalog_type is Postgres) {
        assert(steps[3] == StepView::RequireFile(Place::Catalog));
    }
}

proof fn lemma_text_without_quotes_stays(head: Seq<char>, tail: Seq<char>)
    requires
        !head.contains('\''),
    ensures
        doubled_quotes(head + tail) == head + doubled_quotes(tail),
    decreases tail.len(), head.len(),
{
    if tail.len() > 0 {
        lemma_text_without_quotes_stays(head, tail.drop_last());
        assert((head + tail).drop_last() =~= head + tail.drop_last());
        assert(doubled_quotes(head + tail) =~= head + doubled_quotes(tail));
    } else if head.len() > 0 {
        assert(head + tail =~= head);
        assert(head[head.len() - 1] != '\'');
        assert(!head.drop_last().contains('\'')) by {
            if head.drop_last().contains('\'') {
                let i = choose|i: int|
                    0 <= i < head.drop_last().len() && head.drop_last()[i] == '\'';
                assert(head[i] == '\'');
            }
        }
        lemma_text_without_quotes_stays(head.drop_last(), tail);
        assert(head.drop_last() + tail =~= head.drop_last());
        assert(doubled_quotes(tail) =~= Seq::<char>::empty());
        assert(doubled_quotes(head + tail) =~= head + doubled_quotes(tail));
    } else {
        assert(head + tail =~= Seq::<char>::empty());
        assert(doubled_quotes(head + tail) =~= head + doubled_quotes(tail));
    }
}

/// What the statement that attaches a lake is given stays data, whatever it holds. Behind
/// its first quote the statement reads as the catalog; behind the next one that follows, as
/// the directory of the data; and what stands around them is always the same.
pub proof fn law_attached_places_are_data(catalog: Seq<char>, data: Seq<char>)
    ensures
        attach_statement(catalog, data).take(8) == "ATTACH '"@,
        read_sql_string(attach_statement(catalog, data).skip(8)) matches Some((name, middle)) && {
            &&& name == "ducklake:"@ + catalog
            &&& middle.len() >= 25
            &&& middle.take(25) == " AS ducklake (DATA_PATH '"@
            &&& read_sql_string(middle.skip(25)) == Some((data, ", AUTOMATIC_MIGRATION)"@))
        },
{
    reveal_strlit("ATTACH 'ducklake:");
    reveal_strlit("ATTACH '");
    reveal_strlit("ducklake:");
    reveal_strlit("' AS ducklake (DATA_PATH '");
    reveal_strlit(" AS ducklake (DATA_PATH '");
    reveal_strlit("', AUTOMATIC_MIGRATION)");
    reveal_strlit(", AUTOMATIC_MIGRATION)");
    let statement = attach_statement(catalog, data);
    let end = ", AUTOMATIC_MIGRATION)"@;
    let quoted = doubled_quotes(data) + seq!['\''] + end;
    let middle = " AS ducklake (DATA_PATH '"@ + quoted;
    assert(statement.take(8) =~= "ATTACH '"@);
    lemma_text_without_quotes_stays("ducklake:"@, catalog);
    assert(statement.skip(8) =~= doubled_quotes("ducklake:"@ + catalog) + seq!['\''] + middle);
    law_quoted_text_is_data("ducklake:"@ + catalog, middle);
    assert(middle.take(25) =~= " AS ducklake (DATA_PATH '"@);
    assert(middle.skip(25) =~= quoted);
    law_quoted_text_is_data(data, end);
}

/// The name of a table of the attached lake.
pub open spec fn lake_table(table: Seq<char>) -> Seq<char> {
    "ducklake."@ + table
}

/// A sink that writes batches to a table of a DuckLake.
pub struct DuckLakeSink {
    full_table_name: String,
    batch_size: usize,
    max_latency_seconds: u64,
    ducklake_config: DuckLakeConfig,
    resource_limits: ResourceLimits,
    debug_logging: bool,
}

impl DuckLakeSink {
    /// The name of the table, with that of the lake.
    pub closed spec fn full_table(self) -> Seq<char> {
        self.full_table_name@
    }

    /// How many seconds a record may wait in a batch.
    pub closed spec fn latency_seconds(self) -> nat {
        self.max_latency_seconds as nat
    }

    /// Where the lake is.
    pub closed spec fn lake(self) -> DuckLakeConfig {
        self.ducklake_config
    }

    /// The limits that the database is given.
    pub closed spec fn limits(self) -> ResourceLimits {
        self.resource_limits
    }

    /// Whether each batch is announced.
    pub closed spec fn debug(self) -> bool {
        self.debug_logging
    }

    #[verifier::type_invariant]
    spec fn well_formed(self) -> bool {
        &&& exists|table: Seq<char>|
            self.full_table_name@ == #[trigger] lake_table(table) && sink_accepted(
                table,
                self.batch_size as nat,
                self.max_latency_seconds as nat,
            )
    }

    /// A sink that does not announce its batches.
    pub fn new(
        table_name: &str,
        batch_size: usize,
        max_latency_seconds: u64,
        ducklake_config: DuckLakeConfig,
        resource_limits: ResourceLimits,
    ) -> (r: Result<DuckLakeSink, SinkError>)
        ensures
            match r {
                Ok(sink) => {
                    &&& sink_accepted(table_name@, batch_size as nat, max_latency_seconds as nat)
                    &&& sink.full_table() == lake_table(table_name@)
                    &&& sink.batch_size() == batch_size
                    &&& sink.latency_seconds() == max_latency_seconds
                    &&& sink.lake() == ducklake_config
                    &&& sink.limits() == resource_limits
                    &&& !sink.debug()
                },
                Err(error) => sink_refused(
                    table_name@,
                    batch_size as nat,
                    max_latency_seconds as nat,
                    error,
                ),
            },
    {
        Self::new_with_debug(
            table_name,
            batch_size,
            max_latency_seconds,
            ducklake_config,
            resource_limits,
            false,
        )
    }

    /// A sink that announces its batches where that is wanted. A name that cannot be used
    /// for a table is refused, and then settings of a batch that cannot work.
    pub fn new_with_debug(
        table_name: &str,
        batch_size: usize,
        max_latency_seconds: u64,
        ducklake_config: DuckLakeConfig,
        resource_limits: ResourceLimits,
        debug_logging: bool,
    ) -> (r: Result<DuckLakeSink, SinkError>)
        ensures
            match r {
                Ok(sink) => {
                    &&& sink_accepted(table_name@, batch_size as nat, max_latency_seconds as nat)
                    &&& sink.full_table() == lake_table(table_name@)
                    &&& sink.batch_size() == batch_size
                    &&& sink.latency_seconds() == max_latency_seconds
                    &&& sink.lake() == ducklake_config
                    &&& sink.limits() == resource_limits
                    &&& sink.debug() == debug_logging
                },
                Err(error) => sink_refused(
                    table_name@,
                    batch_size as nat,
                    max_latency_seconds as nat,
                    error,
                ),
            },
    {
        if let Err(error) = validate_table_name(table_name) {
            return Err(error);
        }
        if let Err(error) = validate_batch_settings(batch_size, max_latency_seconds) {
            return Err(error);
        }
        let full_table_name = concat("ducklake.", table_name);
        assert(full_table_name@ == lake_table(table_name@));
        Ok(
            DuckLakeSink {
                full_table_name,
                batch_size,
                max_latency_seconds,
                ducklake_config,
                resource_limits,
                debug_logging,
            },
        )
    }

    /// The steps to a new connection. Missing paths are created, and so is the table.
    pub fn connection_plan(&self) -> (plan: Vec<Step>)
        ensures
            plan_view(plan@) == lake_steps(self.lake().catalog_type, self.limits(), true).push(
                StepView::Execute(create_statement(self.full_table())),
            ),
    {
        let mut plan = open_ducklake_connection(
            &self.ducklake_config,
            &self.resource_limits,
            true,
        );
        let ghost opening = plan@;
        plan.push(Step::Execute(create_table_sql(self.full_table_name.as_str())));
        assert(plan_view(plan@) =~= plan_view(opening).push(plan@.last()@));
        plan
    }

    /// The SQL that inserts one record.
    pub fn insert_sql(&self) -> (r: String)
        ensures
            r@ == insert_statement(self.full_table()),
    {
        insert_sql(self.full_table_name.as_str())
    }

    /// What to do with a batch.
    pub fn write_batch(&self, batch: &Vec<RuuviTelemetry>) -> (plan: WritePlan)
        ensures
            is_write_plan(plan, batch@.len(), "DuckLake"@, self.full_table(), self.debug()),
    {
        write_plan(batch.len(), "DuckLake", self.full_table_name.as_str(), self.debug_logging)
    }
}

impl SensorValuesSink for DuckLakeSink {
    closed spec fn batch_size(&self) -> nat {
        self.batch_size as nat
    }

    open spec fn latency(&self) -> nat {
        self.latency_seconds() * NANOS_PER_SECOND as nat
    }

    /// At least one record.
    fn desired_batch_size(&self) -> (count: usize)
        ensures
            count > 0,
    {
        proof {
            use_type_invariant(self);
        }
        self.batch_size
    }

    /// At least one second.
    fn desired_max_batch_latency(&self) -> (nanos: u128)
        ensures
            nanos >= NANOS_PER_SECOND,
    {
        proof {
            use_type_invariant(self);
        }
        self.max_latency_seconds as u128 * NANOS_PER_SECOND
    }
}

/// With leave to create missing paths, a connection needs nothing to be there, whatever
/// keeps the catalog: it creates the directory of the data and, unless PostgreSQL keeps the
/// catalog, the directory of the catalog, each before a database is opened.
pub proof fn law_missing_places_are_created_with_leave(
    catalog_type: CatalogType,
    limits: ResourceLimits,
    i: int,
    j: int,
)
    requires
        0 <= i < lake_steps(catalog_type, limits, true).len(),
        0 <= j < lake_steps(catalog_type, limits, true).len(),
    ensures
        ({
            let steps = lake_steps(catalog_type, limits, true);
            &&& !(steps[i] is RequireDirectory) && !(steps[i] is RequireFile)
            &&& steps.contains(StepView::CreateDirectory(Place::Data))
            &&& !(catalog_type is Postgres) ==> steps.contains(
                StepView::CreateParent(Place::Catalog),
            )
            &&& catalog_type is Postgres ==> !(steps[i] is CreateParent)
            &&& steps[i] is CreateDirectory ==> steps[i] == StepView::CreateDirectory(Place::Data)
            &&& (steps[i] is CreateDirectory || steps[i] is CreateParent) && (
            steps[j] is OpenInMemory || steps[j] is Execute || steps[j] is Attach) ==> i < j
            &&& steps[i] == StepView::CreateDirectory(Place::Data) ==> i > 0 && steps[i - 1]
                == StepView::Resolve(Place::Data)
            &&& steps[i] == StepView::CreateParent(Place::Catalog) ==> i > 0 && steps[i - 1]
                == StepView::Resolve(Place::Catalog)
        }),
{
    let steps = lake_steps(catalog_type, limits, true);
    assert(steps[1] == StepView::CreateDirectory(Place::Data));
    if !(catalog_type is Postgres) {
        assert(steps[3] == StepView::CreateParent(Place::Catalog));
    }
}

/// Whether or not paths are created, one database is opened, in memory; behind it come the
/// limits, all of them, then the extension of lakes, then that of the catalog where it needs
/// one; and the lake is attached once, last. Paths are made absolute before they are used.
pub proof fn law_lakes_are_opened_limited_and_attached(
    catalog_type: CatalogType,
    limits: ResourceLimits,
    create_missing_paths: bool,
    i: int,
)
    ensures
        ({
            let steps = lake_steps(catalog_type, limits, create_missing_paths);
            let limiting = limit_steps(limits);
            let open: int = if catalog_type is Postgres {
                2
            } else {
                4
            };
            let load: int = open + 1 + limiting.len();
            &&& steps.len() == load + if catalog_type is SQLite {
                4int
            } else {
                3int
            }
            &&& steps[0] == StepView::Resolve(Place::Data)
            &&& steps[open] == StepView::OpenInMemory
            &&& steps.subrange(open + 1, load) == limiting
            &&& steps[load] == StepView::Execute("INSTALL ducklake; LOAD ducklake;"@)
            &&& catalog_type is SQLite ==> steps[load + 1] == StepView::Execute(
                "INSTALL sqlite; LOAD sqlite;"@,
            )
            &&& catalog_type is Postgres ==> steps[load + 1] == StepView::Execute(
                "INSTALL postgres; LOAD postgres;"@,
            )
            &&& !(catalog_type is Postgres) ==> steps[2] == StepView::Resolve(Place::Catalog)
                && steps[steps.len() - 2] == StepView::Resolve(Place::Catalog)
            &&& steps.last() == StepView::Attach
            &&& 0 <= i < steps.len() && steps[i] is OpenInMemory ==> i == open
            &&& 0 <= i < steps.len() && steps[i] is Attach ==> i == steps.len() - 1
            &&& 0 <= i < steps.len() ==> !(steps[i] is Open) && !(steps[i] is ExecuteWith)
        }),
{
    let steps = lake_steps(catalog_type, limits, create_missing_paths);
    let limiting = limit_steps(limits);
    let open: int = if catalog_type is Postgres {
        2
    } else {
        4
    };
    let load: int = open + 1 + limiting.len();
    assert(steps.subrange(open + 1, load) =~= limiting);
    if open < i < load {
        assert(steps[i] == limiting[i - open - 1]);
    }
}

/// Only whether paths may be created makes a difference between two connections to the same
/// lake, and only before the database is opened.
pub proof fn law_leave_matters_for_the_places_only(
    catalog_type: CatalogType,
    limits: ResourceLimits,
)
    ensures
        ({
            let with = lake_steps(catalog_type, limits, true);
            let without = lake_steps(catalog_type, limits, false);
            let open: int = if catalog_type is Postgres {
                2
            } else {
                4
            };
            &&& with.skip(open) == without.skip(open)
            &&& with[1] == StepView::CreateDirectory(Place::Data) && without[1]
                == StepView::RequireDirectory(Place::Data)
            &&& open == 4 ==> with[3] == StepView::CreateParent(Place::Catalog) && without[3]
                == StepView::RequireFile(Place::Catalog)
        }),
{
    let with = lake_steps(catalog_type, limits, true);
    let without = lake_steps(catalog_type, limits, false);
    let open: int = if catalog_type is Postgres {
        2
    } else {
        4
    };
    assert(with.skip(open) =~= without.skip(open));
}

/// A catalog in a file is named by its absolute path, behind `sqlite:` where SQLite keeps it.
/// One that PostgreSQL keeps is named by the connection string as it stands, behind
/// `postgres:`, wherever the program runs.
pub proof fn law_catalogs_are_named_by_what_keeps_them(
    config: DuckLakeConfig,
    absolute: Seq<char>,
)
    ensures
        config.catalog_type is DuckDB ==> catalog_name(config, absolute) == absolute,
        config.catalog_type is SQLite ==> catalog_name(config, absolute) == "sqlite:"@ + absolute,
        config.catalog_type is Postgres ==> catalog_name(config, absolute) == "postgres:"@
            + config.catalog_path@,
{
}

/// Each configured kind of catalog is the kind of the same name.
pub proof fn law_catalog_types_carry_over(configured: CatalogTypeCfg)
    ensures
        catalog_type(configured) is DuckDB <==> configured is DuckDB,
        catalog_type(configured) is SQLite <==> configured is SQLite,
        catalog_type(configured) is Postgres <==> configured is Postgres,
{
}

/// The tables of a lake are named alike, each behind the name of the lake.
pub proof fn law_tables_are_those_of_the_lake(table: Seq<char>)
    ensures
        lake_table(table).len() == table.len() + 9,
        lake_table(table).take(9) == "ducklake."@,
        lake_table(table).skip(9) == table,
{
    reveal_strlit("ducklake.");
    assert(lake_table(table).take(9) =~= "ducklake."@);
    assert(lake_table(table).skip(9) =~= table);
}

/// A record waits for the seconds that were asked for.
pub proof fn law_lake_latency_is_in_seconds(sink: DuckLakeSink)
    ensures
        sink.latency() == sink.latency_seconds() * 1_000_000_000,
{
}

/// The table that a connection creates, last, is the one that records are inserted into.
pub proof fn law_lake_records_go_into_the_table_created(
    sink: &DuckLakeSink,
    plan: Vec<Step>,
    sql: String,
)
    requires
        call_ensures(DuckLakeSink::connection_plan, (sink,), plan),
        call_ensures(DuckLakeSink::insert_sql, (sink,), sql),
    ensures
        plan@.len() > 0,
        plan@.last()@ == StepView::Execute(create_statement(sink.full_table())),
        sql@ == insert_statement(sink.full_table()),
        plan_view(plan@.drop_last()) == lake_steps(sink.lake().catalog_type, sink.limits(), true),
{
    let steps = lake_steps(sink.lake().catalog_type, sink.limits(), true);
    assert(plan_view(plan@).len() == plan@.len());
    assert(plan_view(plan@)[plan@.len() - 1] == plan@.last()@);
    assert(plan_view(plan@.drop_last()) =~= plan_view(plan@).drop_last());
    assert(plan_view(plan@).drop_last() =~= steps);
}

/// A sink is made exactly if its table can have its name and its batches work, and it then
/// has what it was made with. One made without a word on announcements is like one that is
/// told to make none.
pub proof fn law_lake_sinks_are_what_was_asked_for(
    table: &str,
    batch_size: usize,
    seconds: u64,
    config: DuckLakeConfig,
    limits: ResourceLimits,
    debug_logging: bool,
    made: Result<DuckLakeSink, SinkError>,
    quiet: Result<DuckLakeSink, SinkError>,
)
    requires
        call_ensures(
            DuckLakeSink::new_with_debug,
            (table, batch_size, seconds, config, limits, debug_logging),
            made,
        ),
        call_ensures(DuckLakeSink::new, (table, batch_size, seconds, config, limits), quiet),
    ensures
        made is Ok <==> is_table_name(table@) && batch_size > 0 && seconds > 0,
        quiet is Ok <==> made is Ok,
        made matches Ok(sink) ==> {
            &&& sink.full_table() == "ducklake."@ + table@
            &&& sink.batch_size() == batch_size
            &&& sink.latency() == seconds as nat * 1_000_000_000
            &&& sink.lake() == config
            &&& sink.limits() == limits
            &&& sink.debug() == debug_logging
        },
        quiet matches Ok(sink) ==> {
            &&& sink.full_table() == "ducklake."@ + table@
            &&& sink.batch_size() == batch_size
            &&& sink.latency() == seconds as nat * 1_000_000_000
            &&& sink.lake() == config
            &&& sink.limits() == limits
            &&& !sink.debug()
        },
{
}

} // verus!
