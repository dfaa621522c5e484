//! The sinks that telemetry can go to.
pub mod console;
pub mod duckdb;
pub mod ducklake;
pub mod transaction;
pub mod worker;

use crate::error::SinkError;
use crate::text::{concat, concat3, decimal, decimal_text};
use vstd::prelude::*;

verus! {

/// What the pipeline has to know of a sink.
///
/// The pipeline initializes a sink before it reads, gathers records until there are as
/// many as the sink wants or the first of them has waited for the maximum latency, hands
/// each such batch to the sink, and closes the sink at the end.
pub trait SensorValuesSink {
    /// How many records make a full batch.
    spec fn batch_size(&self) -> nat;

    /// How many nanoseconds a record may wait in a batch.
    spec fn latency(&self) -> nat;

    /// Desired number of records in a batch before it is written.
    fn desired_batch_size(&self) -> (count: usize)
        ensures
            count == self.batch_size(),
    ;

    /// Maximum time to wait before a partial batch is written, in nanoseconds.
    fn desired_max_batch_latency(&self) -> (nanos: u128)
        ensures
            nanos == self.latency(),
    ;
}

/// A place in the file system that a connection needs.
#[derive(Debug, Clone, Copy, PartialEq, Eq, Structural)]
pub enum Place {
    /// The database file.
    Database,
    /// The directory of the data of a DuckLake.
    Data,
    /// The file of the catalog of a DuckLake.
    Catalog,
}

/// A step on the way to a connection or on its way through upkeep. The steps of a plan
/// are taken in order, up to the first that fails.
#[derive(Debug, PartialEq, Eq)]
pub enum Step {
    /// Make the path of the place absolute.
    Resolve(Place),
    /// Create the directory, with all above it, where it is missing.
    CreateDirectory(Place),
    /// Create the directory that the place is in, with all above it, where it is missing.
    /// A path that names no directory needs none.
    CreateParent(Place),
    /// Fail unless the place is a directory.
    RequireDirectory(Place),
    /// Fail unless the place is a file.
    RequireFile(Place),
    /// Open the database at the path.
    Open(String),
    /// Open a database in memory.
    OpenInMemory,
    /// Execute the SQL.
    Execute(String),
    /// Execute the SQL with one parameter, which is bound as data.
    ExecuteWith(String, String),
    /// Attach the DuckLake at the places that were resolved.
    Attach,
    /// Fail, since the settings are refused for this reason.
    Reject(String),
}

/// A step with its texts as sequences.
#[verifier::ext_equal]
pub enum StepView {
    Resolve(Place),
    CreateDirectory(Place),
    CreateParent(Place),
    RequireDirectory(Place),
    RequireFile(Place),
    Open(Seq<char>),
    OpenInMemory,
    Execute(Seq<char>),
    ExecuteWith(Seq<char>, Seq<char>),
    Attach,
    Reject(Seq<char>),
}

impl View for Step {
    type V = StepView;

    open spec fn view(&self) -> StepView {
        match *self {
            Step::Resolve(place) => StepView::Resolve(place),
            Step::CreateDirectory(place) => StepView::CreateDirectory(place),
            Step::CreateParent(place) => StepView::CreateParent(place),
            Step::RequireDirectory(place) => StepView::RequireDirectory(place),
            Step::RequireFile(place) => StepView::RequireFile(place),
            Step::Open(path) => StepView::Open(path@),
            Step::OpenInMemory => StepView::OpenInMemory,
            Step::Execute(sql) => StepView::Execute(sql@),
            Step::ExecuteWith(sql, parameter) => StepView::ExecuteWith(sql@, parameter@),
            Step::Attach => StepView::Attach,
            Step::Reject(reason) => StepView::Reject(reason@),
        }
    }
}

/// The steps of a plan.
pub open spec fn plan_view(plan: Seq<Step>) -> Seq<StepView> {
    plan.map_values(|step: Step| step@)
}

/// What to do with a batch.
#[derive(Debug, PartialEq, Eq)]
pub enum WritePlan {
    /// Nothing: the batch is empty.
    Skip,
    /// Have the worker insert the batch, and log the line first where there is one.
    Insert(Option<String>),
}

/// The line that announces a batch for a table of a database of this kind.
pub open spec fn batch_line(count: nat, kind: Seq<char>, table: Seq<char>) -> Seq<char> {
    "Inserting batch of "@ + decimal(count) + (" records into "@ + kind + " table "@) + table
}

/// Whether this is what to do with a batch of so many records: an empty batch is never
/// handed to the database, and others are announced only where that is wanted.
pub open spec fn is_write_plan(
    plan: WritePlan,
    count: nat,
    kind: Seq<char>,
    table: Seq<char>,
    debug_logging: bool,
) -> bool {
    if count == 0 {
        plan is Skip
    } else if debug_logging {
        plan matches WritePlan::Insert(Some(line)) && line@ == batch_line(count, kind, table)
    } else {
        plan matches WritePlan::Insert(None)
    }
}

pub(crate) fn write_plan(count: usize, kind: &str, table: &str, debug_logging: bool) -> (plan:
    WritePlan)
    ensures
        is_write_plan(plan, count as nat, kind@, table@, debug_logging),
{
    if count == 0 {
        return WritePlan::Skip;
    }
    if !debug_logging {
        return WritePlan::Insert(None);
    }
    let head = concat("Inserting batch of ", decimal_text(count as u64).as_str());
    let middle = concat3(" records into ", kind, " table ");
    WritePlan::Insert(Some(concat3(head.as_str(), middle.as_str(), table)))
}

impl Step {
    /// The error that a failure of the step is reported as. The detail describes the
    /// failure, or names the place where that is missing.
    pub fn failure(self, detail: String) -> (r: SinkError)
        ensures
            match self {
                Step::Resolve(_) => r == SinkError::IoError(detail),
                Step::CreateDirectory(_) => r == SinkError::IoError(detail),
                Step::CreateParent(_) => r == SinkError::IoError(detail),
                Step::RequireDirectory(_) => r matches SinkError::ConfigError(m) && m@
                    == "DuckLake data directory does not exist: "@ + detail@,
                Step::RequireFile(_) => r matches SinkError::ConfigError(m) && m@
                    == "DuckLake catalog does not exist: "@ + detail@,
                Step::Open(_) => r == SinkError::DuckDBError(detail),
                Step::OpenInMemory => r == SinkError::DuckDBError(detail),
                Step::Execute(_) => r == SinkError::DuckDBError(detail),
                Step::ExecuteWith(_, _) => r == SinkError::DuckDBError(detail),
                Step::Attach => r == SinkError::DuckDBError(detail),
                Step::Reject(reason) => r == SinkError::ConfigError(reason),
            },
    {
        match self {
            Step::Resolve(_) => SinkError::IoError(detail),
            Step::CreateDirectory(_) => SinkError::IoError(detail),
            Step::CreateParent(_) => SinkError::IoError(detail),
            Step::RequireDirectory(_) => SinkError::ConfigError(
                concat("DuckLake data directory does not exist: ", detail.as_str()),
            ),
            Step::RequireFile(_) => SinkError::ConfigError(
                concat("DuckLake catalog does not exist: ", detail.as_str()),
            ),
            Step::Reject(reason) => SinkError::ConfigError(reason),
            _ => SinkError::DuckDBError(detail),
        }
    }
}

/// A plan is told step by step, and steps that are told alike are alike: they do the same,
/// at the same place and with the same texts.
pub proof fn law_plans_are_told_step_by_step(plan: Seq<Step>, i: int, a: Step, b: Step)
    requires
        a@ == b@,
    ensures
        plan_view(plan).len() == plan.len(),
        0 <= i < plan.len() ==> plan_view(plan)[i] == plan[i]@,
        match a {
            Step::Resolve(place) => b == Step::Resolve(place),
            Step::CreateDirectory(place) => b == Step::CreateDirectory(place),
            Step::CreateParent(place) => b == Step::CreateParent(place),
            Step::RequireDirectory(place) => b == Step::RequireDirectory(place),
            Step::RequireFile(place) => b == Step::RequireFile(place),
            Step::Open(path) => b matches Step::Open(other) && other@ == path@,
            Step::OpenInMemory => b is OpenInMemory,
            Step::Execute(sql) => b matches Step::Execute(other) && other@ == sql@,
            Step::ExecuteWith(sql, parameter) => b matches Step::ExecuteWith(other, value)
                && other@ == sql@ && value@ == parameter@,
            Step::Attach => b is Attach,
            Step::Reject(reason) => b matches Step::Reject(other) && other@ == reason@,
        },
{
}

/// What each step is told as.
pub proof fn law_steps_are_told_by_what_they_do(place: Place, text: String, parameter: String)
    ensures
        Step::Resolve(place)@ == StepView::Resolve(place),
        Step::CreateDirectory(place)@ == StepView::CreateDirectory(place),
        Step::CreateParent(place)@ == StepView::CreateParent(place),
        Step::RequireDirectory(place)@ == StepView::RequireDirectory(place),
        Step::RequireFile(place)@ == StepView::RequireFile(place),
        Step::Open(text)@ == StepView::Open(text@),
        Step::OpenInMemory@ == StepView::OpenInMemory,
        Step::Execute(text)@ == StepView::Execute(text@),
        Step::ExecuteWith(text, parameter)@ == StepView::ExecuteWith(text@, parameter@),
        Step::Attach@ == StepView::Attach,
        Step::Reject(text)@ == StepView::Reject(text@),
{
}

/// Exactly the empty batches are skipped, and exactly the others are announced where that
/// is wanted. Announcements differ only in the count, the kind and the table they name.
pub proof fn law_batches_are_inserted_unless_empty(
    plan: WritePlan,
    count: nat,
    kind: Seq<char>,
    table: Seq<char>,
    debug_logging: bool,
)
    requires
        is_write_plan(plan, count, kind, table, debug_logging),
    ensures
        plan is Skip <==> count == 0,
        (plan matches WritePlan::Insert(line) && line is Some) <==> count > 0 && debug_logging,
        plan matches WritePlan::Insert(Some(line)) ==> line@ == "Inserting batch of "@ + decimal(
            count,
        ) + " records into "@ + kind + " table "@ + table,
{
    if let WritePlan::Insert(Some(told)) = plan {
        assert(told@ =~= "Inserting batch of "@ + decimal(count) + " records into "@ + kind
            + " table "@ + table);
    }
}

/// Failures are told apart by what failed: the file system, a lake that is not there, the
/// database, or settings that were refused. Only the first and the third are retried, and
/// what a failure says holds its detail.
pub proof fn law_failed_steps_are_told_apart(step: Step, detail: String, error: SinkError)
    requires
        call_ensures(Step::failure, (step, detail), error),
    ensures
        step is Resolve || step is CreateDirectory || step is CreateParent ==> error
            == SinkError::IoError(detail),
        step is Open || step is OpenInMemory || step is Execute || step is ExecuteWith
            || step is Attach ==> error == SinkError::DuckDBError(detail),
        step matches Step::Reject(reason) ==> error == SinkError::ConfigError(reason),
        step is RequireDirectory || step is RequireFile ==> error is ConfigError
            && detail@.is_suffix_of(error->ConfigError_0@),
        step is RequireDirectory || step is RequireFile || step is Reject
            <==> !error.spec_is_retryable(),
{
}

} // verus!
