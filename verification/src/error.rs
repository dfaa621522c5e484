//! The errors of the forwarder and what each of them says.
use crate::text::{concat, concat3};
use vstd::prelude::*;

verus! {

/// What the source of telemetry reports besides telemetry.
#[derive(Debug, PartialEq, Eq)]
pub enum SourceError {
    /// A line that is no valid telemetry.
    ParseError(String),
    /// The end of the input.
    StreamShutdown,
    /// The input failed; the text describes the failure.
    IoError(String),
}

impl SourceError {
    /// The text of the error.
    pub open spec fn spec_message(self) -> Seq<char> {
        match self {
            SourceError::ParseError(detail) => "Parse error: "@ + detail@,
            SourceError::StreamShutdown => "Stream shutdown"@,
            SourceError::IoError(detail) => "IO error: "@ + detail@,
        }
    }

    /// The text of the error.
    pub fn message(&self) -> (r: String)
        ensures
            r@ == self.spec_message(),
    {
        match self {
            SourceError::ParseError(detail) => concat("Parse error: ", detail.as_str()),
            SourceError::StreamShutdown => "Stream shutdown".to_owned(),
            SourceError::IoError(detail) => concat("IO error: ", detail.as_str()),
        }
    }
}

/// Why a sink could not do what was asked of it.
#[derive(Debug, PartialEq, Eq)]
pub enum SinkError {
    /// An input or output operation failed; the text describes the failure.
    IoError(String),
    /// The database reported a failure; the text describes it.
    DuckDBError(String),
    /// A commit or a rollback failed, so nobody knows what the database holds.
    TransactionOutcomeUnknown(String),
    /// The name cannot be used for a table.
    InvalidTableName(String),
    /// The sink was set up with values that it cannot work with.
    ConfigError(String),
    /// A record could not be written as JSON.
    SerializationError(String),
    /// The database worker no longer answers.
    WorkerUnavailable,
    /// The database worker broke down.
    WorkerFailed(String),
}

impl SinkError {
    /// Whether trying again is safe and may help.
    pub open spec fn spec_is_retryable(self) -> bool {
        self is IoError || self is DuckDBError
    }

    /// Tells whether trying again is safe and may help. An unknown transaction outcome
    /// is never retried: a second attempt might write the batch twice.
    pub fn is_retryable(&self) -> (r: bool)
        ensures
            r == self.spec_is_retryable(),
    {
        match self {
            SinkError::IoError(_) => true,
            SinkError::DuckDBError(_) => true,
            _ => false,
        }
    }

    /// The text of the error.
    pub open spec fn spec_message(self) -> Seq<char> {
        match self {
            SinkError::IoError(detail) => "IO error: "@ + detail@,
            SinkError::DuckDBError(detail) => "DuckDB error: "@ + detail@,
            SinkError::TransactionOutcomeUnknown(detail) =>
                "transaction outcome is unknown after commit or rollback failed: "@ + detail@,
            SinkError::InvalidTableName(name) => "Invalid table name '"@ + name@
                + "': expected a letter or underscore followed by alphanumeric characters or underscores"@,
            SinkError::ConfigError(detail) => "configuration error: "@ + detail@,
            SinkError::SerializationError(detail) => "serialization error: "@ + detail@,
            SinkError::WorkerUnavailable => "database worker is unavailable"@,
            SinkError::WorkerFailed(detail) => "database worker failed: "@ + detail@,
        }
    }

    /// The text of the error.
    pub fn message(&self) -> (r: String)
        ensures
            r@ == self.spec_message(),
    {
        match self {
            SinkError::IoError(detail) => concat("IO error: ", detail.as_str()),
            SinkError::DuckDBError(detail) => concat("DuckDB error: ", detail.as_str()),
            SinkError::TransactionOutcomeUnknown(detail) => concat(
                "transaction outcome is unknown after commit or rollback failed: ",
                detail.as_str(),
            ),
            SinkError::InvalidTableName(name) => concat3(
                "Invalid table name '",
                name.as_str(),
                "': expected a letter or underscore followed by alphanumeric characters or underscores",
            ),
            SinkError::ConfigError(detail) => concat("configuration error: ", detail.as_str()),
            SinkError::SerializationError(detail) => concat(
                "serialization error: ",
                detail.as_str(),
            ),
            SinkError::WorkerUnavailable => "database worker is unavailable".to_owned(),
            SinkError::WorkerFailed(detail) => concat("database worker failed: ", detail.as_str()),
        }
    }
}

/// Why the pipeline stopped before its input was forwarded.
#[derive(Debug, PartialEq, Eq)]
pub enum PipelineError {
    /// The source failed.
    Source(SourceError),
    /// The sink failed.
    Sink(SinkError),
    /// The work that was pending at a shutdown did not finish in time.
    ShutdownTimeout,
}

impl PipelineError {
    /// The text of the error.
    pub open spec fn spec_message(self) -> Seq<char> {
        match self {
            PipelineError::Source(error) => "source failed: "@ + error.spec_message(),
            PipelineError::Sink(error) => "sink failed: "@ + error.spec_message(),
            PipelineError::ShutdownTimeout =>
                "shutdown timed out while flushing pending telemetry"@,
        }
    }

    /// The text of the error.
    pub fn message(&self) -> (r: String)
        ensures
            r@ == self.spec_message(),
    {
        match self {
            PipelineError::Source(error) => concat("source failed: ", error.message().as_str()),
            PipelineError::Sink(error) => concat("sink failed: ", error.message().as_str()),
            PipelineError::ShutdownTimeout =>
                "shutdown timed out while flushing pending telemetry".to_owned(),
        }
    }
}

/// The variant of an error of a sink, without its detail.
pub open spec fn same_kind(a: SinkError, b: SinkError) -> bool {
    match a {
        SinkError::IoError(_) => b is IoError,
        SinkError::DuckDBError(_) => b is DuckDBError,
        SinkError::TransactionOutcomeUnknown(_) => b is TransactionOutcomeUnknown,
        SinkError::InvalidTableName(_) => b is InvalidTableName,
        SinkError::ConfigError(_) => b is ConfigError,
        SinkError::SerializationError(_) => b is SerializationError,
        SinkError::WorkerUnavailable => b is WorkerUnavailable,
        SinkError::WorkerFailed(_) => b is WorkerFailed,
    }
}

/// The detail of an error of a sink.
pub open spec fn sink_detail(error: SinkError) -> Seq<char> {
    match error {
        SinkError::IoError(detail) => detail@,
        SinkError::DuckDBError(detail) => detail@,
        SinkError::TransactionOutcomeUnknown(detail) => detail@,
        SinkError::InvalidTableName(detail) => detail@,
        SinkError::ConfigError(detail) => detail@,
        SinkError::SerializationError(detail) => detail@,
        SinkError::WorkerUnavailable => Seq::empty(),
        SinkError::WorkerFailed(detail) => detail@,
    }
}

/// Whether the two texts are the same but for the detail that each of them holds.
pub open spec fn differ_in_detail_only(
    a: Seq<char>,
    detail_of_a: Seq<char>,
    b: Seq<char>,
    detail_of_b: Seq<char>,
) -> bool {
    exists|head: Seq<char>, tail: Seq<char>|
        a == #[trigger] (head + detail_of_a + tail) && b == head + detail_of_b + tail
}

/// Errors of one kind say the same, each around its own detail, which is never left out or
/// changed.
pub proof fn law_messages_hold_the_detail(a: SinkError, b: SinkError)
    requires
        same_kind(a, b),
    ensures
        differ_in_detail_only(a.spec_message(), sink_detail(a), b.spec_message(), sink_detail(b)),
{
    let (head, tail) = match a {
        SinkError::IoError(_) => ("IO error: "@, Seq::<char>::empty()),
        SinkError::DuckDBError(_) => ("DuckDB error: "@, Seq::<char>::empty()),
        SinkError::TransactionOutcomeUnknown(_) => (
            "transaction outcome is unknown after commit or rollback failed: "@,
            Seq::<char>::empty(),
        ),
        SinkError::InvalidTableName(_) => (
            "Invalid table name '"@,
            "': expected a letter or underscore followed by alphanumeric characters or underscores"@,
        ),
        SinkError::ConfigError(_) => ("configuration error: "@, Seq::<char>::empty()),
        SinkError::SerializationError(_) => ("serialization error: "@, Seq::<char>::empty()),
        SinkError::WorkerUnavailable => ("database worker is unavailable"@, Seq::<char>::empty()),
        SinkError::WorkerFailed(_) => ("database worker failed: "@, Seq::<char>::empty()),
    };
    assert(a.spec_message() =~= head + sink_detail(a) + tail);
    assert(b.spec_message() =~= head + sink_detail(b) + tail);
}

/// Whether a failure is retried depends on its kind alone: exactly plain failures of input
/// and output and of the database are, so that no write whose outcome is unknown, and no
/// refusal, is tried twice.
pub proof fn law_only_plain_failures_are_retried(a: SinkError, b: SinkError)
    ensures
        same_kind(a, b) ==> a.spec_is_retryable() == b.spec_is_retryable(),
        a.spec_is_retryable() ==> a is IoError || a is DuckDBError,
        a is IoError || a is DuckDBError ==> a.spec_is_retryable(),
{
}

/// What a source or a pipeline reports is what it was told, behind words that are always the
/// same.
pub proof fn law_messages_end_with_their_cause(
    detail: String,
    other: String,
    source: SourceError,
    other_source: SourceError,
    sink: SinkError,
    other_sink: SinkError,
)
    ensures
        differ_in_detail_only(
            SourceError::ParseError(detail).spec_message(),
            detail@,
            SourceError::ParseError(other).spec_message(),
            other@,
        ),
        differ_in_detail_only(
            SourceError::IoError(detail).spec_message(),
            detail@,
            SourceError::IoError(other).spec_message(),
            other@,
        ),
        differ_in_detail_only(
            PipelineError::Source(source).spec_message(),
            source.spec_message(),
            PipelineError::Source(other_source).spec_message(),
            other_source.spec_message(),
        ),
        differ_in_detail_only(
            PipelineError::Sink(sink).spec_message(),
            sink.spec_message(),
            PipelineError::Sink(other_sink).spec_message(),
            other_sink.spec_message(),
        ),
{
    let none = Seq::<char>::empty();
    let source_head = "source failed: "@;
    let sink_head = "sink failed: "@;
    assert(PipelineError::Source(source).spec_message() =~= source_head + source.spec_message()
        + none);
    assert(PipelineError::Source(other_source).spec_message() =~= source_head
        + other_source.spec_message() + none);
    assert(PipelineError::Sink(sink).spec_message() =~= sink_head + sink.spec_message() + none);
    assert(PipelineError::Sink(other_sink).spec_message() =~= sink_head + other_sink.spec_message()
        + none);
    assert(SourceError::ParseError(detail).spec_message() =~= "Parse error: "@ + detail@ + none);
    assert(SourceError::ParseError(other).spec_message() =~= "Parse error: "@ + other@ + none);
    assert(SourceError::IoError(detail).spec_message() =~= "IO error: "@ + detail@ + none);
    assert(SourceError::IoError(other).spec_message() =~= "IO error: "@ + other@ + none);
}

} // verus!
