use ruuvi_data_forwarder_rs::error::{PipelineError, SinkError, SourceError};

fn detail() -> String {
    "why".to_string()
}

#[test]
fn only_plain_failures_can_be_retried() {
    assert!(SinkError::IoError(detail()).is_retryable());
    assert!(SinkError::DuckDBError(detail()).is_retryable());
    for error in [
        SinkError::TransactionOutcomeUnknown(detail()),
        SinkError::InvalidTableName(detail()),
        SinkError::ConfigError(detail()),
        SinkError::SerializationError(detail()),
        SinkError::WorkerUnavailable,
        SinkError::WorkerFailed(detail()),
    ] {
        assert!(!error.is_retryable(), "{error:?}");
    }
}

#[test]
fn sink_errors_have_their_texts() {
    let texts = [
        (SinkError::IoError(detail()), "IO error: why"),
        (SinkError::DuckDBError(detail()), "DuckDB error: why"),
        (
            SinkError::TransactionOutcomeUnknown(detail()),
            "transaction outcome is unknown after commit or rollback failed: why",
        ),
        (
            SinkError::InvalidTableName(detail()),
            "Invalid table name 'why': expected a letter or underscore followed by alphanumeric characters or underscores",
        ),
        (SinkError::ConfigError(detail()), "configuration error: why"),
        (SinkError::SerializationError(detail()), "serialization error: why"),
        (SinkError::WorkerUnavailable, "database worker is unavailable"),
        (SinkError::WorkerFailed(detail()), "database worker failed: why"),
    ];
    for (error, text) in texts {
        assert_eq!(error.message(), text);
    }
}

#[test]
fn source_and_pipeline_errors_have_their_texts() {
    assert_eq!(SourceError::ParseError(detail()).message(), "Parse error: why");
    assert_eq!(SourceError::StreamShutdown.message(), "Stream shutdown");
    assert_eq!(SourceError::IoError(detail()).message(), "IO error: why");
    assert_eq!(
        PipelineError::Source(SourceError::IoError(detail())).message(),
        "source failed: IO error: why"
    );
    assert_eq!(
        PipelineError::Sink(SinkError::WorkerUnavailable).message(),
        "sink failed: database worker is unavailable"
    );
    assert_eq!(
        PipelineError::ShutdownTimeout.message(),
        "shutdown timed out while flushing pending telemetry"
    );
}
