use ruuvi_data_forwarder_rs::error::SinkError;
use ruuvi_data_forwarder_rs::sink::worker::{
    begin_shutdown, finish_shutdown, request, Command, Connecting, DatabaseWorker, Inserting,
    Progress, WorkerEnd, WorkerThread,
};

fn broken() -> SinkError {
    SinkError::DuckDBError("broken".to_string())
}

fn connecting(progress: Progress) -> Connecting {
    match progress {
        Progress::Connect(connecting) => connecting,
        _ => panic!("no connection is wanted"),
    }
}

fn inserting(progress: Progress) -> Inserting {
    match progress {
        Progress::Insert(inserting) => inserting,
        _ => panic!("no insert is wanted"),
    }
}

fn reply(progress: Progress) -> (Option<DatabaseWorker>, bool, Result<(), SinkError>) {
    match progress {
        Progress::Reply { worker, drop_connection, result } => (worker, drop_connection, result),
        _ => panic!("no reply is given"),
    }
}

fn connected() -> DatabaseWorker {
    let progress = connecting(DatabaseWorker::start().receive(Command::Initialize)).outcome(Ok(()));
    let (worker, dropped, result) = reply(progress);
    assert!(!dropped);
    assert_eq!(result, Ok(()));
    worker.unwrap()
}

#[test]
fn initializing_connects_once() {
    let (worker, dropped, result) = reply(connected().receive(Command::Initialize));
    assert!(worker.is_some());
    assert!(!dropped);
    assert_eq!(result, Ok(()));
}

#[test]
fn a_failed_connection_is_reported_and_tried_again() {
    let progress = connecting(DatabaseWorker::start().receive(Command::Initialize));
    let (worker, dropped, result) = reply(progress.outcome(Err(broken())));
    assert!(!dropped);
    assert_eq!(result, Err(broken()));
    let progress = connecting(worker.unwrap().receive(Command::Write)).outcome(Err(broken()));
    let (worker, dropped, result) = reply(progress);
    assert!(!dropped);
    assert_eq!(result, Err(broken()));
    connecting(worker.unwrap().receive(Command::Initialize));
}

#[test]
fn a_write_connects_first_where_it_has_to() {
    let progress = connecting(DatabaseWorker::start().receive(Command::Write)).outcome(Ok(()));
    let (worker, dropped, result) = reply(inserting(progress).outcome(Ok(())));
    assert!(!dropped);
    assert_eq!(result, Ok(()));
    inserting(worker.unwrap().receive(Command::Write));
}

#[test]
fn a_failed_write_drops_the_connection() {
    let progress = inserting(connected().receive(Command::Write)).outcome(Err(broken()));
    let (worker, dropped, result) = reply(progress);
    assert!(dropped);
    assert_eq!(result, Err(broken()));
    connecting(worker.unwrap().receive(Command::Write));
}

#[test]
fn a_shutdown_ends_the_worker() {
    let (worker, dropped, result) = reply(connected().receive(Command::Shutdown));
    assert!(worker.is_none());
    assert!(dropped);
    assert_eq!(result, Ok(()));
    let (worker, dropped, result) = reply(DatabaseWorker::start().receive(Command::Shutdown));
    assert!(worker.is_none());
    assert!(!dropped);
    assert_eq!(result, Ok(()));
}

#[test]
fn an_unanswered_request_finds_no_worker() {
    assert_eq!(request(None), Err(SinkError::WorkerUnavailable));
    assert_eq!(request(Some(Ok(()))), Ok(()));
    assert_eq!(request(Some(Err(broken()))), Err(broken()));
}

#[test]
fn a_shutdown_begins_only_with_a_thread() {
    assert_eq!(begin_shutdown(WorkerThread::Running), None);
    assert_eq!(begin_shutdown(WorkerThread::Joined), Some(Ok(())));
    assert_eq!(
        begin_shutdown(WorkerThread::Unknown),
        Some(Err(SinkError::WorkerFailed("worker join lock was poisoned".to_string())))
    );
}

#[test]
fn a_shutdown_ends_with_the_thread() {
    let unavailable = || Err(SinkError::WorkerUnavailable);
    assert_eq!(finish_shutdown(Ok(()), WorkerEnd::Finished), Ok(()));
    assert_eq!(finish_shutdown(unavailable(), WorkerEnd::Finished), Ok(()));
    assert_eq!(finish_shutdown(Err(broken()), WorkerEnd::Finished), Err(broken()));
    assert_eq!(
        finish_shutdown(unavailable(), WorkerEnd::Panicked),
        Err(SinkError::WorkerFailed("database worker panicked".to_string()))
    );
    assert_eq!(
        finish_shutdown(Ok(()), WorkerEnd::Lost("cancelled".to_string())),
        Err(SinkError::WorkerFailed("cancelled".to_string()))
    );
}
