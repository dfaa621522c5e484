//! The database worker: one connection at most, opened when it is needed.
//!
//! The worker lives on a thread of its own and takes one command after the other. It
//! answers each command once, and in between it says what to do with the connection.
use crate::error::SinkError;
use vstd::prelude::*;

verus! {

/// What the worker is asked to do.
#[derive(Debug, Clone, Copy, PartialEq, Eq, Structural)]
pub enum Command {
    /// See to it that there is a connection.
    Initialize,
    /// Insert a batch.
    Write,
    /// Close the connection and stop.
    Shutdown,
}

/// Where the worker is.
pub enum WorkerState {
    /// It waits for a command.
    Idle { connected: bool },
    /// It waits for a connection, to insert a batch then or not.
    Connecting { write: bool },
    /// It waits for the end of an insert.
    Inserting,
    /// It takes no further command.
    Stopped,
}

/// What the worker waits for.
pub enum WorkerEvent {
    Command(Command),
    Outcome(Result<(), SinkError>),
}

/// What the worker wants to have done.
pub enum WorkerAction {
    /// Open a connection.
    Connect,
    /// Insert the batch.
    Insert,
    /// Drop the connection where that is said, and answer the command.
    Reply { drop_connection: bool, result: Result<(), SinkError> },
}

impl WorkerState {
    /// What follows an event: where the worker is then, and what it wants to have done.
    /// A connection is opened only where there is none. After a failed insert the
    /// connection may be broken: it is dropped, so that the next write opens another.
    pub open spec fn step(self, event: WorkerEvent) -> (WorkerState, WorkerAction) {
        match (self, event) {
            (WorkerState::Idle { connected }, WorkerEvent::Command(Command::Initialize)) =>
            if connected {
                (self, WorkerAction::Reply { drop_connection: false, result: Ok(()) })
            } else {
                (WorkerState::Connecting { write: false }, WorkerAction::Connect)
            },
            (WorkerState::Idle { connected }, WorkerEvent::Command(Command::Write)) =>
            if connected {
                (WorkerState::Inserting, WorkerAction::Insert)
            } else {
                (WorkerState::Connecting { write: true }, WorkerAction::Connect)
            },
            (WorkerState::Idle { connected }, WorkerEvent::Command(Command::Shutdown)) => (
                WorkerState::Stopped,
                WorkerAction::Reply { drop_connection: connected, result: Ok(()) },
            ),
            (WorkerState::Connecting { write }, WorkerEvent::Outcome(Ok(_))) => if write {
                (WorkerState::Inserting, WorkerAction::Insert)
            } else {
                (
                    WorkerState::Idle { connected: true },
                    WorkerAction::Reply { drop_connection: false, result: Ok(()) },
                )
            },
            (WorkerState::Connecting { .. }, WorkerEvent::Outcome(Err(error))) => (
                WorkerState::Idle { connected: false },
                WorkerAction::Reply { drop_connection: false, result: Err(error) },
            ),
            (WorkerState::Inserting, WorkerEvent::Outcome(Ok(_))) => (
                WorkerState::Idle { connected: true },
                WorkerAction::Reply { drop_connection: false, result: Ok(()) },
            ),
            (WorkerState::Inserting, WorkerEvent::Outcome(Err(error))) => (
                WorkerState::Idle { connected: false },
                WorkerAction::Reply { drop_connection: true, result: Err(error) },
            ),
            _ => (self, arbitrary()),
        }
    }

    /// Whether the worker waits for such an event.
    pub open spec fn expects(self, event: WorkerEvent) -> bool {
        match self {
            WorkerState::Idle { .. } => event is Command,
            WorkerState::Connecting { .. } => event is Outcome,
            WorkerState::Inserting => event is Outcome,
            WorkerState::Stopped => false,
        }
    }

    /// How many connections the worker holds.
    pub open spec fn held(self) -> int {
        match self {
            WorkerState::Idle { connected } => if connected {
                1
            } else {
                0
            },
            WorkerState::Connecting { .. } => 0,
            WorkerState::Inserting => 1,
            WorkerState::Stopped => 0,
        }
    }
}

/// A worker that waits for a command.
pub struct DatabaseWorker {
    connected: bool,
}

/// A worker that waits for a connection.
pub struct Connecting {
    write: bool,
}

/// A worker that waits for the end of an insert.
pub struct Inserting {}

/// How the worker goes on.
pub enum Progress {
    /// Open a connection and report the outcome.
    Connect(Connecting),
    /// Insert the batch and report the outcome.
    Insert(Inserting),
    /// Drop the connection where that is said, answer the command, and go on with the
    /// worker if there still is one.
    Reply {
        worker: Option<DatabaseWorker>,
        drop_connection: bool,
        result: Result<(), SinkError>,
    },
}

impl View for Progress {
    type V = (WorkerState, WorkerAction);

    open spec fn view(&self) -> (WorkerState, WorkerAction) {
        match *self {
            Progress::Connect(connecting) => (connecting.state(), WorkerAction::Connect),
            Progress::Insert(inserting) => (inserting.state(), WorkerAction::Insert),
            Progress::Reply { worker, drop_connection, result } => (
                match worker {
                    Some(worker) => worker.state(),
                    None => WorkerState::Stopped,
                },
                WorkerAction::Reply { drop_connection, result },
            ),
        }
    }
}

impl DatabaseWorker {
    /// Where the worker is.
    pub closed spec fn state(self) -> WorkerState {
        WorkerState::Idle { connected: self.connected }
    }

    /// A worker without a connection.
    pub fn start() -> (r: DatabaseWorker)
        ensures
            r.state() == (WorkerState::Idle { connected: false }),
    {
        DatabaseWorker { connected: false }
    }

    /// Takes a command.
    pub fn receive(self, command: Command) -> (r: Progress)
        ensures
            self.state() is Idle,
            r@ == self.state().step(WorkerEvent::Command(command)),
    {
        match command {
            Command::Initialize => if self.connected {
                Progress::Reply { worker: Some(self), drop_connection: false, result: Ok(()) }
            } else {
                Progress::Connect(Connecting { write: false })
            },
            Command::Write => if self.connected {
                Progress::Insert(Inserting {  })
            } else {
                Progress::Connect(Connecting { write: true })
            },
            Command::Shutdown => Progress::Reply {
                worker: None,
                drop_connection: self.connected,
                result: Ok(()),
            },
        }
    }
}

impl Connecting {
    /// Where the worker is.
    pub closed spec fn state(self) -> WorkerState {
        WorkerState::Connecting { write: self.write }
    }

    /// Takes the outcome of opening a connection.
    pub fn outcome(self, outcome: Result<(), SinkError>) -> (r: Progress)
        ensures
            self.state() is Connecting,
            r@ == self.state().step(WorkerEvent::Outcome(outcome)),
    {
        match outcome {
            Ok(()) => if self.write {
                Progress::Insert(Inserting {  })
            } else {
                Progress::Reply {
                    worker: Some(DatabaseWorker { connected: true }),
                    drop_connection: false,
                    result: Ok(()),
                }
            },
            Err(error) => Progress::Reply {
                worker: Some(DatabaseWorker { connected: false }),
                drop_connection: false,
                result: Err(error),
            },
        }
    }
}

impl Inserting {
    /// Where the worker is.
    pub closed spec fn state(self) -> WorkerState {
        WorkerState::Inserting
    }

    /// Takes the outcome of the insert.
    pub fn outcome(self, outcome: Result<(), SinkError>) -> (r: Progress)
        ensures
            self.state() is Inserting,
            r@ == self.state().step(WorkerEvent::Outcome(outcome)),
    {
        match outcome {
            Ok(()) => Progress::Reply {
                worker: Some(DatabaseWorker { connected: true }),
                drop_connection: false,
                result: Ok(()),
            },
            Err(error) => Progress::Reply {
                worker: Some(DatabaseWorker { connected: false }),
                drop_connection: true,
                result: Err(error),
            },
        }
    }
}

/// The worker never holds more than one connection, and loses none: it asks for one only
/// while it holds none, inserts only while it holds one, and what was opened and not
/// dropped is what it holds. A stopped worker holds none.
pub proof fn law_one_connection_at_most(state: WorkerState, event: WorkerEvent)
    requires
        state.expects(event),
    ensures
        ({
            let (next, action) = state.step(event);
            let opened: int = if state is Connecting && event->Outcome_0 is Ok {
                1
            } else {
                0
            };
            let dropped: int = if action matches WorkerAction::Reply { drop_connection, .. }
                && drop_connection {
                1
            } else {
                0
            };
            &&& next.held() == state.held() + opened - dropped
            &&& 0 <= next.held() <= 1
            &&& action is Connect ==> next.held() == 0
            &&& action is Insert ==> next.held() == 1
            &&& next is Stopped ==> next.held() == 0
        }),
{
}

/// Every command is answered, at the latest when its second outcome is in, and before
/// that the worker takes no other command.
pub proof fn law_every_command_is_answered(
    connected: bool,
    command: Command,
    first: Result<(), SinkError>,
    second: Result<(), SinkError>,
)
    ensures
        ({
            let (s1, a1) = (WorkerState::Idle { connected }).step(WorkerEvent::Command(command));
            let (s2, a2) = s1.step(WorkerEvent::Outcome(first));
            let (s3, a3) = s2.step(WorkerEvent::Outcome(second));
            if a1 is Reply {
                s1 is Idle || s1 is Stopped
            } else if a2 is Reply {
                !(s1 is Idle) && s2 is Idle
            } else {
                !(s1 is Idle) && !(s2 is Idle) && a3 is Reply && s3 is Idle
            }
        }),
{
}

/// A write is answered with what became of its insert, or with why there was no
/// connection to insert through. In particular it succeeds only if the insert did.
pub proof fn law_writes_are_answered_with_their_outcome(
    connected: bool,
    connection: Result<(), SinkError>,
    insert: Result<(), SinkError>,
)
    ensures
        ({
            let (s1, a1) = (WorkerState::Idle { connected }).step(
                WorkerEvent::Command(Command::Write),
            );
            let (s2, a2) = if connected {
                (s1, a1)
            } else {
                s1.step(WorkerEvent::Outcome(connection))
            };
            let (s3, a3) = s2.step(WorkerEvent::Outcome(insert));
            if !connected && connection is Err {
                a2 == (WorkerAction::Reply { drop_connection: false, result: connection })
            } else {
                &&& a2 is Insert
                &&& a3 matches WorkerAction::Reply { result, .. } && (insert is Ok <==> result is Ok)
                    && (insert is Err ==> result == insert)
            }
        }),
{
}

/// After a failed write the connection is not used again: whatever is asked next, the
/// worker opens another one for it.
pub proof fn law_failed_writes_reconnect(error: SinkError, command: Command)
    requires
        !(command is Shutdown),
    ensures
        ({
            let (next, action) = WorkerState::Inserting.step(WorkerEvent::Outcome(Err(error)));
            &&& action == (WorkerAction::Reply { drop_connection: true, result: Err(error) })
            &&& next.step(WorkerEvent::Command(command)).1 is Connect
        }),
{
}

/// A working connection is kept: after a success neither a write nor an initialization
/// opens another one.
pub proof fn law_connections_are_reused(state: WorkerState, command: Command)
    requires
        state is Connecting || state is Inserting,
        !(command is Shutdown),
    ensures
        ({
            let (next, action) = state.step(WorkerEvent::Outcome(Ok(())));
            action is Reply ==> !(next.step(WorkerEvent::Command(command)).1 is Connect)
        }),
{
}

/// What a request to the worker comes to. There is no answer where the command could not
/// be handed over, and where the worker ended without one.
pub fn request(answer: Option<Result<(), SinkError>>) -> (r: Result<(), SinkError>)
    ensures
        r == match answer {
            Some(result) => result,
            None => Err(SinkError::WorkerUnavailable),
        },
{
    match answer {
        Some(result) => result,
        None => Err(SinkError::WorkerUnavailable),
    }
}

/// What is known of the thread of the worker when it is to be stopped.
#[derive(Debug, Clone, Copy, PartialEq, Eq, Structural)]
pub enum WorkerThread {
    /// It has to be stopped and joined.
    Running,
    /// It was joined before.
    Joined,
    /// Someone broke down while looking it up.
    Unknown,
}

/// How the thread of the worker ended.
#[derive(Debug, PartialEq, Eq)]
pub enum WorkerEnd {
    /// It ended by itself.
    Finished,
    /// It broke down.
    Panicked,
    /// Nobody could wait for it, for this reason.
    Lost(String),
}

/// Begins a shutdown. There is a result at once where no thread is left to stop: a second
/// shutdown does nothing and succeeds.
pub fn begin_shutdown(thread: WorkerThread) -> (r: Option<Result<(), SinkError>>)
    ensures
        match thread {
            WorkerThread::Running => r is None,
            WorkerThread::Joined => r == Some(Ok::<(), SinkError>(())),
            WorkerThread::Unknown => r matches Some(Err(SinkError::WorkerFailed(detail)))
                && detail@ == "worker join lock was poisoned"@,
        },
{
    match thread {
        WorkerThread::Running => None,
        WorkerThread::Joined => Some(Ok(())),
        WorkerThread::Unknown => Some(
            Err(SinkError::WorkerFailed("worker join lock was poisoned".to_owned())),
        ),
    }
}

/// Ends a shutdown, given what the request to stop came to and how the thread ended. A
/// worker that had already gone is no failure, but one that broke down is.
pub fn finish_shutdown(answer: Result<(), SinkError>, end: WorkerEnd) -> (r: Result<(), SinkError>)
    ensures
        match end {
            WorkerEnd::Lost(reason) => r == Err::<(), SinkError>(SinkError::WorkerFailed(reason)),
            WorkerEnd::Panicked => r matches Err(SinkError::WorkerFailed(detail)) && detail@
                == "database worker panicked"@,
            WorkerEnd::Finished => if answer matches Err(SinkError::WorkerUnavailable) {
                r is Ok
            } else {
                r == answer
            },
        },
{
    match end {
        WorkerEnd::Lost(reason) => Err(SinkError::WorkerFailed(reason)),
        WorkerEnd::Panicked => Err(SinkError::WorkerFailed("database worker panicked".to_owned())),
        WorkerEnd::Finished => match answer {
            Err(SinkError::WorkerUnavailable) => Ok(()),
            other => other,
        },
    }
}

/// An initialization opens a connection only where there is none. It is answered with what
/// became of that, and leaves the worker with a connection exactly if it succeeds.
pub proof fn law_initializations_are_answered_with_their_outcome(
    connected: bool,
    connection: Result<(), SinkError>,
)
    ensures
        ({
            let (s1, a1) = (WorkerState::Idle { connected }).step(
                WorkerEvent::Command(Command::Initialize),
            );
            let (s2, a2) = s1.step(WorkerEvent::Outcome(connection));
            if connected {
                &&& s1 == (WorkerState::Idle { connected: true })
                &&& a1 == (WorkerAction::Reply { drop_connection: false, result: Ok(()) })
            } else {
                &&& a1 is Connect
                &&& s2 == (WorkerState::Idle { connected: connection is Ok })
                &&& a2 matches WorkerAction::Reply { drop_connection, result } && !drop_connection
                    && (result is Ok <==> connection is Ok) && (connection is Err ==> result
                    == connection)
            }
        }),
{
}

/// A shutdown stops the worker at once. It always succeeds, and drops the connection exactly
/// if there is one.
pub proof fn law_shutdowns_stop_the_worker(connected: bool)
    ensures
        (WorkerState::Idle { connected }).step(WorkerEvent::Command(Command::Shutdown)) == (
            WorkerState::Stopped,
            WorkerAction::Reply { drop_connection: connected, result: Ok(()) },
        ),
{
}

/// Where a write leaves the worker: with a connection if the insert succeeded, and without
/// one if it failed or there was nothing to insert through.
pub proof fn law_writes_keep_a_connection_that_works(
    connection: Result<(), SinkError>,
    insert: Result<(), SinkError>,
)
    ensures
        WorkerState::Inserting.step(WorkerEvent::Outcome(insert)).0 == (WorkerState::Idle {
            connected: insert is Ok,
        }),
        connection is Err ==> (WorkerState::Connecting { write: true }).step(
            WorkerEvent::Outcome(connection),
        ).0 == (WorkerState::Idle { connected: false }),
        connection is Ok ==> (WorkerState::Connecting { write: true }).step(
            WorkerEvent::Outcome(connection),
        ) == (WorkerState::Inserting, WorkerAction::Insert),
        (WorkerState::Idle { connected: true }).step(WorkerEvent::Command(Command::Write)) == (
            WorkerState::Inserting,
            WorkerAction::Insert,
        ),
{
}

/// Progress is told by what is to be done and by the worker that goes on; a reply without a
/// worker is that of one that has stopped.
pub proof fn law_progress_is_told_by_what_is_to_be_done(
    connecting: Connecting,
    inserting: Inserting,
    worker: DatabaseWorker,
    drop_connection: bool,
    result: Result<(), SinkError>,
)
    ensures
        Progress::Connect(connecting)@ == (connecting.state(), WorkerAction::Connect),
        Progress::Insert(inserting)@ == (inserting.state(), WorkerAction::Insert),
        (Progress::Reply { worker: Some(worker), drop_connection, result })@ == (
            worker.state(),
            WorkerAction::Reply { drop_connection, result },
        ),
        (Progress::Reply { worker: None, drop_connection, result })@ == (
            WorkerState::Stopped,
            WorkerAction::Reply { drop_connection, result },
        ),
        worker.state() is Idle,
        connecting.state() is Connecting,
        inserting.state() is Inserting,
{
}

/// A request is answered with what the worker said, and where it said nothing the worker is
/// not there. A shutdown of a worker that was stopped before, or that has gone by itself,
/// succeeds; one that broke down or was lost is a failure whatever it had answered.
pub proof fn law_answers_are_passed_on(
    answer: Option<Result<(), SinkError>>,
    requested: Result<(), SinkError>,
    thread: WorkerThread,
    begun: Option<Result<(), SinkError>>,
    end: WorkerEnd,
    finished: Result<(), SinkError>,
)
    requires
        call_ensures(request, (answer,), requested),
        call_ensures(begin_shutdown, (thread,), begun),
        call_ensures(finish_shutdown, (requested, end), finished),
    ensures
        answer matches Some(result) ==> requested == result,
        answer is None ==> (requested matches Err(error) && error is WorkerUnavailable),
        begun is None <==> thread is Running,
        thread is Joined ==> (begun matches Some(result) && result is Ok),
        thread is Unknown ==> (begun matches Some(Err(error)) && error is WorkerFailed),
        end is Finished && answer is None ==> finished is Ok,
        end is Finished && (answer matches Some(result) && !(result matches Err(error)
            && error is WorkerUnavailable)) ==> finished == answer->0,
        !(end is Finished) ==> (finished matches Err(error) && error is WorkerFailed),
        end matches WorkerEnd::Lost(reason) ==> (finished matches Err(SinkError::WorkerFailed(
            detail,
        )) && detail@ == reason@),
{
}

/// A worker starts without a connection.
pub proof fn law_workers_start_unconnected(worker: DatabaseWorker)
    requires
        call_ensures(DatabaseWorker::start, (), worker),
    ensures
        worker.state().held() == 0,
        worker.state() is Idle,
{
}

} // verus!
