//! The pipeline: what it does next, for every turn that events can take.
//!
//! The pipeline reads telemetry, gathers it into batches and hands the batches to a
//! sink. [`Pipeline`] decides; the program around it performs each [`Action`], waits
//! for what the pipeline is waiting for, and reports each [`Event`]. Times are
//! nanoseconds on a clock that starts with the pipeline.
pub mod laws;
pub mod retry;
pub mod turns;

use crate::config::PipelineConfig;
use crate::error::{PipelineError, SinkError, SourceError};
use crate::pipeline::retry::{backoff, retry_delay};
use vstd::prelude::*;

verus! {

/// Nanoseconds in a second.
pub const NANOS_PER_SECOND: u128 = 1_000_000_000;

/// The longest span of time that a limit can have, in nanoseconds.
pub const MAX_SPAN: u128 = 18_446_744_073_709_551_615_999_999_999;

/// The latest reading of the clock, in nanoseconds.
pub const MAX_CLOCK: u128 = 170_141_183_460_469_231_731_687_303_715_884_105_727;

/// Work that the sink is doing for the pipeline, and what follows it.
#[derive(Debug, PartialEq, Eq)]
pub enum Task {
    /// Initialize the sink, then read.
    Initialize,
    /// Write a batch, then go on reading.
    FlushThenListen,
    /// Write the last batch, then close the sink.
    FlushThenClose,
    /// Write what was read before the source failed, then fail with its error.
    FlushThenFail(SourceError),
    /// Close the sink, then end.
    Close,
}

/// What the pipeline is doing.
#[derive(Debug, PartialEq, Eq)]
pub enum Phase {
    /// The sink works on the task, after this many retries.
    Calling(Task, u32),
    /// The task failed and waits for this retry.
    Backoff(Task, u32),
    /// The pipeline waits for telemetry.
    Listening,
    /// The pipeline failed and the sink is closed before it ends.
    Cleaning(PipelineError),
    /// The pipeline has ended.
    Finished(Result<(), PipelineError>),
}

/// What happened.
#[derive(Debug, PartialEq, Eq)]
pub enum Event<T> {
    /// The sink finished the call that it was given.
    SinkReturned(Result<(), SinkError>),
    /// The delay before a retry is over.
    DelayElapsed,
    /// The source yielded an item, or nothing because it has ended.
    Item(Option<Result<T, SourceError>>),
    /// The oldest record of the batch has waited for the maximum latency.
    BatchDue,
    /// Somebody asked for a shutdown.
    ShutdownRequested,
    /// The time for a shutdown is over.
    ShutdownExpired,
    /// Closing the sink after a failure succeeded, failed or took too long.
    CleanupOver,
}

/// What to do next.
#[derive(Debug, PartialEq, Eq)]
pub enum Action<T> {
    /// Initialize the sink.
    Initialize,
    /// Write these records.
    Write(Vec<T>),
    /// Write the records of the last `Write` once more.
    WriteAgain,
    /// Wait for so many milliseconds.
    Sleep(u64),
    /// Close the sink.
    Close,
    /// Wait for the source, for a shutdown and, where one is set, for this deadline.
    Listen(Option<u128>),
    /// Log a line that was skipped: how many there are by now, whether it is an error
    /// or a detail for debugging, and what is wrong with it. Then go on listening.
    Report { number: u64, loud: bool, message: String },
    /// Start nothing, and go on waiting.
    Wait,
    /// Close the sink within so many nanoseconds.
    Cleanup(u128),
    /// End.
    Exit,
}

/// An action with its records as a sequence.
#[verifier::ext_equal]
pub enum ActionView<T> {
    Initialize,
    Write(Seq<T>),
    WriteAgain,
    Sleep(nat),
    Close,
    Listen(Option<u128>),
    Report { number: nat, loud: bool, message: Seq<char> },
    Wait,
    Cleanup(nat),
    Exit,
}

impl<T> View for Action<T> {
    type V = ActionView<T>;

    open spec fn view(&self) -> ActionView<T> {
        match *self {
            Action::Initialize => ActionView::Initialize,
            Action::Write(records) => ActionView::Write(records@),
            Action::WriteAgain => ActionView::WriteAgain,
            Action::Sleep(millis) => ActionView::Sleep(millis as nat),
            Action::Close => ActionView::Close,
            Action::Listen(deadline) => ActionView::Listen(deadline),
            Action::Report { number, loud, message } => ActionView::Report {
                number: number as nat,
                loud,
                message: message@,
            },
            Action::Wait => ActionView::Wait,
            Action::Cleanup(timeout) => ActionView::Cleanup(timeout as nat),
            Action::Exit => ActionView::Exit,
        }
    }
}

/// Whether a skipped line is logged as an error: the first ten are, and then every
/// hundredth, so that a stream of garbage does not flood the log.
pub open spec fn is_loud(number: nat) -> bool {
    number <= 10 || number % 100 == 0
}

/// The state of a pipeline.
#[verifier::ext_equal]
pub struct PipelineState<T> {
    /// How many records make a full batch.
    pub batch_size: nat,
    /// How long a record may wait in a batch.
    pub max_latency: nat,
    pub config: PipelineConfig,
    /// The records read and not yet handed to the sink.
    pub batch: Seq<T>,
    /// When the batch is due.
    pub deadline: Option<u128>,
    /// When a requested shutdown has to be over.
    pub shutdown_deadline: Option<u128>,
    /// How many lines were skipped.
    pub parse_errors: nat,
    pub phase: Phase,
}

impl<T> PipelineState<T> {
    /// How long a shutdown may take, in nanoseconds.
    pub open spec fn shutdown_timeout(self) -> nat {
        self.config.shutdown_timeout_seconds as nat * NANOS_PER_SECOND as nat
    }

    /// What holds of a pipeline at all times.
    pub open spec fn valid(self) -> bool {
        &&& self.batch_size <= usize::MAX
        &&& self.max_latency <= MAX_SPAN
        &&& self.parse_errors <= u64::MAX
        &&& self.deadline is Some <==> self.batch.len() > 0
        &&& match self.phase {
            Phase::Listening => {
                &&& self.shutdown_deadline is None
                &&& self.batch.len() < self.batch_size
                &&& self.max_latency > 0
            },
            Phase::Calling(task, attempt) => {
                &&& self.batch.len() == 0
                &&& self.batch_size > 0
                &&& self.max_latency > 0
                &&& attempt <= self.config.max_write_retries
                &&& task is Close ==> attempt == 0
            },
            Phase::Backoff(task, attempt) => {
                &&& self.batch.len() == 0
                &&& self.batch_size > 0
                &&& self.max_latency > 0
                &&& 1 <= attempt <= self.config.max_write_retries
                &&& task !is Close
            },
            Phase::Cleaning(_) => self.batch.len() == 0,
            Phase::Finished(_) => self.batch.len() == 0,
        }
    }

    /// Hand the batch to the sink.
    pub open spec fn writing(self, task: Task) -> (PipelineState<T>, ActionView<T>) {
        (
            PipelineState {
                batch: Seq::empty(),
                deadline: None,
                phase: Phase::Calling(task, 0),
                ..self
            },
            ActionView::Write(self.batch),
        )
    }

    /// Close the sink.
    pub open spec fn closing(self) -> (PipelineState<T>, ActionView<T>) {
        (PipelineState { phase: Phase::Calling(Task::Close, 0), ..self }, ActionView::Close)
    }

    /// Flush what is left, then close the sink.
    pub open spec fn finishing(self) -> (PipelineState<T>, ActionView<T>) {
        if self.batch.len() == 0 {
            self.closing()
        } else {
            self.writing(Task::FlushThenClose)
        }
    }

    /// Go on reading, unless a shutdown was requested meanwhile.
    pub open spec fn listening(self) -> (PipelineState<T>, ActionView<T>) {
        if self.shutdown_deadline is Some {
            self.finishing()
        } else {
            (
                PipelineState { phase: Phase::Listening, ..self },
                ActionView::Listen(self.deadline),
            )
        }
    }

    /// Fail, after the sink was closed.
    pub open spec fn failing(self, error: PipelineError) -> (PipelineState<T>, ActionView<T>) {
        (
            PipelineState { phase: Phase::Cleaning(error), ..self },
            ActionView::Cleanup(self.shutdown_timeout()),
        )
    }

    /// A record was read.
    pub open spec fn gathering(self, record: T, now: u128) -> (PipelineState<T>, ActionView<T>) {
        let gathered = PipelineState {
            batch: self.batch.push(record),
            deadline: if self.batch.len() == 0 {
                Some((now + self.max_latency) as u128)
            } else {
                self.deadline
            },
            ..self
        };
        if gathered.batch.len() >= self.batch_size {
            gathered.writing(Task::FlushThenListen)
        } else {
            (gathered, ActionView::Listen(gathered.deadline))
        }
    }

    /// The source yielded an item.
    pub open spec fn reading(self, item: Option<Result<T, SourceError>>, now: u128) -> (
        PipelineState<T>,
        ActionView<T>,
    ) {
        match item {
            Some(Ok(record)) => self.gathering(record, now),
            Some(Err(SourceError::ParseError(message))) => (
                PipelineState { parse_errors: self.parse_errors + 1, ..self },
                ActionView::Report {
                    number: self.parse_errors + 1,
                    loud: is_loud(self.parse_errors + 1),
                    message: message@,
                },
            ),
            Some(Err(SourceError::StreamShutdown)) => self.finishing(),
            None => self.finishing(),
            Some(Err(SourceError::IoError(detail))) => if self.batch.len() == 0 {
                self.failing(PipelineError::Source(SourceError::IoError(detail)))
            } else {
                self.writing(Task::FlushThenFail(SourceError::IoError(detail)))
            },
        }
    }

    /// The sink has done the task.
    pub open spec fn completing(self, task: Task) -> (PipelineState<T>, ActionView<T>) {
        match task {
            Task::Initialize => self.listening(),
            Task::FlushThenListen => self.listening(),
            Task::FlushThenClose => self.closing(),
            Task::FlushThenFail(error) => self.failing(PipelineError::Source(error)),
            Task::Close => (
                PipelineState { phase: Phase::Finished(Ok(())), ..self },
                ActionView::Exit,
            ),
        }
    }

    /// The task is given up for a reason. Where the source has failed, that is still
    /// the error that is reported.
    pub open spec fn abandoning(self, task: Task, reason: PipelineError) -> (
        PipelineState<T>,
        ActionView<T>,
    ) {
        match task {
            Task::FlushThenFail(error) => self.failing(PipelineError::Source(error)),
            _ => self.failing(reason),
        }
    }

    /// The sink could not do the task.
    pub open spec fn refusing(self, task: Task, attempt: u32, error: SinkError) -> (
        PipelineState<T>,
        ActionView<T>,
    ) {
        if task !is Close && error.spec_is_retryable() && attempt < self.config.max_write_retries {
            (
                PipelineState { phase: Phase::Backoff(task, (attempt + 1) as u32), ..self },
                ActionView::Sleep(backoff(self.config, (attempt + 1) as nat)),
            )
        } else {
            self.abandoning(task, PipelineError::Sink(error))
        }
    }

    /// The state after an event, and the action that it asks for. An event that the
    /// pipeline does not wait for changes nothing.
    pub open spec fn step(self, event: Event<T>, now: u128) -> (PipelineState<T>, ActionView<T>) {
        match (self.phase, event) {
            (Phase::Calling(task, _), Event::SinkReturned(Ok(_))) => self.completing(task),
            (Phase::Calling(task, attempt), Event::SinkReturned(Err(error))) => self.refusing(
                task,
                attempt,
                error,
            ),
            (Phase::Backoff(task, attempt), Event::DelayElapsed) => (
                PipelineState { phase: Phase::Calling(task, attempt), ..self },
                if task is Initialize {
                    ActionView::Initialize
                } else {
                    ActionView::WriteAgain
                },
            ),
            (Phase::Listening, Event::Item(item)) => self.reading(item, now),
            (Phase::Listening, Event::BatchDue) => if self.deadline is Some && now
                >= self.deadline->0 {
                self.writing(Task::FlushThenListen)
            } else {
                (self, ActionView::Wait)
            },
            (Phase::Cleaning(error), Event::CleanupOver) => (
                PipelineState { phase: Phase::Finished(Err(error)), ..self },
                ActionView::Exit,
            ),
            (_, Event::ShutdownRequested) => self.stopping(now),
            (_, Event::ShutdownExpired) => self.expiring(now),
            _ => (self, ActionView::Wait),
        }
    }

    /// A shutdown was requested. From now on one deadline bounds all that is left to do.
    pub open spec fn stopping(self, now: u128) -> (PipelineState<T>, ActionView<T>) {
        let stopped = PipelineState {
            shutdown_deadline: Some((now + self.shutdown_timeout()) as u128),
            ..self
        };
        if self.shutdown_deadline is Some {
            (self, ActionView::Wait)
        } else {
            match self.phase {
                Phase::Listening => stopped.finishing(),
                Phase::Calling(_, _) => (stopped, ActionView::Wait),
                Phase::Backoff(_, _) => (stopped, ActionView::Wait),
                _ => (self, ActionView::Wait),
            }
        }
    }

    /// The deadline of the shutdown has passed.
    pub open spec fn expiring(self, now: u128) -> (PipelineState<T>, ActionView<T>) {
        if self.shutdown_deadline is Some && now >= self.shutdown_deadline->0 {
            match self.phase {
                Phase::Calling(task, _) => self.abandoning(task, PipelineError::ShutdownTimeout),
                Phase::Backoff(task, _) => self.abandoning(task, PipelineError::ShutdownTimeout),
                _ => (self, ActionView::Wait),
            }
        } else {
            (self, ActionView::Wait)
        }
    }
}

/// The decisions of a pipeline.
#[derive(Debug)]
pub struct Pipeline<T> {
    batch_size: usize,
    max_latency: u128,
    config: PipelineConfig,
    batch: Vec<T>,
    deadline: Option<u128>,
    shutdown_deadline: Option<u128>,
    parse_errors: u64,
    phase: Phase,
}

impl<T> View for Pipeline<T> {
    type V = PipelineState<T>;

    closed spec fn view(&self) -> PipelineState<T> {
        PipelineState {
            batch_size: self.batch_size as nat,
            max_latency: self.max_latency as nat,
            config: self.config,
            batch: self.batch@,
            deadline: self.deadline,
            shutdown_deadline: self.shutdown_deadline,
            parse_errors: self.parse_errors as nat,
            phase: self.phase,
        }
    }
}

impl<T> Pipeline<T> {
    /// A pipeline before its first step, with its first action. The sink fixes how many
    /// records make a batch and how many nanoseconds a record may wait in one; neither
    /// can be zero.
    pub fn new(batch_size: usize, max_latency: u128, config: &PipelineConfig) -> (r: (
        Pipeline<T>,
        Action<T>,
    ))
        requires
            max_latency <= MAX_SPAN,
        ensures
            r.0@.valid(),
            r.0@.batch_size == batch_size,
            r.0@.max_latency == max_latency,
            r.0@.config == *config,
            r.0@.batch == Seq::<T>::empty(),
            r.0@.deadline is None,
            r.0@.shutdown_deadline is None,
            r.0@.parse_errors == 0,
            batch_size > 0 && max_latency > 0 ==> {
                &&& r.0@.phase == Phase::Calling(Task::Initialize, 0)
                &&& r.1@ == ActionView::<T>::Initialize
            },
            batch_size == 0 || max_latency == 0 ==> {
                &&& r.0@.phase matches Phase::Cleaning(
                    PipelineError::Sink(SinkError::ConfigError(detail)),
                )
                &&& detail@ == "batch size and latency must be greater than zero"@
                &&& r.1@ == ActionView::<T>::Cleanup(r.0@.shutdown_timeout())
            },
    {
        let phase = if batch_size == 0 || max_latency == 0 {
            Phase::Cleaning(
                PipelineError::Sink(
                    SinkError::ConfigError(
                        "batch size and latency must be greater than zero".to_owned(),
                    ),
                ),
            )
        } else {
            Phase::Calling(Task::Initialize, 0)
        };
        let pipeline = Pipeline {
            batch_size,
            max_latency,
            config: *config,
            batch: Vec::new(),
            deadline: None,
            shutdown_deadline: None,
            parse_errors: 0,
            phase,
        };
        let action = if batch_size == 0 || max_latency == 0 {
            Action::Cleanup(pipeline.shutdown_timeout())
        } else {
            Action::Initialize
        };
        (pipeline, action)
    }

    fn shutdown_timeout(&self) -> (r: u128)
        ensures
            r == self@.shutdown_timeout(),
            r <= MAX_SPAN,
    {
        self.config.shutdown_timeout_seconds as u128 * NANOS_PER_SECOND
    }

    fn write(self, task: Task) -> (r: (Pipeline<T>, Action<T>))
        ensures
            (r.0@, r.1@) == self@.writing(task),
    {
        let mut next = self.enter(Phase::Calling(task, 0));
        let mut records: Vec<T> = Vec::new();
        std::mem::swap(&mut records, &mut next.batch);
        next.deadline = None;
        (next, Action::Write(records))
    }

    fn enter(self, phase: Phase) -> (r: Pipeline<T>)
        ensures
            r@ == (PipelineState { phase, ..self@ }),
    {
        let mut next = self;
        next.phase = phase;
        next
    }

    fn close(self) -> (r: (Pipeline<T>, Action<T>))
        ensures
            (r.0@, r.1@) == self@.closing(),
    {
        (self.enter(Phase::Calling(Task::Close, 0)), Action::Close)
    }

    /// Flushes the remaining batch and closes the sink.
    fn finish(self) -> (r: (Pipeline<T>, Action<T>))
        ensures
            (r.0@, r.1@) == self@.finishing(),
    {
        if self.batch.len() == 0 {
            self.close()
        } else {
            self.write(Task::FlushThenClose)
        }
    }

    fn listen(self) -> (r: (Pipeline<T>, Action<T>))
        ensures
            (r.0@, r.1@) == self@.listening(),
    {
        if self.shutdown_deadline.is_some() {
            self.finish()
        } else {
            let deadline = self.deadline;
            (self.enter(Phase::Listening), Action::Listen(deadline))
        }
    }

    fn fail(self, error: PipelineError) -> (r: (Pipeline<T>, Action<T>))
        ensures
            (r.0@, r.1@) == self@.failing(error),
    {
        let timeout: u128 = self.shutdown_timeout();
        (self.enter(Phase::Cleaning(error)), Action::Cleanup(timeout))
    }

    fn gather(self, record: T, now: u128) -> (r: (Pipeline<T>, Action<T>))
        requires
            self@.valid(),
            now <= MAX_CLOCK,
        ensures
            (r.0@, r.1@) == self@.gathering(record, now),
    {
        let mut next = self;
        if next.batch.len() == 0 {
            next.deadline = Some(now + next.max_latency);
        }
        next.batch.push(record);
        if next.batch.len() >= next.batch_size {
            next.write(Task::FlushThenListen)
        } else {
            let deadline = next.deadline;
            (next, Action::Listen(deadline))
        }
    }

    fn read(self, item: Option<Result<T, SourceError>>, now: u128) -> (r: (
        Pipeline<T>,
        Action<T>,
    ))
        requires
            self@.valid(),
            self@.parse_errors < u64::MAX,
            now <= MAX_CLOCK,
        ensures
            (r.0@, r.1@) == self@.reading(item, now),
    {
        let mut next = self;
        match item {
            Some(Ok(record)) => next.gather(record, now),
            Some(Err(SourceError::ParseError(message))) => {
                let number: u64 = next.parse_errors + 1;
                next.parse_errors = number;
                let loud = number <= 10 || number % 100 == 0;
                (next, Action::Report { number, loud, message })
            },
            Some(Err(SourceError::StreamShutdown)) => next.finish(),
            None => next.finish(),
            Some(Err(SourceError::IoError(detail))) => {
                let error = SourceError::IoError(detail);
                if next.batch.len() == 0 {
                    next.fail(PipelineError::Source(error))
                } else {
                    next.write(Task::FlushThenFail(error))
                }
            },
        }
    }

    fn complete(self, task: Task) -> (r: (Pipeline<T>, Action<T>))
        ensures
            (r.0@, r.1@) == self@.completing(task),
    {
        match task {
            Task::Initialize => self.listen(),
            Task::FlushThenListen => self.listen(),
            Task::FlushThenClose => self.close(),
            Task::FlushThenFail(error) => self.fail(PipelineError::Source(error)),
            Task::Close => (self.enter(Phase::Finished(Ok(()))), Action::Exit),
        }
    }

    fn abandon(self, task: Task, reason: PipelineError) -> (r: (Pipeline<T>, Action<T>))
        ensures
            (r.0@, r.1@) == self@.abandoning(task, reason),
    {
        match task {
            Task::FlushThenFail(error) => self.fail(PipelineError::Source(error)),
            _ => self.fail(reason),
        }
    }

    fn refuse(self, task: Task, attempt: u32, error: SinkError) -> (r: (Pipeline<T>, Action<T>))
        ensures
            (r.0@, r.1@) == self@.refusing(task, attempt, error),
    {
        let closing = match task {
            Task::Close => true,
            _ => false,
        };
        if !closing && error.is_retryable() && attempt < self.config.max_write_retries {
            let retry: u32 = attempt + 1;
            let millis: u64 = retry_delay(&self.config, retry);
            (self.enter(Phase::Backoff(task, retry)), Action::Sleep(millis))
        } else {
            self.abandon(task, PipelineError::Sink(error))
        }
    }

    fn retry(self, task: Task, attempt: u32) -> (r: (Pipeline<T>, Action<T>))
        ensures
            r.0@ == (PipelineState { phase: Phase::Calling(task, attempt), ..self@ }),
            r.1@ == if task is Initialize {
                ActionView::<T>::Initialize
            } else {
                ActionView::<T>::WriteAgain
            },
    {
        let action = match task {
            Task::Initialize => Action::Initialize,
            _ => Action::WriteAgain,
        };
        (self.enter(Phase::Calling(task, attempt)), action)
    }

    fn stop(self, now: u128) -> (r: (Pipeline<T>, Action<T>))
        requires
            now <= MAX_CLOCK,
        ensures
            (r.0@, r.1@) == self@.stopping(now),
    {
        let mut next = self;
        if next.shutdown_deadline.is_some() {
            return (next, Action::Wait);
        }
        let deadline: u128 = now + next.shutdown_timeout();
        match next.phase {
            Phase::Listening => {
                next.shutdown_deadline = Some(deadline);
                next.finish()
            },
            Phase::Calling(_, _) => {
                next.shutdown_deadline = Some(deadline);
                (next, Action::Wait)
            },
            Phase::Backoff(_, _) => {
                next.shutdown_deadline = Some(deadline);
                (next, Action::Wait)
            },
            _ => (next, Action::Wait),
        }
    }

    fn has_passed(deadline: Option<u128>, now: u128) -> (r: bool)
        ensures
            r == (deadline is Some && now >= deadline->0),
    {
        match deadline {
            Some(deadline) => now >= deadline,
            None => false,
        }
    }

    /// Takes an event and says what to do next.
    pub fn step(self, event: Event<T>, now: u128) -> (r: (Pipeline<T>, Action<T>))
        requires
            self@.valid(),
            self@.parse_errors < u64::MAX,
            now <= MAX_CLOCK,
        ensures
            (r.0@, r.1@) == self@.step(event, now),
            r.0@.valid(),
    {
        proof {
            law_steps_keep_the_state_valid(self@, event, now);
        }
        let Pipeline {
            batch_size,
            max_latency,
            config,
            batch,
            deadline,
            shutdown_deadline,
            parse_errors,
            phase,
        } = self;
        let rest = Pipeline {
            batch_size,
            max_latency,
            config,
            batch,
            deadline,
            shutdown_deadline,
            parse_errors,
            phase: Phase::Listening,
        };
        match (phase, event) {
            (Phase::Calling(task, _), Event::SinkReturned(Ok(_))) => rest.complete(task),
            (Phase::Calling(task, attempt), Event::SinkReturned(Err(error))) => rest.refuse(
                task,
                attempt,
                error,
            ),
            (Phase::Backoff(task, attempt), Event::DelayElapsed) => rest.retry(task, attempt),
            (Phase::Listening, Event::Item(item)) => rest.read(item, now),
            (Phase::Listening, Event::BatchDue) => if Self::has_passed(deadline, now) {
                rest.write(Task::FlushThenListen)
            } else {
                (rest, Action::Wait)
            },
            (Phase::Cleaning(error), Event::CleanupOver) => (
                rest.enter(Phase::Finished(Err(error))),
                Action::Exit,
            ),
            (phase, Event::ShutdownRequested) => rest.enter(phase).stop(now),
            (phase, Event::ShutdownExpired) => if Self::has_passed(shutdown_deadline, now) {
                match phase {
                    Phase::Calling(task, _) => rest.abandon(task, PipelineError::ShutdownTimeout),
                    Phase::Backoff(task, _) => rest.abandon(task, PipelineError::ShutdownTimeout),
                    phase => (rest.enter(phase), Action::Wait),
                }
            } else {
                (rest.enter(phase), Action::Wait)
            },
            (phase, _) => (rest.enter(phase), Action::Wait),
        }
    }

    /// What the pipeline is doing.
    pub fn phase(&self) -> (r: &Phase)
        ensures
            *r == self@.phase,
    {
        &self.phase
    }

    /// How the pipeline ended, once it has.
    pub fn outcome(self) -> (r: Option<Result<(), PipelineError>>)
        ensures
            r == match self@.phase {
                Phase::Finished(outcome) => Some(outcome),
                _ => None,
            },
    {
        match self.phase {
            Phase::Finished(outcome) => Some(outcome),
            _ => None,
        }
    }

    /// When the batch that is being gathered is due.
    pub fn deadline(&self) -> (r: Option<u128>)
        ensures
            r == self@.deadline,
    {
        self.deadline
    }

    /// When a requested shutdown has to be over.
    pub fn shutdown_deadline(&self) -> (r: Option<u128>)
        ensures
            r == self@.shutdown_deadline,
    {
        self.shutdown_deadline
    }

    /// How many lines were skipped.
    pub fn parse_errors(&self) -> (r: u64)
        ensures
            r == self@.parse_errors,
    {
        self.parse_errors
    }
}

/// Every step keeps the state of a pipeline valid.
pub proof fn law_steps_keep_the_state_valid<T>(s: PipelineState<T>, event: Event<T>, now: u128)
    requires
        s.valid(),
        s.parse_errors < u64::MAX,
        now <= MAX_CLOCK,
    ensures
        s.step(event, now).0.valid(),
{
}

} // verus!
