//! What each event does to a pipeline, stated on the state and the action themselves.
use crate::config::PipelineConfig;
use crate::error::{PipelineError, SinkError, SourceError};
use crate::pipeline::laws::{after, is_fresh, is_history};
use crate::pipeline::retry::backoff;
use crate::pipeline::{
    is_loud, Action, ActionView, Event, Phase, Pipeline, PipelineState, Task, MAX_CLOCK,
};
use vstd::prelude::*;

verus! {

/// Whether the event is a reason to stop reading: the input has ended or failed, or
/// somebody asked for a shutdown.
pub open spec fn is_reason_to_stop<T>(event: Event<T>) -> bool {
    match event {
        Event::Item(None) => true,
        Event::Item(Some(Err(SourceError::StreamShutdown))) => true,
        Event::Item(Some(Err(SourceError::IoError(_)))) => true,
        Event::ShutdownRequested => true,
        _ => false,
    }
}

/// Whether the pipeline reads, or will read again once the sink has done its task.
pub open spec fn is_reading<T>(s: PipelineState<T>) -> bool {
    match s.phase {
        Phase::Listening => true,
        Phase::Calling(Task::Initialize, _) => true,
        Phase::Calling(Task::FlushThenListen, _) => true,
        Phase::Backoff(Task::Initialize, _) => true,
        Phase::Backoff(Task::FlushThenListen, _) => true,
        _ => false,
    }
}

/// Reading ends only for a reason. Whatever else happens while the pipeline listens, it
/// listens still, or it writes a batch and listens again, with nothing gathered, as soon
/// as the write has succeeded.
pub proof fn law_reading_ends_only_for_a_reason<T>(
    s: PipelineState<T>,
    event: Event<T>,
    now: u128,
    later: u128,
)
    requires
        s.valid(),
        s.phase is Listening,
        !is_reason_to_stop(event),
    ensures
        ({
            let (next, action) = s.step(event, now);
            let (resumed, again) = next.step(Event::SinkReturned(Ok(())), later);
            &&& next.shutdown_deadline is None
            &&& next.phase is Listening || (next.phase is Calling && action is Write
                && resumed.phase is Listening && resumed.batch.len() == 0 && again
                == ActionView::<T>::Listen(None))
        }),
{
}

/// A batch that is due is written whole, and the pipeline then reads on.
pub proof fn law_due_batches_are_written_and_reading_goes_on<T>(
    s: PipelineState<T>,
    now: u128,
    later: u128,
)
    requires
        s.valid(),
        s.phase is Listening,
        s.batch.len() > 0,
        now >= s.deadline->0,
    ensures
        ({
            let (next, action) = s.step(Event::BatchDue, now);
            &&& action == ActionView::Write(s.batch)
            &&& next.step(Event::SinkReturned(Ok(())), later) == (
                PipelineState { batch: Seq::empty(), deadline: None, ..s },
                ActionView::<T>::Listen(None),
            )
        }),
{
}

/// Over a whole run: as long as there was no reason to stop, the pipeline reads or is
/// about to read again, unless the sink has failed it. In particular it never ends well.
pub proof fn law_runs_go_on_without_a_reason_to_stop<T>(
    s: PipelineState<T>,
    history: Seq<(Event<T>, u128)>,
)
    requires
        is_fresh(s),
        is_history(history),
        forall|i: int| 0 <= i < history.len() ==> !is_reason_to_stop(#[trigger] history[i].0),
    ensures
        is_reading(after(s, history)) || after(s, history).phase matches Phase::Cleaning(
            PipelineError::Sink(_),
        ) || after(s, history).phase matches Phase::Finished(Err(PipelineError::Sink(_))),
        after(s, history).shutdown_deadline is None,
        after(s, history).valid(),
        after(s, history).parse_errors <= history.len(),
    decreases history.len(),
{
    if history.len() > 0 {
        let earlier = history.drop_last();
        assert forall|i: int| 0 <= i < earlier.len() implies !is_reason_to_stop(
            #[trigger] earlier[i].0,
        ) && earlier[i].1 <= MAX_CLOCK by {
            assert(earlier[i] == history[i]);
        }
        law_runs_go_on_without_a_reason_to_stop(s, earlier);
        let last = history[history.len() - 1];
        assert(!is_reason_to_stop(last.0));
        crate::pipeline::law_steps_keep_the_state_valid(after(s, earlier), last.0, last.1);
    }
}

/// A success after retries is like a success at once: however often the sink was asked,
/// the pipeline goes on reading, with nothing gathered and nothing else changed.
pub proof fn law_success_goes_on_reading<T>(
    s: PipelineState<T>,
    task: Task,
    attempt: u32,
    now: u128,
)
    requires
        s.valid(),
        s.phase == Phase::Calling(task, attempt),
        task is Initialize || task is FlushThenListen,
        s.shutdown_deadline is None,
    ensures
        s.step(Event::SinkReturned(Ok(())), now) == (
            PipelineState { phase: Phase::Listening, ..s },
            ActionView::<T>::Listen(None),
        ),
        s.step(Event::SinkReturned(Ok(())), now).0.batch.len() == 0,
{
}

/// Where a shutdown was requested meanwhile, the sink is closed instead of reading on. So
/// it is after the last batch.
pub proof fn law_success_closes_after_a_request_and_after_the_last_batch<T>(
    s: PipelineState<T>,
    task: Task,
    attempt: u32,
    now: u128,
)
    requires
        s.valid(),
        s.phase == Phase::Calling(task, attempt),
        (task is Initialize || task is FlushThenListen) && s.shutdown_deadline is Some
            || task is FlushThenClose,
    ensures
        s.step(Event::SinkReturned(Ok(())), now) == (
            PipelineState { phase: Phase::Calling(Task::Close, 0), ..s },
            ActionView::<T>::Close,
        ),
{
}

/// Once the sink is closed the pipeline has ended well.
pub proof fn law_closing_ends_well<T>(s: PipelineState<T>, attempt: u32, now: u128)
    requires
        s.phase == Phase::Calling(Task::Close, attempt),
    ensures
        s.step(Event::SinkReturned(Ok(())), now) == (
            PipelineState { phase: Phase::Finished(Ok(())), ..s },
            ActionView::<T>::Exit,
        ),
{
}

/// What the source failed with is what the pipeline fails with, once what was gathered
/// before is written or given up.
pub proof fn law_source_failures_outlive_the_flush<T>(
    s: PipelineState<T>,
    error: SourceError,
    attempt: u32,
    outcome: Result<(), SinkError>,
    now: u128,
)
    requires
        s.phase == Phase::Calling(Task::FlushThenFail(error), attempt),
        outcome matches Err(e) ==> !e.spec_is_retryable() || attempt
            >= s.config.max_write_retries,
    ensures
        s.step(Event::SinkReturned(outcome), now) == (
            PipelineState { phase: Phase::Cleaning(PipelineError::Source(error)), ..s },
            ActionView::<T>::Cleanup(s.config.shutdown_timeout_seconds as nat * 1_000_000_000),
        ),
{
}

/// A failure that cannot be retried, because of what it is, because the retries are used
/// up or because the sink was being closed, is what the pipeline fails with, and nothing
/// else changes.
pub proof fn law_hopeless_failures_are_reported<T>(
    s: PipelineState<T>,
    task: Task,
    attempt: u32,
    error: SinkError,
    now: u128,
)
    requires
        s.phase == Phase::Calling(task, attempt),
        task !is FlushThenFail,
        task is Close || !(error is IoError || error is DuckDBError) || attempt
            >= s.config.max_write_retries,
    ensures
        s.step(Event::SinkReturned(Err(error)), now) == (
            PipelineState { phase: Phase::Cleaning(PipelineError::Sink(error)), ..s },
            ActionView::<T>::Cleanup(s.config.shutdown_timeout_seconds as nat * 1_000_000_000),
        ),
{
}

/// An input or output failure and a failure of the database are retried while retries are
/// left, whatever the task but closing, and the wait changes nothing but the count.
pub proof fn law_transient_failures_wait_for_a_retry<T>(
    s: PipelineState<T>,
    task: Task,
    attempt: u32,
    error: SinkError,
    now: u128,
    later: u128,
)
    requires
        s.phase == Phase::Calling(task, attempt),
        task !is Close,
        error is IoError || error is DuckDBError,
        attempt < s.config.max_write_retries,
    ensures
        s.step(Event::SinkReturned(Err(error)), now).0 == (PipelineState {
            phase: Phase::Backoff(task, (attempt + 1) as u32),
            ..s
        }),
        s.step(Event::SinkReturned(Err(error)), now).1 == ActionView::<T>::Sleep(
            backoff(s.config, attempt as nat + 1),
        ),
        s.step(Event::SinkReturned(Err(error)), now).0.step(Event::DelayElapsed, later).0 == (
        PipelineState { phase: Phase::Calling(task, (attempt + 1) as u32), ..s }),
        task is Initialize ==> s.step(Event::SinkReturned(Err(error)), now).0.step(
            Event::DelayElapsed,
            later,
        ).1 == ActionView::<T>::Initialize,
        task !is Initialize ==> s.step(Event::SinkReturned(Err(error)), now).0.step(
            Event::DelayElapsed,
            later,
        ).1 == ActionView::<T>::WriteAgain,
{
}

/// A record joins the batch behind the others. The first of a batch fixes the deadline,
/// and later ones leave it. While the batch is not full the pipeline waits for more, until
/// the deadline.
pub proof fn law_records_join_the_batch<T>(s: PipelineState<T>, record: T, now: u128)
    requires
        s.valid(),
        s.phase is Listening,
        now <= MAX_CLOCK,
        s.batch.len() + 1 < s.batch_size,
    ensures
        ({
            let (next, action) = s.step(Event::Item(Some(Ok(record))), now);
            &&& next == (PipelineState {
                batch: s.batch.push(record),
                deadline: next.deadline,
                ..s
            })
            &&& s.batch.len() > 0 ==> next.deadline == s.deadline
            &&& s.batch.len() == 0 ==> (next.deadline matches Some(due) && due == now
                + s.max_latency)
            &&& action == ActionView::<T>::Listen(next.deadline)
        }),
{
}

/// The record that fills the batch has the batch written at once, and after the write
/// nothing of it is left.
pub proof fn law_full_batches_are_written_and_reading_goes_on<T>(
    s: PipelineState<T>,
    record: T,
    now: u128,
    later: u128,
)
    requires
        s.valid(),
        s.phase is Listening,
        now <= MAX_CLOCK,
        s.batch.len() + 1 == s.batch_size,
    ensures
        ({
            let (next, action) = s.step(Event::Item(Some(Ok(record))), now);
            &&& action == ActionView::Write(s.batch.push(record))
            &&& next.batch.len() == 0
            &&& next.step(Event::SinkReturned(Ok(())), later) == (
                PipelineState { batch: Seq::empty(), deadline: None, ..s },
                ActionView::<T>::Listen(None),
            )
        }),
{
}

/// A batch that is not due stays as it is.
pub proof fn law_batches_are_not_written_early<T>(s: PipelineState<T>, now: u128)
    requires
        s.phase is Listening,
        s.deadline is None || now < s.deadline->0,
    ensures
        s.step(Event::BatchDue, now) == (s, ActionView::<T>::Wait),
{
}

/// A line that is no telemetry is reported with its number and with what is wrong with it.
/// The first ten and then every hundredth are reported loudly.
pub proof fn law_malformed_lines_are_reported<T>(s: PipelineState<T>, message: String, now: u128)
    requires
        s.phase is Listening,
    ensures
        s.step(Event::Item(Some(Err(SourceError::ParseError(message)))), now) == (
            PipelineState { parse_errors: s.parse_errors + 1, ..s },
            ActionView::<T>::Report {
                number: s.parse_errors + 1,
                loud: s.parse_errors + 1 <= 10 || (s.parse_errors + 1) % 100 == 0,
                message: message@,
            },
        ),
{
}

/// The end of the input, in either form, leads where nothing but what was gathered is
/// still written and the sink is closed; a request for a shutdown leads there too, and it
/// fixes the deadline.
pub proof fn law_endings_leave_only_the_batch_and_the_close<T>(
    s: PipelineState<T>,
    event: Event<T>,
    now: u128,
    later: u128,
)
    requires
        s.valid(),
        s.phase is Listening,
        now <= MAX_CLOCK,
        event is ShutdownRequested || event == Event::<T>::Item(None) || event == Event::<T>::Item(
            Some(Err(SourceError::StreamShutdown)),
        ),
    ensures
        ({
            let (next, action) = s.step(event, now);
            let (closing, close) = next.step(Event::SinkReturned(Ok(())), later);
            let closed = PipelineState {
                batch: Seq::empty(),
                deadline: None,
                shutdown_deadline: next.shutdown_deadline,
                phase: Phase::Calling(Task::Close, 0),
                ..s
            };
            &&& event is ShutdownRequested ==> (next.shutdown_deadline matches Some(due) && due
                == now + s.config.shutdown_timeout_seconds * 1_000_000_000)
            &&& !(event is ShutdownRequested) ==> next.shutdown_deadline == s.shutdown_deadline
            &&& s.batch.len() == 0 ==> next == closed && action == ActionView::<T>::Close
            &&& s.batch.len() > 0 ==> action == ActionView::Write(s.batch) && closing == closed
                && close == ActionView::<T>::Close
        }),
{
}

/// A failure of the source has what was gathered written, and then the pipeline fails.
pub proof fn law_source_failures_leave_only_the_batch<T>(
    s: PipelineState<T>,
    detail: String,
    now: u128,
    later: u128,
)
    requires
        s.valid(),
        s.phase is Listening,
    ensures
        ({
            let error = SourceError::IoError(detail);
            let (next, action) = s.step(Event::Item(Some(Err(error))), now);
            let (failing, cleanup) = next.step(Event::SinkReturned(Ok(())), later);
            let failed = PipelineState {
                batch: Seq::empty(),
                deadline: None,
                phase: Phase::Cleaning(PipelineError::Source(error)),
                ..s
            };
            let timeout = s.config.shutdown_timeout_seconds as nat * 1_000_000_000;
            &&& s.batch.len() == 0 ==> next == failed && action == ActionView::<T>::Cleanup(timeout)
            &&& s.batch.len() > 0 ==> action == ActionView::Write(s.batch) && failing == failed
                && cleanup == ActionView::<T>::Cleanup(timeout)
        }),
{
}

/// A request for a shutdown lets the sink finish what it is doing, within the time that a
/// shutdown may take. A second request changes nothing, and neither does one that comes
/// when the pipeline is ending anyway.
pub proof fn law_requests_bound_the_work_at_hand<T>(s: PipelineState<T>, now: u128)
    requires
        s.valid(),
        now <= MAX_CLOCK,
        s.phase !is Listening,
    ensures
        ({
            let (next, action) = s.step(Event::ShutdownRequested, now);
            &&& action is Wait
            &&& next == (PipelineState { shutdown_deadline: next.shutdown_deadline, ..s })
            &&& if (s.phase is Calling || s.phase is Backoff) && s.shutdown_deadline is None {
                next.shutdown_deadline matches Some(due) && due == now
                    + s.config.shutdown_timeout_seconds * 1_000_000_000
            } else {
                next.shutdown_deadline == s.shutdown_deadline
            }
        }),
{
}

/// When the time for a shutdown is over, the work at hand is given up, whatever it is and
/// however often it was tried. The pipeline fails with that, unless its source had failed
/// before.
pub proof fn law_late_work_is_given_up<T>(s: PipelineState<T>, task: Task, attempt: u32, now: u128)
    requires
        s.phase == Phase::Calling(task, attempt) || s.phase == Phase::Backoff(task, attempt),
        s.shutdown_deadline matches Some(due) && now >= due,
    ensures
        s.step(Event::ShutdownExpired, now) == (
            PipelineState {
                phase: Phase::Cleaning(
                    match task {
                        Task::FlushThenFail(error) => PipelineError::Source(error),
                        _ => PipelineError::ShutdownTimeout,
                    },
                ),
                ..s
            },
            ActionView::<T>::Cleanup(s.config.shutdown_timeout_seconds as nat * 1_000_000_000),
        ),
{
}

/// Work is never given up before that time, and nothing is where there is none.
pub proof fn law_work_is_not_given_up_early<T>(s: PipelineState<T>, now: u128)
    requires
        s.shutdown_deadline is None || now < s.shutdown_deadline->0 || !(s.phase is Calling
            || s.phase is Backoff),
    ensures
        s.step(Event::ShutdownExpired, now) == (s, ActionView::<T>::Wait),
{
}

/// After the cleanup the pipeline ends with what it failed with.
pub proof fn law_cleanup_ends_with_the_failure<T>(
    s: PipelineState<T>,
    error: PipelineError,
    now: u128,
)
    requires
        s.phase == Phase::Cleaning(error),
    ensures
        s.step(Event::CleanupOver, now) == (
            PipelineState { phase: Phase::Finished(Err(error)), ..s },
            ActionView::<T>::Exit,
        ),
{
}

/// An event that the pipeline does not wait for changes nothing.
pub proof fn law_unawaited_events_change_nothing<T>(s: PipelineState<T>, event: Event<T>, now: u128)
    requires
        match event {
            Event::SinkReturned(_) => s.phase !is Calling,
            Event::DelayElapsed => s.phase !is Backoff,
            Event::Item(_) => s.phase !is Listening,
            Event::BatchDue => s.phase !is Listening,
            Event::CleanupOver => s.phase !is Cleaning,
            Event::ShutdownRequested => s.phase is Cleaning || s.phase is Finished,
            Event::ShutdownExpired => !(s.phase is Calling || s.phase is Backoff),
        },
    ensures
        s.step(event, now) == (s, ActionView::<T>::Wait),
{
}

/// No event changes the settings, and no count of skipped lines ever goes down.
pub proof fn law_settings_stay<T>(s: PipelineState<T>, event: Event<T>, now: u128)
    ensures
        s.step(event, now).0.batch_size == s.batch_size,
        s.step(event, now).0.max_latency == s.max_latency,
        s.step(event, now).0.config == s.config,
        s.parse_errors <= s.step(event, now).0.parse_errors <= s.parse_errors + 1,
{
}

/// Which skipped lines are reported loudly: the first ten, then each hundredth and none
/// between two of them.
pub proof fn law_reports_are_thinned_out(number: nat, hundreds: nat)
    ensures
        number <= 10 ==> is_loud(number),
        is_loud(100 * hundreds),
        number > 10 && 100 * hundreds < number < 100 * (hundreds + 1) ==> !is_loud(number),
{
}

/// What each action is told as: the same, with its records, texts and numbers.
pub proof fn law_actions_are_told_as_they_are<T>(
    records: Vec<T>,
    millis: u64,
    deadline: Option<u128>,
    number: u64,
    loud: bool,
    message: String,
    timeout: u128,
)
    ensures
        Action::<T>::Initialize@ == ActionView::<T>::Initialize,
        Action::<T>::Write(records)@ == ActionView::<T>::Write(records@),
        Action::<T>::WriteAgain@ == ActionView::<T>::WriteAgain,
        Action::<T>::Sleep(millis)@ == ActionView::<T>::Sleep(millis as nat),
        Action::<T>::Close@ == ActionView::<T>::Close,
        Action::<T>::Listen(deadline)@ == ActionView::<T>::Listen(deadline),
        (Action::<T>::Report { number, loud, message })@ == (ActionView::<T>::Report {
            number: number as nat,
            loud,
            message: message@,
        }),
        Action::<T>::Wait@ == ActionView::<T>::Wait,
        Action::<T>::Cleanup(timeout)@ == ActionView::<T>::Cleanup(timeout as nat),
        Action::<T>::Exit@ == ActionView::<T>::Exit,
{
}

/// A pipeline starts with the settings of its sink and with nothing gathered. Where these let
/// it gather and wait, it starts by initializing the sink; otherwise it fails, and says why.
pub proof fn law_pipelines_start_with_the_sink<T>(
    batch_size: usize,
    latency: u128,
    config: &PipelineConfig,
    started: (Pipeline<T>, Action<T>),
)
    requires
        call_ensures(Pipeline::<T>::new, (batch_size, latency, config), started),
    ensures
        started.0@.batch_size == batch_size,
        started.0@.max_latency == latency,
        started.0@.config == *config,
        started.0@.parse_errors == 0,
        batch_size > 0 && latency > 0 ==> is_fresh(started.0@) && started.1@ is Initialize,
        batch_size == 0 || latency == 0 ==> started.0@.phase is Cleaning && started.1@ is Cleanup
            && (started.0@.phase->Cleaning_0 matches PipelineError::Sink(SinkError::ConfigError(
            detail,
        )) && detail@ == "batch size and latency must be greater than zero"@),
{
}

/// What a pipeline is asked, it answers by its state, and it goes from state to state by its
/// events.
pub proof fn law_pipelines_go_by_their_state<T>(
    pipeline: Pipeline<T>,
    event: Event<T>,
    now: u128,
    stepped: (Pipeline<T>, Action<T>),
    outcome: Option<Result<(), PipelineError>>,
)
    requires
        call_ensures(Pipeline::<T>::step, (pipeline, event, now), stepped),
        call_ensures(Pipeline::<T>::outcome, (pipeline,), outcome),
    ensures
        stepped.0@ == pipeline@.step(event, now).0,
        stepped.1@ == pipeline@.step(event, now).1,
        outcome is Some <==> pipeline@.phase is Finished,
        outcome matches Some(result) ==> pipeline@.phase == Phase::Finished(result),
{
}

} // verus!
