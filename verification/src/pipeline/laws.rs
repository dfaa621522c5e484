//! What holds of every run of a pipeline, whatever the source, the sink and the clock do.
use crate::error::{PipelineError, SinkError, SourceError};
use crate::pipeline::retry::{backoff, law_backoff_is_bounded_and_never_shrinks};
use crate::pipeline::{ActionView, Event, Phase, PipelineState, Task, MAX_CLOCK};
use vstd::prelude::*;

verus! {

/// The state that a run starts in.
pub open spec fn is_fresh<T>(s: PipelineState<T>) -> bool {
    &&& s.valid()
    &&& s.phase == Phase::Calling(Task::Initialize, 0)
    &&& s.batch.len() == 0
    &&& s.shutdown_deadline is None
    &&& s.parse_errors == 0
}

/// The events of a run with the times at which they come: fewer than there are numbers
/// to count them with, and none after the end of the clock.
pub open spec fn is_history<T>(history: Seq<(Event<T>, u128)>) -> bool {
    &&& history.len() < u64::MAX
    &&& forall|i: int| 0 <= i < history.len() ==> (#[trigger] history[i]).1 <= MAX_CLOCK
}

/// The state after a run of events.
pub open spec fn after<T>(s: PipelineState<T>, history: Seq<(Event<T>, u128)>) -> PipelineState<T>
    decreases history.len(),
{
    if history.len() == 0 {
        s
    } else {
        after(s, history.drop_last()).step(history.last().0, history.last().1).0
    }
}

/// What a run has done with the records.
#[verifier::ext_equal]
pub struct Ledger<T> {
    /// The records that the source yielded and the pipeline took, in order.
    pub accepted: Seq<T>,
    /// The records of the batches whose write succeeded, in order.
    pub confirmed: Seq<T>,
    /// The records that were handed to the sink and not confirmed.
    pub in_flight: Seq<T>,
    /// When the first record of the batch that is being gathered was taken.
    pub opened_at: u128,
    /// How often the sink was called for the current task.
    pub calls: nat,
}

/// Whether the task writes a batch.
pub open spec fn is_write(task: Task) -> bool {
    task is FlushThenListen || task is FlushThenClose || task is FlushThenFail
}

/// The ledger after one more event.
pub open spec fn entered<T>(
    ledger: Ledger<T>,
    s: PipelineState<T>,
    event: Event<T>,
    now: u128,
) -> Ledger<T> {
    let action = s.step(event, now).1;
    let taken = match (s.phase, event) {
        (Phase::Listening, Event::Item(Some(Ok(record)))) => seq![record],
        _ => Seq::empty(),
    };
    let confirms = match (s.phase, event) {
        (Phase::Calling(task, _), Event::SinkReturned(Ok(_))) => is_write(task),
        _ => false,
    };
    Ledger {
        accepted: ledger.accepted + taken,
        confirmed: if confirms {
            ledger.confirmed + ledger.in_flight
        } else {
            ledger.confirmed
        },
        in_flight: match action {
            ActionView::Write(records) => records,
            _ => if confirms {
                Seq::empty()
            } else {
                ledger.in_flight
            },
        },
        opened_at: if taken.len() > 0 && s.batch.len() == 0 {
            now
        } else {
            ledger.opened_at
        },
        calls: match action {
            ActionView::Write(_) => 1,
            ActionView::Close => 1,
            ActionView::WriteAgain => ledger.calls + 1,
            ActionView::Initialize => ledger.calls + 1,
            _ => ledger.calls,
        },
    }
}

/// The ledger of a run. The run begins with the first call to initialize the sink.
pub open spec fn ledger<T>(s: PipelineState<T>, history: Seq<(Event<T>, u128)>) -> Ledger<T>
    decreases history.len(),
{
    if history.len() == 0 {
        Ledger {
            accepted: Seq::empty(),
            confirmed: Seq::empty(),
            in_flight: Seq::empty(),
            opened_at: 0,
            calls: 1,
        }
    } else {
        let earlier = history.drop_last();
        entered(ledger(s, earlier), after(s, earlier), history.last().0, history.last().1)
    }
}

/// What the state and the ledger of a run have to do with each other.
spec fn is_balanced<T>(s: PipelineState<T>, l: Ledger<T>) -> bool {
    &&& l.accepted == l.confirmed + l.in_flight + s.batch
    &&& match s.phase {
        Phase::Listening => {
            &&& l.in_flight.len() == 0
            &&& s.batch.len() > 0 ==> s.deadline == Some((l.opened_at + s.max_latency) as u128)
        },
        Phase::Calling(task, attempt) => {
            &&& !is_write(task) ==> l.in_flight.len() == 0
            &&& l.calls == attempt + 1
        },
        Phase::Backoff(task, attempt) => {
            &&& !is_write(task) ==> l.in_flight.len() == 0
            &&& l.calls == attempt
        },
        Phase::Cleaning(_) => true,
        Phase::Finished(outcome) => outcome is Ok ==> l.in_flight.len() == 0,
    }
}

proof fn lemma_steps_keep_the_balance<T>(
    s: PipelineState<T>,
    l: Ledger<T>,
    event: Event<T>,
    now: u128,
)
    requires
        s.valid(),
        is_balanced(s, l),
    ensures
        is_balanced(s.step(event, now).0, entered(l, s, event, now)),
{
    let next = s.step(event, now).0;
    let m = entered(l, s, event, now);
    assert(m.accepted =~= m.confirmed + m.in_flight + next.batch);
}

proof fn lemma_runs<T>(s: PipelineState<T>, history: Seq<(Event<T>, u128)>)
    requires
        is_fresh(s),
        is_history(history),
    ensures
        after(s, history).valid(),
        after(s, history).parse_errors <= history.len(),
        after(s, history).batch_size == s.batch_size,
        after(s, history).max_latency == s.max_latency,
        after(s, history).config == s.config,
        is_balanced(after(s, history), ledger(s, history)),
    decreases history.len(),
{
    if history.len() > 0 {
        let earlier = history.drop_last();
        assert forall|i: int| 0 <= i < earlier.len() implies (#[trigger] earlier[i]).1
            <= MAX_CLOCK by {
            assert(earlier[i] == history[i]);
        }
        lemma_runs(s, earlier);
        let (event, now) = history.last();
        crate::pipeline::law_steps_keep_the_state_valid(after(s, earlier), event, now);
        lemma_steps_keep_the_balance(after(s, earlier), ledger(s, earlier), event, now);
    }
}

/// No record is lost, made up or moved out of order: at any time the records taken from
/// the source are those confirmed by the sink, followed by those that the sink has been
/// handed, followed by those that are still being gathered.
pub proof fn law_records_are_neither_lost_nor_reordered<T>(
    s: PipelineState<T>,
    history: Seq<(Event<T>, u128)>,
)
    requires
        is_fresh(s),
        is_history(history),
    ensures
        ({
            let l = ledger(s, history);
            l.accepted == l.confirmed + l.in_flight + after(s, history).batch
        }),
{
    lemma_runs(s, history);
}

/// A pipeline that ends well has had every record that it took confirmed by the sink.
pub proof fn law_success_means_that_everything_was_written<T>(
    s: PipelineState<T>,
    history: Seq<(Event<T>, u128)>,
)
    requires
        is_fresh(s),
        is_history(history),
        after(s, history).phase == Phase::Finished(Ok(())),
    ensures
        ledger(s, history).confirmed == ledger(s, history).accepted,
{
    lemma_runs(s, history);
    let l = ledger(s, history);
    assert(l.confirmed =~= l.accepted);
}

/// A batch is due once its first record has waited for the maximum latency.
pub proof fn law_deadline_counts_from_the_first_record<T>(
    s: PipelineState<T>,
    history: Seq<(Event<T>, u128)>,
)
    requires
        is_fresh(s),
        is_history(history),
        after(s, history).phase is Listening,
        after(s, history).batch.len() > 0,
    ensures
        after(s, history).deadline == Some(
            (ledger(s, history).opened_at + s.max_latency) as u128,
        ),
{
    lemma_runs(s, history);
}

/// No task takes more calls of the sink than the configured retries and the first attempt.
pub proof fn law_retries_are_bounded<T>(s: PipelineState<T>, history: Seq<(Event<T>, u128)>)
    requires
        is_fresh(s),
        is_history(history),
        after(s, history).phase is Calling || after(s, history).phase is Backoff,
    ensures
        ledger(s, history).calls <= s.config.max_write_retries + 1,
{
    lemma_runs(s, history);
}

/// A batch that is handed to the sink is everything that was gathered: at least one
/// record, and at most as many as make a full batch.
pub proof fn law_batches_are_neither_empty_nor_too_large<T>(
    s: PipelineState<T>,
    event: Event<T>,
    now: u128,
)
    requires
        s.valid(),
        s.step(event, now).1 is Write,
    ensures
        0 < s.step(event, now).1->Write_0.len() <= s.batch_size,
        s.batch.is_prefix_of(s.step(event, now).1->Write_0),
        s.step(event, now).0.batch.len() == 0,
{
}

/// A partial batch is written when it is due, and not before; a full one is written at once.
pub proof fn law_batches_are_written_when_full_or_due<T>(s: PipelineState<T>, record: T, now: u128)
    requires
        s.valid(),
        s.phase is Listening,
    ensures
        s.batch.len() > 0 && now >= s.deadline->0 ==> s.step(Event::BatchDue, now).1
            == ActionView::Write(s.batch),
        s.batch.len() > 0 && now < s.deadline->0 ==> s.step(Event::BatchDue, now).0 == s,
        s.batch.len() + 1 == s.batch_size ==> s.step(Event::Item(Some(Ok(record))), now).1
            == ActionView::Write(s.batch.push(record)),
        s.batch.len() + 1 < s.batch_size ==> s.step(Event::Item(Some(Ok(record))), now).0.batch
            == s.batch.push(record),
{
}

/// A line that is no telemetry is counted and skipped. The batch, its deadline and what
/// the pipeline is doing stay as they are.
pub proof fn law_malformed_lines_are_skipped<T>(s: PipelineState<T>, message: String, now: u128)
    requires
        s.phase is Listening,
    ensures
        s.step(Event::Item(Some(Err(SourceError::ParseError(message)))), now).0 == (PipelineState {
            parse_errors: s.parse_errors + 1,
            ..s
        }),
{
}

/// An error that is not safe to retry, such as an unknown transaction outcome, ends the
/// pipeline at once: the sink is not called again but to close it.
pub proof fn law_unsafe_errors_are_not_retried<T>(
    s: PipelineState<T>,
    task: Task,
    attempt: u32,
    error: SinkError,
    now: u128,
)
    requires
        s.phase == Phase::Calling(task, attempt),
        !error.spec_is_retryable(),
    ensures
        s.step(Event::SinkReturned(Err(error)), now).0.phase == Phase::Cleaning(
            match task {
                Task::FlushThenFail(source) => PipelineError::Source(source),
                _ => PipelineError::Sink(error),
            },
        ),
        s.step(Event::SinkReturned(Err(error)), now).1 is Cleanup,
{
}

/// A failure that is safe to retry is retried as long as retries are left: the pipeline
/// waits for the delay of that retry, which is bounded, and then makes the same call again.
pub proof fn law_safe_errors_are_retried<T>(
    s: PipelineState<T>,
    task: Task,
    attempt: u32,
    error: SinkError,
    now: u128,
    later: u128,
)
    requires
        s.phase == Phase::Calling(task, attempt),
        task !is Close,
        error.spec_is_retryable(),
        attempt < s.config.max_write_retries,
    ensures
        ({
            let (waiting, delay) = s.step(Event::SinkReturned(Err(error)), now);
            let (calling, call) = waiting.step(Event::DelayElapsed, later);
            &&& delay == ActionView::<T>::Sleep(backoff(s.config, attempt as nat + 1))
            &&& delay->Sleep_0 <= s.config.max_retry_delay_ms
            &&& calling == (PipelineState {
                phase: Phase::Calling(task, (attempt + 1) as u32),
                ..s
            })
            &&& call == if task is Initialize {
                ActionView::<T>::Initialize
            } else {
                ActionView::<T>::WriteAgain
            }
        }),
{
    law_backoff_is_bounded_and_never_shrinks(s.config, attempt as nat + 1, attempt as nat + 1);
}

/// The end of the input and a shutdown hand everything gathered to the sink, and close
/// the sink where there is nothing to hand over.
pub proof fn law_ending_flushes_the_batch<T>(s: PipelineState<T>, event: Event<T>, now: u128)
    requires
        s.phase is Listening,
        s.shutdown_deadline is None,
        event is ShutdownRequested || event == Event::<T>::Item(None) || event == Event::<T>::Item(
            Some(Err(SourceError::StreamShutdown)),
        ),
    ensures
        s.batch.len() > 0 ==> s.step(event, now).1 == ActionView::Write(s.batch),
        s.batch.len() > 0 ==> s.step(event, now).0.phase == Phase::Calling(Task::FlushThenClose, 0),
        s.batch.len() == 0 ==> s.step(event, now).1 is Close,
        s.batch.len() == 0 ==> s.step(event, now).0.phase == Phase::Calling(Task::Close, 0),
{
}

/// Whether the pipeline is on its way to fail with the error of its source.
pub open spec fn is_failing_with<T>(s: PipelineState<T>, error: SourceError) -> bool {
    match s.phase {
        Phase::Calling(Task::FlushThenFail(e), _) => e == error,
        Phase::Backoff(Task::FlushThenFail(e), _) => e == error,
        Phase::Cleaning(e) => e == PipelineError::Source(error),
        Phase::Finished(outcome) => outcome == Err::<(), PipelineError>(
            PipelineError::Source(error),
        ),
        _ => false,
    }
}

/// A failure of the source is fatal: what was gathered is still handed to the sink, and
/// the pipeline then ends with the error of the source, whatever else happens.
pub proof fn law_source_failures_are_fatal<T>(
    s: PipelineState<T>,
    detail: String,
    now: u128,
    later: Seq<(Event<T>, u128)>,
)
    requires
        s.phase is Listening,
    ensures
        ({
            let error = SourceError::IoError(detail);
            let (failed, action) = s.step(Event::Item(Some(Err(error))), now);
            &&& s.batch.len() > 0 ==> action == ActionView::Write(s.batch)
            &&& s.batch.len() == 0 ==> action is Cleanup
            &&& is_failing_with(after(failed, later), error)
        }),
    decreases later.len(),
{
    if later.len() > 0 {
        law_source_failures_are_fatal(s, detail, now, later.drop_last());
    }
}

/// Once a shutdown is requested its deadline never moves, and nothing more is read.
pub proof fn law_a_shutdown_has_one_deadline<T>(
    s: PipelineState<T>,
    deadline: u128,
    later: Seq<(Event<T>, u128)>,
)
    requires
        s.valid(),
        s.shutdown_deadline == Some(deadline),
    ensures
        after(s, later).shutdown_deadline == Some(deadline),
        after(s, later).phase !is Listening,
        after(s, later).batch.len() == 0,
    decreases later.len(),
{
    if later.len() > 0 {
        law_a_shutdown_has_one_deadline(s, deadline, later.drop_last());
    }
}

/// A shutdown may take as long as is configured, counted from the request.
pub proof fn law_shutdown_deadline_counts_from_the_request<T>(
    s: PipelineState<T>,
    now: u128,
)
    requires
        s.valid(),
        s.shutdown_deadline is None,
        s.phase is Listening || s.phase is Calling || s.phase is Backoff,
    ensures
        s.step(Event::ShutdownRequested, now).0.shutdown_deadline == Some(
            (now + s.shutdown_timeout()) as u128,
        ),
{
}

/// Pending work is given up for want of time only after the deadline of a shutdown.
pub proof fn law_timeouts_come_after_the_deadline<T>(
    s: PipelineState<T>,
    event: Event<T>,
    now: u128,
)
    requires
        s.phase != Phase::Cleaning(PipelineError::ShutdownTimeout),
        s.step(event, now).0.phase == Phase::Cleaning(PipelineError::ShutdownTimeout),
    ensures
        s.shutdown_deadline is Some,
        now >= s.shutdown_deadline->0,
{
}

/// A pipeline that fails closes its sink: it ends with an error only after it asked for
/// the cleanup, and with the error that it failed with.
pub proof fn law_failures_close_the_sink<T>(s: PipelineState<T>, event: Event<T>, now: u128)
    ensures
        s.phase !is Cleaning && s.step(event, now).0.phase is Cleaning ==> s.step(event, now).1
            == ActionView::<T>::Cleanup(s.shutdown_timeout()),
        forall|error: PipelineError|
            s.phase !is Finished && #[trigger] s.step(event, now).0.phase == Phase::Finished(
                Err(error),
            ) ==> s.phase == Phase::Cleaning(error),
{
}

/// A pipeline that ends well has closed its sink.
pub proof fn law_success_closes_the_sink<T>(s: PipelineState<T>, event: Event<T>, now: u128)
    requires
        s.phase !is Finished,
        s.step(event, now).0.phase == Phase::Finished(Ok(())),
    ensures
        s.phase matches Phase::Calling(task, _) && task is Close,
        event matches Event::SinkReturned(outcome) && outcome is Ok,
{
}

/// A pipeline that has ended stays as it is.
pub proof fn law_the_end_is_final<T>(s: PipelineState<T>, event: Event<T>, now: u128)
    requires
        s.phase is Finished,
    ensures
        s.step(event, now) == (s, ActionView::<T>::Wait),
{
}

} // verus!
