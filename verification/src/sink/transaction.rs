//! The transaction that writes a batch: all of its records or none of them.
use crate::dto::{are_bytes, hex_address, law_addresses_are_written_unambiguously, RuuviTelemetry};
use crate::error::SinkError;
use crate::text::concat3;
use vstd::prelude::*;

verus! {

/// The values of a row, in the order of the columns.
#[derive(Debug, PartialEq, Eq)]
pub struct Row {
    pub temperature_millicelsius: i32,
    pub humidity: i32,
    pub pressure: i32,
    pub battery_potential: i32,
    pub tx_power: i32,
    pub movement_counter: i32,
    pub measurement_sequence_number: i32,
    pub measurement_ts_ms: i64,
    pub mac_address: String,
}

/// The row that a record becomes. The address is written out in hexadecimal.
pub fn row(telemetry: &RuuviTelemetry) -> (r: Row)
    ensures
        r.temperature_millicelsius == telemetry.temperature_millicelsius,
        r.humidity == telemetry.humidity,
        r.pressure == telemetry.pressure,
        r.battery_potential == telemetry.battery_potential,
        r.tx_power == telemetry.tx_power,
        r.movement_counter == telemetry.movement_counter,
        r.measurement_sequence_number == telemetry.measurement_sequence_number,
        r.measurement_ts_ms == telemetry.measurement_ts_ms,
        r.mac_address@ == hex_address(telemetry.mac_address@),
{
    Row {
        temperature_millicelsius: telemetry.temperature_millicelsius,
        humidity: telemetry.humidity,
        pressure: telemetry.pressure,
        battery_potential: telemetry.battery_potential,
        tx_power: telemetry.tx_power,
        movement_counter: telemetry.movement_counter,
        measurement_sequence_number: telemetry.measurement_sequence_number,
        measurement_ts_ms: telemetry.measurement_ts_ms,
        mac_address: telemetry.mac_address_hex(),
    }
}

/// What to do next with the connection.
#[derive(Debug, Clone, Copy, PartialEq, Eq, Structural)]
pub enum InsertAction {
    /// Begin a transaction.
    Begin,
    /// Prepare the statement that inserts a record.
    Prepare,
    /// Insert the record with this index in the batch.
    Insert(usize),
    /// Roll the transaction back.
    Rollback,
    /// Commit the transaction.
    Commit,
    /// Nothing is left to do.
    Finish,
}

impl InsertAction {
    /// The SQL of an action that is a statement of its own.
    pub fn sql(&self) -> (r: Option<&'static str>)
        ensures
            match *self {
                InsertAction::Begin => r matches Some(sql) && sql@ == "BEGIN TRANSACTION"@,
                InsertAction::Rollback => r matches Some(sql) && sql@ == "ROLLBACK"@,
                InsertAction::Commit => r matches Some(sql) && sql@ == "COMMIT"@,
                _ => r is None,
            },
    {
        match self {
            InsertAction::Begin => Some("BEGIN TRANSACTION"),
            InsertAction::Rollback => Some("ROLLBACK"),
            InsertAction::Commit => Some("COMMIT"),
            _ => None,
        }
    }
}

/// How far the transaction is.
enum Stage {
    /// The action was given and its outcome is awaited.
    Doing(InsertAction),
    /// An insert failed for this reason, and the rollback is awaited.
    RollingBack(String),
    /// It is over.
    Done(Result<(), SinkError>),
}

/// How a transaction ended.
#[verifier::ext_equal]
pub enum Outcome {
    /// The whole batch was written.
    Written,
    /// Nothing was written, for this reason.
    Failed(Seq<char>),
    /// Nobody knows what was written, for this reason.
    Unknown(Seq<char>),
}

impl Outcome {
    /// Whether this is the result that reports the outcome.
    pub open spec fn is_reported_as(self, result: Result<(), SinkError>) -> bool {
        match self {
            Outcome::Written => result is Ok,
            Outcome::Failed(reason) => result matches Err(SinkError::DuckDBError(detail))
                && detail@ == reason,
            Outcome::Unknown(reason) => result matches Err(
                SinkError::TransactionOutcomeUnknown(detail),
            ) && detail@ == reason,
        }
    }
}

/// How far the transaction is.
#[verifier::ext_equal]
pub enum InsertState {
    Doing(InsertAction),
    RollingBack(Seq<char>),
    Done(Outcome),
}

impl InsertState {
    /// The action whose outcome is awaited.
    pub open spec fn action(self) -> InsertAction {
        match self {
            InsertState::Doing(action) => action,
            InsertState::RollingBack(_) => InsertAction::Rollback,
            InsertState::Done(_) => InsertAction::Finish,
        }
    }

    /// What follows the record with the index before this one.
    pub open spec fn inserting(index: nat, count: nat) -> InsertState {
        if index < count {
            InsertState::Doing(InsertAction::Insert(index as usize))
        } else {
            InsertState::Doing(InsertAction::Commit)
        }
    }

    /// The state after the action succeeded, for a batch of so many records.
    pub open spec fn succeeded(self, count: nat) -> InsertState {
        match self {
            InsertState::Doing(InsertAction::Begin) => InsertState::Doing(InsertAction::Prepare),
            InsertState::Doing(InsertAction::Prepare) => InsertState::inserting(0, count),
            InsertState::Doing(InsertAction::Insert(index)) => InsertState::inserting(
                index as nat + 1,
                count,
            ),
            InsertState::Doing(InsertAction::Commit) => InsertState::Done(Outcome::Written),
            InsertState::RollingBack(reason) => InsertState::Done(Outcome::Failed(reason)),
            _ => self,
        }
    }

    /// The state after the action failed for a reason.
    pub open spec fn failed(self, reason: Seq<char>) -> InsertState {
        match self {
            InsertState::Doing(InsertAction::Begin) => InsertState::Done(Outcome::Failed(reason)),
            InsertState::Doing(InsertAction::Prepare) => InsertState::RollingBack(reason),
            InsertState::Doing(InsertAction::Insert(_)) => InsertState::RollingBack(reason),
            InsertState::Doing(InsertAction::Commit) => InsertState::Done(
                Outcome::Unknown("commit failed ("@ + reason + ")"@),
            ),
            InsertState::RollingBack(first) => InsertState::Done(
                Outcome::Unknown(
                    "insert failed ("@ + first + "); rollback failed ("@ + reason + ")"@,
                ),
            ),
            _ => self,
        }
    }

    /// The state after the outcome of the action.
    pub open spec fn step(self, count: nat, outcome: Result<(), Seq<char>>) -> InsertState {
        match outcome {
            Ok(_) => self.succeeded(count),
            Err(reason) => self.failed(reason),
        }
    }

    /// Whether a batch of so many records can be at this point.
    pub open spec fn valid(self, count: nat) -> bool {
        &&& self matches InsertState::Doing(InsertAction::Insert(index)) ==> index < count
        &&& self matches InsertState::Doing(action) ==> action !is Rollback && action !is Finish
    }
}

/// A transaction that writes a batch.
pub struct BatchInsert {
    count: usize,
    stage: Stage,
}

impl BatchInsert {
    /// How many records the batch has.
    pub closed spec fn count(self) -> nat {
        self.count as nat
    }

    /// How far the transaction is.
    pub closed spec fn state(self) -> InsertState {
        match self.stage {
            Stage::Doing(action) => InsertState::Doing(action),
            Stage::RollingBack(reason) => InsertState::RollingBack(reason@),
            Stage::Done(Ok(_)) => InsertState::Done(Outcome::Written),
            Stage::Done(Err(SinkError::DuckDBError(reason))) => InsertState::Done(
                Outcome::Failed(reason@),
            ),
            Stage::Done(Err(error)) => InsertState::Done(
                Outcome::Unknown(error->TransactionOutcomeUnknown_0@),
            ),
        }
    }

    #[verifier::type_invariant]
    spec fn well_formed(self) -> bool {
        &&& self.state().valid(self.count())
        &&& self.stage matches Stage::Done(Err(error)) ==> error is DuckDBError
            || error is TransactionOutcomeUnknown
    }

    /// The action whose outcome is awaited.
    pub fn action(&self) -> (r: InsertAction)
        ensures
            r == self.state().action(),
    {
        match &self.stage {
            Stage::Doing(action) => *action,
            Stage::RollingBack(_) => InsertAction::Rollback,
            Stage::Done(_) => InsertAction::Finish,
        }
    }

    fn inserting(index: usize, count: usize) -> (r: Stage)
        ensures
            r == if index < count {
                Stage::Doing(InsertAction::Insert(index))
            } else {
                Stage::Doing(InsertAction::Commit)
            },
    {
        if index < count {
            Stage::Doing(InsertAction::Insert(index))
        } else {
            Stage::Doing(InsertAction::Commit)
        }
    }

    /// Takes the outcome of the action; a failure comes with its reason.
    pub fn step(self, outcome: Result<(), String>) -> (r: BatchInsert)
        ensures
            r.count() == self.count(),
            r.state() == self.state().step(
                self.count(),
                match outcome {
                    Ok(()) => Ok(()),
                    Err(reason) => Err(reason@),
                },
            ),
    {
        proof {
            use_type_invariant(&self);
        }
        let count: usize = self.count;
        let stage = match (self.stage, outcome) {
            (Stage::Doing(InsertAction::Begin), Ok(())) => Stage::Doing(InsertAction::Prepare),
            (Stage::Doing(InsertAction::Begin), Err(reason)) => Stage::Done(
                Err(SinkError::DuckDBError(reason)),
            ),
            (Stage::Doing(InsertAction::Prepare), Ok(())) => Self::inserting(0, count),
            (Stage::Doing(InsertAction::Prepare), Err(reason)) => Stage::RollingBack(reason),
            (Stage::Doing(InsertAction::Insert(index)), Ok(())) => Self::inserting(
                index + 1,
                count,
            ),
            (Stage::Doing(InsertAction::Insert(_)), Err(reason)) => Stage::RollingBack(reason),
            (Stage::Doing(InsertAction::Commit), Ok(())) => Stage::Done(Ok(())),
            (Stage::Doing(InsertAction::Commit), Err(reason)) => Stage::Done(
                Err(
                    SinkError::TransactionOutcomeUnknown(
                        concat3("commit failed (", reason.as_str(), ")"),
                    ),
                ),
            ),
            (Stage::RollingBack(reason), Ok(())) => Stage::Done(
                Err(SinkError::DuckDBError(reason)),
            ),
            (Stage::RollingBack(first), Err(reason)) => {
                let insert = concat3("insert failed (", first.as_str(), "); rollback failed (");
                Stage::Done(
                    Err(
                        SinkError::TransactionOutcomeUnknown(
                            concat3(insert.as_str(), reason.as_str(), ")"),
                        ),
                    ),
                )
            },
            (stage, _) => stage,
        };
        BatchInsert { count, stage }
    }

    /// How the transaction ended, once it has. Only an outcome that is known to have
    /// written nothing can be retried.
    pub fn result(self) -> (r: Option<Result<(), SinkError>>)
        ensures
            match self.state() {
                InsertState::Done(outcome) => r matches Some(result) && outcome.is_reported_as(
                    result,
                ),
                _ => r is None,
            },
    {
        proof {
            use_type_invariant(&self);
        }
        match self.stage {
            Stage::Done(result) => Some(result),
            _ => None,
        }
    }
}

/// The transaction that writes a batch of so many records, before its first action.
pub fn insert_batch(count: usize) -> (r: BatchInsert)
    ensures
        r.count() == count,
        r.state() == InsertState::Doing(InsertAction::Begin),
{
    BatchInsert { count, stage: Stage::Doing(InsertAction::Begin) }
}

/// What a table of a transactional database holds.
#[verifier::ext_equal]
pub struct Table<R> {
    /// The rows that were committed.
    pub rows: Seq<R>,
    /// The rows as the transaction sees them, while there is one.
    pub pending: Option<Seq<R>>,
}

/// Whether an action on the connection can turn the one table into the other. What a
/// commit or a rollback does that is reported as failed is left open.
pub open spec fn is_effect<R>(
    before: Table<R>,
    batch: Seq<R>,
    action: InsertAction,
    succeeded: bool,
    after: Table<R>,
) -> bool {
    match action {
        InsertAction::Begin if succeeded => after.rows == before.rows && after.pending == Some(
            before.rows,
        ),
        InsertAction::Insert(index) if succeeded => after.rows == before.rows && after.pending
            == Some(before.pending->0.push(batch[index as int])),
        InsertAction::Rollback => succeeded ==> after.rows == before.rows && after.pending is None,
        InsertAction::Commit => succeeded ==> after.rows == before.pending->0
            && after.pending is None,
        _ => after == before,
    }
}

/// Whether these are the states and tables that a transaction for the batch passes
/// through, given how each of its actions came out.
pub open spec fn is_transaction<R>(
    states: Seq<InsertState>,
    tables: Seq<Table<R>>,
    outcomes: Seq<Result<(), Seq<char>>>,
    batch: Seq<R>,
) -> bool {
    &&& batch.len() <= usize::MAX
    &&& states.len() == tables.len() == outcomes.len() + 1
    &&& states[0] == InsertState::Doing(InsertAction::Begin)
    &&& tables[0].pending is None
    &&& forall|i: int|
        0 <= i < outcomes.len() ==> #[trigger] states[i + 1] == states[i].step(
            batch.len(),
            outcomes[i],
        ) && is_effect(tables[i], batch, states[i].action(), outcomes[i] is Ok, tables[i + 1])
}

/// Whether the table can look like this when the transaction is that far.
spec fn agrees<R>(state: InsertState, table: Table<R>, rows: Seq<R>, batch: Seq<R>) -> bool {
    match state {
        InsertState::Doing(InsertAction::Begin) => table.rows == rows && table.pending is None,
        InsertState::Doing(InsertAction::Prepare) => table.rows == rows && table.pending == Some(
            rows,
        ),
        InsertState::Doing(InsertAction::Insert(index)) => index < batch.len() && table.rows
            == rows && table.pending == Some(rows + batch.take(index as int)),
        InsertState::Doing(InsertAction::Commit) => table.rows == rows && table.pending == Some(
            rows + batch,
        ),
        InsertState::Doing(_) => false,
        InsertState::RollingBack(_) => table.rows == rows && table.pending is Some,
        InsertState::Done(Outcome::Written) => table.rows == rows + batch && table.pending is None,
        InsertState::Done(Outcome::Failed(_)) => table.rows == rows && table.pending is None,
        InsertState::Done(Outcome::Unknown(_)) => true,
    }
}

proof fn lemma_steps_agree<R>(
    state: InsertState,
    outcome: Result<(), Seq<char>>,
    before: Table<R>,
    after: Table<R>,
    rows: Seq<R>,
    batch: Seq<R>,
)
    requires
        batch.len() <= usize::MAX,
        agrees(state, before, rows, batch),
        is_effect(before, batch, state.action(), outcome is Ok, after),
    ensures
        agrees(state.step(batch.len(), outcome), after, rows, batch),
{
    assert(rows + batch.take(0) =~= rows);
    assert(batch.take(batch.len() as int) =~= batch);
    if let InsertState::Doing(InsertAction::Insert(index)) = state {
        assert((rows + batch.take(index as int)).push(batch[index as int]) =~= rows + batch.take(
            index + 1,
        ));
    }
}

proof fn lemma_transactions_agree<R>(
    states: Seq<InsertState>,
    tables: Seq<Table<R>>,
    outcomes: Seq<Result<(), Seq<char>>>,
    batch: Seq<R>,
    n: int,
)
    requires
        is_transaction(states, tables, outcomes, batch),
        0 <= n < states.len(),
    ensures
        agrees(states[n], tables[n], tables[0].rows, batch),
    decreases n,
{
    if n > 0 {
        lemma_transactions_agree(states, tables, outcomes, batch, n - 1);
        assert(states[n - 1 + 1] == states[n - 1].step(batch.len(), outcomes[n - 1]));
        lemma_steps_agree(
            states[n - 1],
            outcomes[n - 1],
            tables[n - 1],
            tables[n],
            tables[0].rows,
            batch,
        );
    }
}

/// A batch is written whole or not at all. A success means that each of its records was
/// appended, in order. A failure that may be retried means that the table is as it was,
/// so that a retry writes no record twice. Until the end nothing of the batch is in the
/// table.
pub proof fn law_batches_are_written_whole_or_not_at_all<R>(
    states: Seq<InsertState>,
    tables: Seq<Table<R>>,
    outcomes: Seq<Result<(), Seq<char>>>,
    batch: Seq<R>,
    result: Result<(), SinkError>,
)
    requires
        is_transaction(states, tables, outcomes, batch),
    ensures
        states.last() matches InsertState::Done(outcome) && outcome.is_reported_as(result) ==> {
            &&& result is Ok ==> tables.last() == (Table {
                rows: tables[0].rows + batch,
                pending: None,
            })
            &&& (result matches Err(error) && error.spec_is_retryable()) ==> tables.last()
                == tables[0]
        },
        !(states.last() is Done) ==> tables.last().rows == tables[0].rows,
{
    lemma_transactions_agree(states, tables, outcomes, batch, states.len() - 1);
}

/// A failed commit and a failed rollback are reported as an unknown outcome, and such an
/// outcome is never retried.
pub proof fn law_unknown_outcomes_are_not_retried(
    state: InsertState,
    count: nat,
    reason: Seq<char>,
    result: Result<(), SinkError>,
)
    requires
        state.valid(count),
        state.action() is Commit || state.action() is Rollback,
    ensures
        state.step(count, Err(reason)) matches InsertState::Done(outcome) && (
        outcome.is_reported_as(result) ==> (result matches Err(error)
            && error is TransactionOutcomeUnknown && !error.spec_is_retryable())),
{
}

/// How many actions a transaction has left at most.
pub open spec fn actions_left(state: InsertState, count: nat) -> nat {
    match state {
        InsertState::Doing(InsertAction::Begin) => count + 3,
        InsertState::Doing(InsertAction::Prepare) => count + 2,
        InsertState::Doing(InsertAction::Insert(index)) => (count - index + 1) as nat,
        InsertState::Doing(_) => 1,
        InsertState::RollingBack(_) => 1,
        InsertState::Done(_) => 0,
    }
}

/// Every action brings a transaction nearer to its end, whatever comes of the action.
pub proof fn law_transactions_end(
    state: InsertState,
    count: nat,
    outcome: Result<(), Seq<char>>,
)
    requires
        count <= usize::MAX,
        state.valid(count),
        !(state is Done),
    ensures
        state.step(count, outcome).valid(count),
        actions_left(state.step(count, outcome), count) < actions_left(state, count),
{
}

/// Where a transaction is after so many of its actions have succeeded and none has failed.
pub open spec fn after_successes(count: nat, n: nat) -> InsertState
    decreases n,
{
    if n == 0 {
        InsertState::Doing(InsertAction::Begin)
    } else {
        after_successes(count, (n - 1) as nat).step(count, Ok(()))
    }
}

/// A transaction in which nothing fails begins, prepares its statement, inserts each record
/// of the batch once and in order, commits, and has then written the batch.
pub proof fn law_transactions_insert_each_record_and_commit(count: nat, n: nat)
    requires
        count <= usize::MAX,
    ensures
        n == 0 ==> after_successes(count, n).action() == InsertAction::Begin,
        n == 1 ==> after_successes(count, n).action() == InsertAction::Prepare,
        2 <= n < count + 2 ==> after_successes(count, n) == InsertState::Doing(
            InsertAction::Insert((n - 2) as usize),
        ),
        n == count + 2 ==> after_successes(count, n) == InsertState::Doing(InsertAction::Commit),
        n >= count + 3 ==> after_successes(count, n) == InsertState::Done(Outcome::Written),
        n == 0 ==> after_successes(count, n) is Doing,
        n == 1 ==> after_successes(count, n) is Doing,
    decreases n,
{
    if n > 0 {
        law_transactions_insert_each_record_and_commit(count, (n - 1) as nat);
    }
}

/// A transaction that cannot begin has failed. One that cannot prepare or insert is rolled
/// back, and has then failed for that reason. A failed rollback and a failed commit leave
/// the outcome unknown, and tell each reason that there was.
pub proof fn law_failures_are_rolled_back_and_told(
    action: InsertAction,
    count: nat,
    reason: Seq<char>,
    rollback: Seq<char>,
)
    ensures
        ({
            let next = InsertState::Doing(action).step(count, Err(reason));
            &&& action is Begin ==> next == InsertState::Done(Outcome::Failed(reason))
            &&& action is Commit ==> next == InsertState::Done(
                Outcome::Unknown("commit failed ("@ + reason + ")"@),
            )
            &&& action is Prepare || action is Insert ==> {
                &&& next.action() == InsertAction::Rollback
                &&& next.step(count, Ok(())) == InsertState::Done(Outcome::Failed(reason))
                &&& next.step(count, Err(rollback)) == InsertState::Done(
                    Outcome::Unknown(
                        "insert failed ("@ + reason + "); rollback failed ("@ + rollback + ")"@,
                    ),
                )
            }
        }),
{
}

/// The action that is awaited is the one at hand, a rollback after a failed insert, and none
/// at the end, where no outcome changes anything.
pub proof fn law_ended_transactions_do_nothing(
    action: InsertAction,
    reason: Seq<char>,
    outcome: Outcome,
    count: nat,
    event: Result<(), Seq<char>>,
)
    ensures
        InsertState::Doing(action).action() == action,
        InsertState::RollingBack(reason).action() == InsertAction::Rollback,
        InsertState::Done(outcome).action() == InsertAction::Finish,
        InsertState::Done(outcome).step(count, event) == InsertState::Done(outcome),
{
}

/// A result tells its outcome: success exactly where the batch was written, a failure of the
/// database exactly where nothing was, and an unknown outcome otherwise, each with its reason.
pub proof fn law_results_tell_the_outcome(outcome: Outcome, result: Result<(), SinkError>)
    requires
        outcome.is_reported_as(result),
    ensures
        result is Ok <==> outcome is Written,
        (result matches Err(SinkError::DuckDBError(detail)) && outcome == Outcome::Failed(detail@))
            <==> outcome is Failed,
        (result matches Err(SinkError::TransactionOutcomeUnknown(detail)) && outcome
            == Outcome::Unknown(detail@)) <==> outcome is Unknown,
{
}

/// A transaction starts at its beginning, for as many records as the batch has, and each
/// outcome takes it one step on, for the same batch.
pub proof fn law_transactions_go_step_by_step(
    count: usize,
    started: BatchInsert,
    transaction: BatchInsert,
    outcome: Result<(), String>,
    next: BatchInsert,
)
    requires
        call_ensures(insert_batch, (count,), started),
        call_ensures(BatchInsert::step, (transaction, outcome), next),
    ensures
        started.count() == count,
        started.state() == after_successes(count as nat, 0),
        next.count() == transaction.count(),
        outcome is Ok ==> next.state() == transaction.state().step(transaction.count(), Ok(())),
        outcome matches Err(reason) ==> next.state() == transaction.state().step(
            transaction.count(),
            Err(reason@),
        ),
{
}

/// A row holds what the record holds, each value in its own column, and the address in
/// hexadecimal. Records whose rows are alike are alike, down to their addresses.
pub proof fn law_rows_hold_the_record(
    telemetry: &RuuviTelemetry,
    written: Row,
    other: &RuuviTelemetry,
    other_written: Row,
)
    requires
        call_ensures(row, (telemetry,), written),
        call_ensures(row, (other,), other_written),
    ensures
        written.temperature_millicelsius == telemetry.temperature_millicelsius,
        written.humidity == telemetry.humidity,
        written.pressure == telemetry.pressure,
        written.battery_potential == telemetry.battery_potential,
        written.tx_power == telemetry.tx_power,
        written.movement_counter == telemetry.movement_counter,
        written.measurement_sequence_number == telemetry.measurement_sequence_number,
        written.measurement_ts_ms == telemetry.measurement_ts_ms,
        written.mac_address@ == hex_address(telemetry.mac_address@),
        written.mac_address@ == other_written.mac_address@ && are_bytes(telemetry.mac_address@)
            && are_bytes(other.mac_address@) ==> telemetry.mac_address@ == other.mac_address@,
{
    if written.mac_address@ == other_written.mac_address@ && are_bytes(telemetry.mac_address@)
        && are_bytes(other.mac_address@) {
        law_addresses_are_written_unambiguously(telemetry.mac_address@, other.mac_address@);
    }
}

/// The statements that begin and end a transaction, and no others, are statements of their
/// own.
pub proof fn law_transactions_are_begun_and_ended_by_statements(
    action: &InsertAction,
    sql: Option<&'static str>,
)
    requires
        call_ensures(InsertAction::sql, (action,), sql),
    ensures
        sql is Some <==> *action is Begin || *action is Rollback || *action is Commit,
        *action is Begin ==> sql->0@ == "BEGIN TRANSACTION"@,
        *action is Rollback ==> sql->0@ == "ROLLBACK"@,
        *action is Commit ==> sql->0@ == "COMMIT"@,
{
}

} // verus!
