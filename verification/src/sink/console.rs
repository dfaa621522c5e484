//! The console sink: one line of JSON for each record.
use crate::error::SinkError;
use crate::pipeline::NANOS_PER_SECOND;
use crate::sink::SensorValuesSink;
use crate::source::{lines, without_return, Found, CARRIAGE_RETURN, NEWLINE};
use vstd::prelude::*;
use vstd::utf8::encode_utf8;

verus! {

/// Sink that writes telemetry records as JSON lines.
pub struct ConsoleSink;

/// How many seconds a record may wait in a batch.
pub const CONSOLE_LATENCY_SECONDS: u128 = 86400;

/// The bytes of the texts, with a newline behind each.
pub open spec fn framed(texts: Seq<Seq<char>>) -> Seq<u8>
    decreases texts.len(),
{
    if texts.len() == 0 {
        Seq::empty()
    } else {
        encode_utf8(texts[0]).push(NEWLINE) + framed(texts.drop_first())
    }
}

/// The texts of the records that have one.
pub open spec fn record_texts(records: Seq<Result<String, String>>) -> Seq<Seq<char>> {
    records.map_values(|record: Result<String, String>| record->Ok_0@)
}

/// Whether the record with this index is the first that has no text.
pub open spec fn fails_first(records: Seq<Result<String, String>>, index: int) -> bool {
    &&& 0 <= index < records.len()
    &&& records[index] is Err
    &&& forall|i: int| 0 <= i < index ==> #[trigger] records[i] is Ok
}

impl ConsoleSink {
    /// What to write for a batch: the JSON of each record on a line of its own, in order.
    /// A record that could not be turned into JSON comes with the reason. Then nothing is
    /// written, and the first such record is reported.
    pub fn write_batch(&self, records: &Vec<Result<String, String>>) -> (r: Result<
        Vec<u8>,
        SinkError,
    >)
        ensures
            match r {
                Ok(output) => {
                    &&& forall|i: int| 0 <= i < records@.len() ==> #[trigger] records@[i] is Ok
                    &&& output@ == framed(record_texts(records@))
                },
                Err(error) => exists|i: int| #[trigger]
                    fails_first(records@, i) && (error matches SinkError::SerializationError(detail)
                        && detail@ == records@[i]->Err_0@),
            },
    {
        let mut output: Vec<u8> = Vec::new();
        let ghost texts = record_texts(records@);
        assert(texts.skip(0) =~= texts);
        let mut i: usize = 0;
        while i < records.len()
            invariant
                i <= records@.len(),
                texts == record_texts(records@),
                forall|j: int| 0 <= j < i ==> #[trigger] records@[j] is Ok,
                output@ + framed(texts.skip(i as int)) == framed(texts),
            decreases records@.len() - i,
        {
            match &records[i] {
                Ok(json) => {
                    let ghost written = output@;
                    output.extend_from_slice(json.as_str().as_bytes());
                    output.push(NEWLINE);
                    assert(output@ =~= written + encode_utf8(json@).push(NEWLINE));
                    assert(texts.skip(i as int).drop_first() =~= texts.skip(i + 1));
                    assert(output@ + framed(texts.skip(i + 1)) =~= written + framed(
                        texts.skip(i as int),
                    ));
                },
                Err(detail) => {
                    assert(fails_first(records@, i as int));
                    return Err(SinkError::SerializationError(detail.clone()));
                },
            }
            i = i + 1;
        }
        assert(texts.skip(i as int) =~= Seq::empty());
        assert(output@ =~= framed(texts));
        Ok(output)
    }
}

impl SensorValuesSink for ConsoleSink {
    open spec fn batch_size(&self) -> nat {
        1
    }

    open spec fn latency(&self) -> nat {
        CONSOLE_LATENCY_SECONDS as nat * NANOS_PER_SECOND as nat
    }

    fn desired_batch_size(&self) -> (count: usize) {
        1
    }

    fn desired_max_batch_latency(&self) -> (nanos: u128) {
        CONSOLE_LATENCY_SECONDS * NANOS_PER_SECOND
    }
}

/// Whether the text can be told apart from its neighbours when it stands on a line, and
/// fits within the limit.
pub open spec fn is_one_line(text: Seq<char>, limit: nat) -> bool {
    let bytes = encode_utf8(text);
    &&& !bytes.contains(NEWLINE)
    &&& bytes.len() <= limit
    &&& bytes.len() > 0 ==> bytes.last() != CARRIAGE_RETURN
}

/// What the sink writes for a batch, a source reads as the same lines.
pub proof fn law_written_lines_read_back(texts: Seq<Seq<char>>, limit: nat)
    requires
        forall|i: int| 0 <= i < texts.len() ==> is_one_line(#[trigger] texts[i], limit),
    ensures
        lines(framed(texts), limit, false) == texts.map_values(
            |text: Seq<char>| Found::Line(encode_utf8(text)),
        ),
    decreases texts.len(),
{
    let found = texts.map_values(|text: Seq<char>| Found::Line(encode_utf8(text)));
    let output = framed(texts);
    output.index_of_first_ensures(NEWLINE);
    if texts.len() == 0 {
        assert(lines(output, limit, false) =~= found);
    } else {
        let bytes = encode_utf8(texts[0]);
        let rest = texts.drop_first();
        assert forall|i: int| 0 <= i < rest.len() implies is_one_line(#[trigger] rest[i], limit) by {
            assert(rest[i] == texts[i + 1]);
        }
        law_written_lines_read_back(rest, limit);
        assert(is_one_line(texts[0], limit));
        assert(output[bytes.len() as int] == NEWLINE);
        assert(output.contains(NEWLINE));
        let newline = output.index_of_first(NEWLINE)->0;
        if newline < bytes.len() {
            assert(bytes[newline] == NEWLINE);
        }
        assert(newline == bytes.len());
        assert(output.take(newline) =~= bytes);
        assert(output.skip(newline + 1) =~= framed(rest));
        assert(without_return(bytes) == bytes);
        assert(found =~= seq![Found::Line(bytes)] + rest.map_values(
            |text: Seq<char>| Found::Line(encode_utf8(text)),
        ));
    }
}

/// The output for two batches, one after the other, is the output for both at once, and a
/// record is its text and a newline. So every record has its line, whole and in order.
pub proof fn law_records_are_written_one_after_the_other(
    first: Seq<Seq<char>>,
    second: Seq<Seq<char>>,
    text: Seq<char>,
)
    ensures
        framed(first + second) == framed(first) + framed(second),
        framed(seq![text]) == encode_utf8(text).push(0x0au8),
        framed(Seq::<Seq<char>>::empty()) == Seq::<u8>::empty(),
    decreases first.len(),
{
    let one: Seq<Seq<char>> = seq![text];
    assert(one.drop_first() =~= Seq::<Seq<char>>::empty());
    assert(framed(one.drop_first()) =~= Seq::<u8>::empty());
    assert(framed(one) =~= encode_utf8(text).push(NEWLINE));
    if first.len() == 0 {
        assert(first + second =~= second);
        assert(framed(first + second) =~= framed(first) + framed(second));
    } else {
        law_records_are_written_one_after_the_other(first.drop_first(), second, text);
        assert((first + second).drop_first() =~= first.drop_first() + second);
        assert(framed(first + second) =~= framed(first) + framed(second));
    }
}

/// The text of each record is the one that it came with.
pub proof fn law_records_keep_their_texts(
    records: Seq<Result<String, String>>,
    i: int,
    text: String,
)
    requires
        0 <= i < records.len(),
    ensures
        record_texts(records).len() == records.len(),
        records[i] == Ok::<String, String>(text) ==> record_texts(records)[i] == text@,
{
}

/// The record that is reported is one that has no text, and every one before it has.
pub proof fn law_the_first_failure_is_reported(
    records: Seq<Result<String, String>>,
    index: int,
    other: int,
)
    requires
        fails_first(records, index),
        fails_first(records, other),
    ensures
        index == other,
        0 <= index < records.len() && records[index] is Err,
{
}

/// A record on the console waits for no other, and for at most a day.
pub proof fn law_console_records_go_out_one_by_one(sink: ConsoleSink)
    ensures
        sink.batch_size() == 1,
        sink.latency() == 24 * 60 * 60 * 1_000_000_000,
{
}

/// A batch is written exactly if every record has a text. Then each has its line; otherwise
/// nothing is written, and the reason is that of a record that has none.
pub proof fn law_batches_are_written_whole(
    sink: &ConsoleSink,
    records: &Vec<Result<String, String>>,
    written: Result<Vec<u8>, SinkError>,
)
    requires
        call_ensures(ConsoleSink::write_batch, (sink, records), written),
    ensures
        written is Ok <==> forall|i: int|
            0 <= i < records@.len() ==> #[trigger] records@[i] is Ok,
        written matches Ok(output) ==> output@ == framed(record_texts(records@)),
        written matches Err(error) ==> error is SerializationError && exists|i: int|
            0 <= i < records@.len() && #[trigger] records@[i] is Err
                && error->SerializationError_0@ == records@[i]->Err_0@,
{
    if let Err(error) = written {
        let i = choose|i: int| #[trigger]
            fails_first(records@, i) && (error matches SinkError::SerializationError(detail)
                && detail@ == records@[i]->Err_0@);
        assert(records@[i] is Err);
    }
}

} // verus!
