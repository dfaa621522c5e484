//! The source of telemetry: lines of bounded length, each holding one JSON record.
use crate::dto::RuuviTelemetry;
use crate::error::SourceError;
use crate::text::{concat, concat3, decimal, decimal_text, signed_decimal, signed_decimal_text};
use tokio_util::bytes::BytesMut;
use tokio_util::codec::{Decoder, LinesCodec, LinesCodecError};
use vstd::prelude::*;
use vstd::utf8::{decode_utf8, valid_utf8};

verus! {

/// Upper bound for one JSON line. Valid telemetry records are a few hundred bytes; the
/// cap keeps a stream of garbage without newlines from growing the read buffer without
/// limit.
pub const MAX_LINE_BYTES: usize = 65536;

/// The codec of `tokio_util` that splits a stream of bytes into lines.
#[verifier::external_type_specification]
#[verifier::external_body]
pub struct ExLinesCodec(LinesCodec);

/// The buffer of `bytes` that a stream is read into.
#[verifier::external_type_specification]
#[verifier::external_body]
pub struct ExBytesMut(BytesMut);

/// What a lines codec remembers between two calls.
pub struct LinesState {
    /// How many bytes a line may have.
    pub limit: nat,
    /// Whether the rest of an oversized line is being dropped.
    pub discarding: bool,
    /// How many bytes of the buffer are known to hold no newline.
    pub scanned: nat,
}

/// What the codec remembers.
pub uninterp spec fn lines_state(codec: LinesCodec) -> LinesState;

/// The bytes in the buffer.
pub uninterp spec fn bytes_held(buffer: BytesMut) -> Seq<u8>;

/// The newline that ends a line.
pub const NEWLINE: u8 = 0x0a;

/// The carriage return that may stand before it.
pub const CARRIAGE_RETURN: u8 = 0x0d;

/// What a codec finds in a buffer.
#[verifier::ext_equal]
pub enum Found {
    /// No whole line yet.
    Nothing,
    /// A line that is too long.
    Oversized,
    /// A line, without its ending.
    Line(Seq<u8>),
}

/// The line without a carriage return at its end.
pub open spec fn without_return(line: Seq<u8>) -> Seq<u8> {
    if line.len() > 0 && line.last() == CARRIAGE_RETURN {
        line.drop_last()
    } else {
        line
    }
}

impl LinesState {
    /// Whether the codec has been used with this buffer and with no other: what it
    /// remembers of the start of the buffer is so.
    pub open spec fn fits(self, held: Seq<u8>) -> bool {
        &&& self.scanned <= held.len()
        &&& self.scanned <= self.limit + 1
        &&& forall|i: int| 0 <= i < self.scanned ==> #[trigger] held[i] != NEWLINE
    }

    /// What is at the start of the buffer, the state afterwards, and the bytes left.
    pub open spec fn find_line(self, held: Seq<u8>) -> (Found, LinesState, Seq<u8>) {
        let newline = held.index_of_first(NEWLINE);
        if newline is Some && newline->0 <= self.limit {
            (
                Found::Line(without_return(held.take(newline->0))),
                LinesState { scanned: 0, ..self },
                held.skip(newline->0 + 1),
            )
        } else if held.len() > self.limit {
            (Found::Oversized, LinesState { discarding: true, ..self }, held)
        } else {
            (Found::Nothing, LinesState { scanned: held.len(), ..self }, held)
        }
    }

    /// The same, after what is left of an oversized line has been dropped.
    pub open spec fn find(self, held: Seq<u8>) -> (Found, LinesState, Seq<u8>) {
        let newline = held.index_of_first(NEWLINE);
        if !self.discarding {
            self.find_line(held)
        } else if newline is Some {
            (LinesState { discarding: false, scanned: 0, ..self }).find_line(
                held.skip(newline->0 + 1),
            )
        } else {
            (Found::Nothing, LinesState { scanned: 0, ..self }, Seq::empty())
        }
    }

    /// The same at the end of the input, where the last line needs no newline.
    pub open spec fn find_last(self, held: Seq<u8>) -> (Found, LinesState, Seq<u8>) {
        let (found, state, rest) = self.find(held);
        if found !is Nothing {
            (found, state, rest)
        } else if rest.len() == 0 || rest == seq![CARRIAGE_RETURN] {
            (Found::Nothing, LinesState { scanned: 0, ..state }, rest)
        } else {
            (
                Found::Line(without_return(rest)),
                LinesState { scanned: 0, ..state },
                Seq::empty(),
            )
        }
    }
}

/// What is wrong with a line.
#[derive(Debug, PartialEq, Eq)]
pub enum LineFault {
    /// It is too long.
    MaxLineLengthExceeded,
    /// It is not text.
    Io(String),
}

/// Whether the outcome of a call tells what was found: the text of a line, or that the
/// line is no UTF-8.
pub open spec fn tells(outcome: Result<Option<String>, LineFault>, found: Found) -> bool {
    match found {
        Found::Nothing => outcome matches Ok(None),
        Found::Oversized => outcome matches Err(LineFault::MaxLineLengthExceeded),
        Found::Line(line) => if valid_utf8(line) {
            outcome matches Ok(Some(text)) && text@ == decode_utf8(line)
        } else {
            outcome matches Err(LineFault::Io(detail)) && detail@
                == "Unable to decode input as UTF8"@
        },
    }
}

/// `LinesCodec::new_with_max_length` makes a codec that remembers its limit and nothing
/// else.
#[verifier::external_body]
fn lines_codec(max_length: usize) -> (codec: LinesCodec)
    ensures
        lines_state(codec) == (LinesState {
            limit: max_length as nat,
            discarding: false,
            scanned: 0,
        }),
{
    LinesCodec::new_with_max_length(max_length)
}

/// `LinesCodec::decode` takes one line from the buffer, or reports that the buffer begins
/// with more bytes than a line may have and drops them in later calls. The buffer has to
/// be the one of the calls before, with bytes added at its end only.
#[verifier::external_body]
fn lines_decode(codec: &mut LinesCodec, buffer: &mut BytesMut) -> (r: Result<
    Option<String>,
    LineFault,
>)
    requires
        lines_state(*old(codec)).fits(bytes_held(*old(buffer))),
    ensures
        ({
            let (found, state, rest) = lines_state(*old(codec)).find(bytes_held(*old(buffer)));
            &&& tells(r, found)
            &&& lines_state(*final(codec)) == state
            &&& bytes_held(*final(buffer)) == rest
        }),
{
    match codec.decode(buffer) {
        Ok(line) => Ok(line),
        Err(LinesCodecError::MaxLineLengthExceeded) => Err(LineFault::MaxLineLengthExceeded),
        Err(LinesCodecError::Io(error)) => Err(LineFault::Io(error.to_string())),
    }
}

/// `LinesCodec::decode_eof` does the same at the end of the input. A last line without a
/// newline counts, unless it is empty or a lone carriage return.
#[verifier::external_body]
fn lines_decode_eof(codec: &mut LinesCodec, buffer: &mut BytesMut) -> (r: Result<
    Option<String>,
    LineFault,
>)
    requires
        lines_state(*old(codec)).fits(bytes_held(*old(buffer))),
    ensures
        ({
            let (found, state, rest) = lines_state(*old(codec)).find_last(
                bytes_held(*old(buffer)),
            );
            &&& tells(r, found)
            &&& lines_state(*final(codec)) == state
            &&& bytes_held(*final(buffer)) == rest
        }),
{
    match codec.decode_eof(buffer) {
        Ok(line) => Ok(line),
        Err(LinesCodecError::MaxLineLengthExceeded) => Err(LineFault::MaxLineLengthExceeded),
        Err(LinesCodecError::Io(error)) => Err(LineFault::Io(error.to_string())),
    }
}

/// One line of the input.
#[derive(Debug, PartialEq, Eq)]
pub enum BoundedLine {
    /// A line within the bound.
    Line(String),
    /// A line beyond the bound; its bytes are dropped.
    Oversized,
}

/// Reports an oversized line as an item rather than as an error: a framed reader ends
/// after any error, while the codec recovers from an oversized line by itself.
pub fn map_line(result: Result<Option<String>, LineFault>) -> (r: Result<
    Option<BoundedLine>,
    String,
>)
    ensures
        r == match result {
            Ok(Some(line)) => Ok(Some(BoundedLine::Line(line))),
            Ok(None) => Ok(None),
            Err(LineFault::MaxLineLengthExceeded) => Ok(Some(BoundedLine::Oversized)),
            Err(LineFault::Io(detail)) => Err(detail),
        },
{
    match result {
        Ok(Some(line)) => Ok(Some(BoundedLine::Line(line))),
        Ok(None) => Ok(None),
        Err(LineFault::MaxLineLengthExceeded) => Ok(Some(BoundedLine::Oversized)),
        Err(LineFault::Io(detail)) => Err(detail),
    }
}

/// Whether the outcome of a bounded codec tells what was found.
pub open spec fn tells_bounded(
    outcome: Result<Option<BoundedLine>, String>,
    found: Found,
) -> bool {
    match found {
        Found::Nothing => outcome matches Ok(None),
        Found::Oversized => outcome matches Ok(Some(BoundedLine::Oversized)),
        Found::Line(line) => if valid_utf8(line) {
            outcome matches Ok(Some(BoundedLine::Line(text))) && text@ == decode_utf8(line)
        } else {
            outcome matches Err(detail) && detail@ == "Unable to decode input as UTF8"@
        },
    }
}

/// A codec for lines of bounded length.
pub struct BoundedLinesCodec {
    inner: LinesCodec,
}

impl View for BoundedLinesCodec {
    type V = LinesState;

    closed spec fn view(&self) -> LinesState {
        lines_state(self.inner)
    }
}

impl BoundedLinesCodec {
    /// A codec for lines of at most so many bytes.
    pub fn new(max_length: usize) -> (codec: Self)
        ensures
            codec@ == (LinesState { limit: max_length as nat, discarding: false, scanned: 0 }),
    {
        BoundedLinesCodec { inner: lines_codec(max_length) }
    }

    /// Takes the next line from the buffer, if the buffer holds a whole one.
    pub fn decode(&mut self, src: &mut BytesMut) -> (r: Result<Option<BoundedLine>, String>)
        requires
            old(self)@.fits(bytes_held(*old(src))),
        ensures
            ({
                let (found, state, rest) = old(self)@.find(bytes_held(*old(src)));
                &&& tells_bounded(r, found)
                &&& final(self)@ == state
                &&& bytes_held(*final(src)) == rest
            }),
            final(self)@.fits(bytes_held(*final(src))),
    {
        proof {
            lemma_find_keeps_the_fit(self@, bytes_held(*src));
        }
        map_line(lines_decode(&mut self.inner, src))
    }

    /// Takes the next line at the end of the input.
    pub fn decode_eof(&mut self, src: &mut BytesMut) -> (r: Result<Option<BoundedLine>, String>)
        requires
            old(self)@.fits(bytes_held(*old(src))),
        ensures
            ({
                let (found, state, rest) = old(self)@.find_last(bytes_held(*old(src)));
                &&& tells_bounded(r, found)
                &&& final(self)@ == state
                &&& bytes_held(*final(src)) == rest
            }),
            final(self)@.fits(bytes_held(*final(src))),
    {
        proof {
            lemma_find_keeps_the_fit(self@, bytes_held(*src));
        }
        map_line(lines_decode_eof(&mut self.inner, src))
    }
}

proof fn lemma_find_keeps_the_fit(state: LinesState, held: Seq<u8>)
    requires
        state.fits(held),
    ensures
        state.find(held).1.fits(state.find(held).2),
        state.find_last(held).1.fits(state.find_last(held).2),
{
    held.index_of_first_ensures(NEWLINE);
    if let Some(newline) = held.index_of_first(NEWLINE) {
        held.skip(newline + 1).index_of_first_ensures(NEWLINE);
    }
}

/// All lines of an input from here on, while an oversized line may still be dropped.
pub open spec fn lines(input: Seq<u8>, limit: nat, discarding: bool) -> Seq<Found>
    decreases input.len(),
{
    let newline = input.index_of_first(NEWLINE);
    if newline is Some && 0 <= newline->0 < input.len() {
        let line = input.take(newline->0);
        let found = if discarding {
            Seq::empty()
        } else if line.len() <= limit {
            seq![Found::Line(without_return(line))]
        } else {
            seq![Found::Oversized]
        };
        found + lines(input.skip(newline->0 + 1), limit, false)
    } else if discarding || input.len() == 0 {
        Seq::empty()
    } else if input.len() > limit {
        seq![Found::Oversized]
    } else if input == seq![CARRIAGE_RETURN] {
        Seq::empty()
    } else {
        seq![Found::Line(without_return(input))]
    }
}

/// What a call adds to the lines found so far.
pub open spec fn found_lines(found: Found) -> Seq<Found> {
    if found is Nothing {
        Seq::empty()
    } else {
        seq![found]
    }
}

proof fn lemma_first_newline(a: Seq<u8>, b: Seq<u8>)
    ensures
        (a + b).index_of_first(NEWLINE) == match a.index_of_first(NEWLINE) {
            Some(i) => Some(i),
            None => match b.index_of_first(NEWLINE) {
                Some(i) => Some(a.len() + i),
                None => None,
            },
        },
{
    let c = a + b;
    a.index_of_first_ensures(NEWLINE);
    b.index_of_first_ensures(NEWLINE);
    c.index_of_first_ensures(NEWLINE);
    match (a.index_of_first(NEWLINE), b.index_of_first(NEWLINE)) {
        (Some(i), _) => {
            assert(c[i] == NEWLINE);
            assert(c.contains(NEWLINE));
            let k = c.index_of_first(NEWLINE)->0;
            if k < i {
                assert(a[k] == NEWLINE);
            }
        },
        (None, Some(i)) => {
            assert(c[a.len() + i] == NEWLINE);
            assert(c.contains(NEWLINE));
            let k = c.index_of_first(NEWLINE)->0;
            if k < a.len() {
                assert(a[k] == NEWLINE);
            } else if k < a.len() + i {
                assert(b[k - a.len()] == NEWLINE);
            }
        },
        (None, None) => {
            if c.contains(NEWLINE) {
                let k = c.index_of_first(NEWLINE)->0;
                if k < a.len() {
                    assert(a.contains(NEWLINE));
                } else {
                    assert(b[k - a.len()] == NEWLINE);
                    assert(b.contains(NEWLINE));
                }
            }
        },
    }
}

/// It makes no difference in which pieces the input arrives: whatever is still to be
/// read, the line that a call finds and the lines in what it leaves are the lines of
/// what it was given. In particular an oversized line is reported once, and the line
/// after it is read as usual.
pub proof fn law_lines_do_not_depend_on_the_pieces(
    state: LinesState,
    held: Seq<u8>,
    unread: Seq<u8>,
)
    ensures
        ({
            let (found, next, rest) = state.find(held);
            lines(held + unread, state.limit, state.discarding) == found_lines(found) + lines(
                rest + unread,
                state.limit,
                next.discarding,
            )
        }),
    decreases held.len(),
{
    lemma_first_newline(held, unread);
    held.index_of_first_ensures(NEWLINE);
    unread.index_of_first_ensures(NEWLINE);
    let all = held + unread;
    let (found, next, rest) = state.find(held);
    match held.index_of_first(NEWLINE) {
        Some(k) => {
            assert(all.take(k) =~= held.take(k));
            assert(all.skip(k + 1) =~= held.skip(k + 1) + unread);
            if state.discarding {
                let fresh = LinesState { discarding: false, scanned: 0, ..state };
                law_lines_do_not_depend_on_the_pieces(fresh, held.skip(k + 1), unread);
            } else if k > state.limit {
                assert(rest == held);
            }
        },
        None => {
            if state.discarding {
                assert(rest + unread =~= unread);
                if let Some(k) = unread.index_of_first(NEWLINE) {
                    assert(all.skip(held.len() + k + 1) =~= unread.skip(k + 1));
                }
            } else if held.len() > state.limit {
                assert(rest == held);
            } else {
                assert(rest == held);
            }
        },
    }
    assert(lines(all, state.limit, state.discarding) =~= found_lines(found) + lines(
        rest + unread,
        state.limit,
        next.discarding,
    ));
}

/// At the end of the input, calls find exactly the lines that are left, one after the
/// other, and a call that finds nothing has nothing left to find.
pub proof fn law_the_last_lines_are_found(state: LinesState, held: Seq<u8>)
    ensures
        ({
            let (found, next, rest) = state.find_last(held);
            &&& found is Nothing ==> lines(held, state.limit, state.discarding).len() == 0
            &&& found !is Nothing ==> lines(held, state.limit, state.discarding) == seq![found]
                + lines(rest, state.limit, next.discarding)
        }),
{
    let nothing = Seq::<u8>::empty();
    law_lines_do_not_depend_on_the_pieces(state, held, nothing);
    let (found, next, rest) = state.find(held);
    assert(held + nothing =~= held);
    assert(rest + nothing =~= rest);
    nothing.index_of_first_ensures(NEWLINE);
    if found is Nothing {
        rest.index_of_first_ensures(NEWLINE);
        held.index_of_first_ensures(NEWLINE);
        if let Some(k) = held.index_of_first(NEWLINE) {
            held.skip(k + 1).index_of_first_ensures(NEWLINE);
        }
        assert(lines(nothing, state.limit, next.discarding).len() == 0);
        assert(lines(held, state.limit, state.discarding) =~= lines(
            rest,
            state.limit,
            next.discarding,
        ));
    }
}

/// What a framed line comes to: text that still has to be parsed, a line that is skipped,
/// a failure of the input, or its end.
#[verifier::ext_equal]
pub enum ItemView {
    Text(Seq<char>),
    Skipped(Seq<char>),
    Failed(Seq<char>),
    Ended,
}

/// What the item is.
pub open spec fn item_view(item: Result<String, SourceError>) -> ItemView {
    match item {
        Ok(text) => ItemView::Text(text@),
        Err(SourceError::ParseError(detail)) => ItemView::Skipped(detail@),
        Err(SourceError::IoError(detail)) => ItemView::Failed(detail@),
        Err(SourceError::StreamShutdown) => ItemView::Ended,
    }
}

/// What is said of an oversized line.
pub open spec fn oversized_message() -> Seq<char> {
    "line exceeds the maximum length of "@ + decimal(MAX_LINE_BYTES as nat) + " bytes"@
}

/// What becomes of a line that was framed, or of a failure to frame one.
pub fn frame_item(frame: Result<BoundedLine, String>) -> (r: Result<String, SourceError>)
    ensures
        match frame {
            Ok(BoundedLine::Line(line)) => r == Ok::<String, SourceError>(line),
            Ok(BoundedLine::Oversized) => r matches Err(SourceError::ParseError(detail)) && detail@
                == oversized_message(),
            Err(detail) => r == Err::<String, SourceError>(SourceError::IoError(detail)),
        },
{
    match frame {
        Ok(BoundedLine::Line(line)) => Ok(line),
        Ok(BoundedLine::Oversized) => Err(
            SourceError::ParseError(
                concat3(
                    "line exceeds the maximum length of ",
                    decimal_text(MAX_LINE_BYTES as u64).as_str(),
                    " bytes",
                ),
            ),
        ),
        Err(detail) => Err(SourceError::IoError(detail)),
    }
}

/// The items that lines come to. Text that is not UTF-8 is a failure of the input, which
/// ends it; the end is always the last item.
pub open spec fn items(found: Seq<Found>) -> Seq<ItemView>
    decreases found.len(),
{
    if found.len() == 0 {
        seq![ItemView::Ended]
    } else {
        match found[0] {
            Found::Nothing => items(found.drop_first()),
            Found::Oversized => seq![ItemView::Skipped(oversized_message())] + items(
                found.drop_first(),
            ),
            Found::Line(line) => if valid_utf8(line) {
                seq![ItemView::Text(decode_utf8(line))] + items(found.drop_first())
            } else {
                seq![ItemView::Failed("Unable to decode input as UTF8"@), ItemView::Ended]
            },
        }
    }
}

/// `BytesMut::from` copies the bytes into a buffer.
#[verifier::external_body]
fn bytes_buffer(bytes: &[u8]) -> (buffer: BytesMut)
    ensures
        bytes_held(buffer) == bytes@,
{
    BytesMut::from(bytes)
}

/// All items of an input that is held in memory, in order. A text still has to be parsed.
pub fn reader_source(input: &[u8]) -> (r: Vec<Result<String, SourceError>>)
    ensures
        r@.map_values(|item: Result<String, SourceError>| item_view(item)) == items(
            lines(input@, MAX_LINE_BYTES as nat, false),
        ),
{
    let mut codec = BoundedLinesCodec::new(MAX_LINE_BYTES);
    let mut buffer = bytes_buffer(input);
    let mut read: Vec<Result<String, SourceError>> = Vec::new();
    let mut ended: bool = false;
    let ghost wanted = items(lines(input@, MAX_LINE_BYTES as nat, false));
    let ghost view = |item: Result<String, SourceError>| item_view(item);
    assert(read@.map_values(view) =~= Seq::empty());
    loop
        invariant_except_break
            codec@.limit == MAX_LINE_BYTES,
            codec@.fits(bytes_held(buffer)),
            view == (|item: Result<String, SourceError>| item_view(item)),
            wanted =~= read@.map_values(view) + items(
                lines(bytes_held(buffer), MAX_LINE_BYTES as nat, codec@.discarding),
            ),
        ensures
            read@.map_values(view) == wanted,
        decreases
                if ended {
                    0nat
                } else {
                    1
                },
                bytes_held(buffer).len(),
                if codec@.discarding {
                    0nat
                } else {
                    1
                },
    {
        let ghost held = bytes_held(buffer);
        let ghost state = codec@;
        let ghost before = read@;
        proof {
            let nothing = Seq::<u8>::empty();
            law_lines_do_not_depend_on_the_pieces(state, held, nothing);
            law_the_last_lines_are_found(state, held);
            lemma_find_shrinks(state, held);
            assert(held + nothing =~= held);
            assert(state.find(held).2 + nothing =~= state.find(held).2);
        }
        let frame = if ended {
            codec.decode_eof(&mut buffer)
        } else {
            codec.decode(&mut buffer)
        };
        let ghost found = if ended {
            state.find_last(held).0
        } else {
            state.find(held).0
        };
        let ghost left = lines(bytes_held(buffer), MAX_LINE_BYTES as nat, codec@.discarding);
        assert(found !is Nothing ==> (seq![found] + left).drop_first() =~= left);
        match frame {
            Ok(Some(line)) => {
                read.push(frame_item(Ok(line)));
                assert(read@.map_values(view) =~= before.map_values(view).push(view(read@.last())));
            },
            Ok(None) => {
                if ended {
                    read.push(Err(SourceError::StreamShutdown));
                    assert(read@.map_values(view) =~= before.map_values(view).push(
                        view(read@.last()),
                    ));
                    break;
                }
                ended = true;
            },
            Err(detail) => {
                read.push(frame_item(Err(detail)));
                read.push(Err(SourceError::StreamShutdown));
                assert(read@.map_values(view) =~= before.map_values(view) + seq![
                    view(read@[read@.len() - 2]),
                    view(read@.last()),
                ]);
                break;
            },
        }
    }
    read
}

/// A call that finds a line leaves fewer bytes, and one that reports an oversized line
/// leaves fewer or begins to drop them.
proof fn lemma_find_shrinks(state: LinesState, held: Seq<u8>)
    ensures
        ({
            let (found, next, rest) = state.find(held);
            &&& next.limit == state.limit
            &&& rest.len() <= held.len()
            &&& found is Line ==> rest.len() < held.len()
            &&& found is Oversized ==> next.discarding
            &&& found is Oversized && state.discarding ==> rest.len() < held.len()
        }),
        ({
            let (found, next, rest) = state.find_last(held);
            &&& next.limit == state.limit
            &&& rest.len() <= held.len()
            &&& found is Line ==> rest.len() < held.len()
            &&& found is Oversized ==> next.discarding
            &&& found is Oversized && state.discarding ==> rest.len() < held.len()
        }),
{
    held.index_of_first_ensures(NEWLINE);
    if let Some(k) = held.index_of_first(NEWLINE) {
        held.skip(k + 1).index_of_first_ensures(NEWLINE);
    }
}

/// How many bytes a MAC address has.
pub const MAC_BYTES: usize = 6;

/// The first element that is no unsigned byte.
pub open spec fn first_outside(address: Seq<i16>) -> Option<i16>
    decreases address.len(),
{
    if address.len() == 0 {
        None
    } else if !(0 <= address[0] <= 255) {
        Some(address[0])
    } else {
        first_outside(address.drop_first())
    }
}

/// What is wrong with an address, if anything is.
pub open spec fn address_fault(address: Seq<i16>) -> Option<Seq<char>> {
    if address.len() != MAC_BYTES {
        Some("mac_address must have 6 bytes, got "@ + decimal(address.len()))
    } else if first_outside(address) is Some {
        Some(
            "mac_address byte "@ + signed_decimal(first_outside(address)->0 as int)
                + " is outside 0..=255"@,
        )
    } else {
        None
    }
}

/// Checks that the address of a record is made of six unsigned bytes. Elements arrive as
/// JSON numbers, and a larger one would lose bits where the address is written out.
pub fn validate(telemetry: &RuuviTelemetry) -> (r: Result<(), SourceError>)
    ensures
        match address_fault(telemetry.mac_address@) {
            None => r is Ok,
            Some(fault) => r matches Err(SourceError::ParseError(detail)) && detail@ == fault,
        },
{
    let count: usize = telemetry.mac_address.len();
    if count != MAC_BYTES {
        return Err(
            SourceError::ParseError(
                concat(
                    "mac_address must have 6 bytes, got ",
                    decimal_text(count as u64).as_str(),
                ),
            ),
        );
    }
    let mut i: usize = 0;
    assert(telemetry.mac_address@.skip(0) =~= telemetry.mac_address@);
    while i < count
        invariant
            count == telemetry.mac_address@.len(),
            count == MAC_BYTES,
            i <= count,
            first_outside(telemetry.mac_address@) == first_outside(
                telemetry.mac_address@.skip(i as int),
            ),
        decreases count - i,
    {
        let byte: i16 = telemetry.mac_address[i];
        assert(telemetry.mac_address@.skip(i as int).drop_first() =~= telemetry.mac_address@.skip(
            i + 1,
        ));
        if byte < 0 || byte > 255 {
            return Err(
                SourceError::ParseError(
                    concat3(
                        "mac_address byte ",
                        signed_decimal_text(byte).as_str(),
                        " is outside 0..=255",
                    ),
                ),
            );
        }
        i = i + 1;
    }
    Ok(())
}

/// Turns the outcome of parsing a line as JSON into an item of the source: a record whose
/// address is valid, or the reason why the line is skipped.
pub fn parse_line(parsed: Result<RuuviTelemetry, String>) -> (r: Result<
    RuuviTelemetry,
    SourceError,
>)
    ensures
        match parsed {
            Err(detail) => r == Err::<RuuviTelemetry, SourceError>(SourceError::ParseError(detail)),
            Ok(telemetry) => match address_fault(telemetry.mac_address@) {
                None => r == Ok::<RuuviTelemetry, SourceError>(telemetry),
                Some(fault) => r matches Err(SourceError::ParseError(detail)) && detail@ == fault,
            },
        },
{
    match parsed {
        Err(detail) => Err(SourceError::ParseError(detail)),
        Ok(telemetry) => match validate(&telemetry) {
            Ok(()) => Ok(telemetry),
            Err(error) => Err(error),
        },
    }
}

/// A record that is accepted has a proper address.
pub proof fn law_accepted_addresses_are_proper(address: Seq<i16>)
    ensures
        address_fault(address) is None <==> address.len() == 6 && forall|i: int|
            0 <= i < address.len() ==> 0 <= #[trigger] address[i] <= 255,
{
    lemma_first_outside(address);
}

proof fn lemma_first_outside(address: Seq<i16>)
    ensures
        first_outside(address) is None <==> forall|i: int|
            0 <= i < address.len() ==> 0 <= #[trigger] address[i] <= 255,
    decreases address.len(),
{
    if address.len() > 0 {
        let rest = address.drop_first();
        lemma_first_outside(rest);
        assert forall|i: int| 0 <= i < rest.len() implies rest[i] == #[trigger] address[i + 1] by {}
        if first_outside(address) is None {
            assert forall|i: int| 0 <= i < address.len() implies 0 <= #[trigger] address[i]
                <= 255 by {
                if i > 0 {
                    assert(rest[i - 1] == address[i]);
                }
            }
        }
    }
}

/// Input is split at its newlines: the bytes before one are a line, and what is behind it is
/// read as if it came first. A carriage return before the newline is not part of the line. A
/// line with more bytes than the limit is oversized, and what is left of one that was
/// reported before is dropped.
pub proof fn law_lines_end_at_newlines(line: Seq<u8>, rest: Seq<u8>, limit: nat)
    requires
        forall|i: int| 0 <= i < line.len() ==> #[trigger] line[i] != 0x0au8,
    ensures
        ({
            let input = line.push(0x0au8) + rest;
            let behind = lines(rest, limit, false);
            &&& lines(input, limit, true) == behind
            &&& line.len() > limit ==> lines(input, limit, false) == seq![Found::Oversized]
                + behind
            &&& line.len() <= limit && (line.len() == 0 || line.last() != 0x0du8) ==> lines(
                input,
                limit,
                false,
            ) == seq![Found::Line(line)] + behind
            &&& line.len() <= limit && line.len() > 0 && line.last() == 0x0du8 ==> lines(
                input,
                limit,
                false,
            ) == seq![Found::Line(line.drop_last())] + behind
        }),
{
    let input = line.push(0x0au8) + rest;
    input.index_of_first_ensures(NEWLINE);
    assert(input[line.len() as int] == NEWLINE);
    assert(input.contains(NEWLINE));
    let k = input.index_of_first(NEWLINE)->0;
    if k < line.len() {
        assert(line[k] == input[k]);
    }
    assert(k == line.len());
    assert(input.take(k) =~= line);
    assert(input.skip(k + 1) =~= rest);
    assert(Seq::<Found>::empty() + lines(rest, limit, false) =~= lines(rest, limit, false));
}

/// What is behind the last newline is a line too, by the same rules, unless nothing is there
/// or a lone carriage return.
pub proof fn law_the_last_line_needs_no_newline(line: Seq<u8>, limit: nat)
    requires
        forall|i: int| 0 <= i < line.len() ==> #[trigger] line[i] != 0x0au8,
    ensures
        lines(line, limit, true).len() == 0,
        line.len() == 0 ==> lines(line, limit, false).len() == 0,
        line.len() > limit ==> lines(line, limit, false) == seq![Found::Oversized],
        1 == line.len() <= limit && line[0] == 0x0du8 ==> lines(line, limit, false).len() == 0,
        0 < line.len() <= limit && line.last() != 0x0du8 ==> lines(line, limit, false)
            == seq![Found::Line(line)],
        1 < line.len() <= limit && line.last() == 0x0du8 ==> lines(line, limit, false)
            == seq![Found::Line(line.drop_last())],
{
    line.index_of_first_ensures(NEWLINE);
    if line.len() == 1 && line[0] == 0x0du8 {
        assert(line =~= seq![CARRIAGE_RETURN]);
    }
}

/// Whether a line is text, or at least one that is skipped.
pub open spec fn is_readable(found: Found) -> bool {
    match found {
        Found::Nothing => false,
        Found::Oversized => true,
        Found::Line(line) => valid_utf8(line),
    }
}

/// Every line is one item, in order: its text, or that it is skipped for its length. Behind
/// the last of them comes the end, and the end comes nowhere else.
pub proof fn law_each_line_is_an_item(found: Seq<Found>, i: int)
    requires
        forall|j: int| 0 <= j < found.len() ==> is_readable(#[trigger] found[j]),
    ensures
        items(found).len() == found.len() + 1,
        items(found).last() == ItemView::Ended,
        0 <= i < found.len() ==> match found[i] {
            Found::Line(line) => items(found)[i] == ItemView::Text(decode_utf8(line)),
            _ => items(found)[i] == ItemView::Skipped(
                "line exceeds the maximum length of "@ + decimal(65536) + " bytes"@,
            ),
        },
    decreases found.len(),
{
    if found.len() > 0 {
        let rest = found.drop_first();
        assert forall|j: int| 0 <= j < rest.len() implies is_readable(#[trigger] rest[j]) by {
            assert(rest[j] == found[j + 1]);
        }
        assert(is_readable(found[0]));
        law_each_line_is_an_item(rest, i - 1);
        if i > 0 && i < found.len() {
            assert(found[i] == rest[i - 1]);
        }
    }
}

/// A line that is no text is a failure of the input: the items before it are as they were,
/// and nothing is read behind it.
pub proof fn law_input_that_is_no_text_ends(good: Seq<Found>, bad: Seq<u8>, rest: Seq<Found>)
    requires
        forall|j: int| 0 <= j < good.len() ==> is_readable(#[trigger] good[j]),
        !valid_utf8(bad),
    ensures
        items(good.push(Found::Line(bad)) + rest) == items(good).drop_last() + seq![
            ItemView::Failed("Unable to decode input as UTF8"@),
            ItemView::Ended,
        ],
    decreases good.len(),
{
    let all = good.push(Found::Line(bad)) + rest;
    let end: Seq<ItemView> = seq![
        ItemView::Failed("Unable to decode input as UTF8"@),
        ItemView::Ended,
    ];
    if good.len() == 0 {
        assert(all[0] == Found::Line(bad));
        assert(items(good).drop_last() =~= Seq::<ItemView>::empty());
        assert(items(all) =~= items(good).drop_last() + end);
    } else {
        let later = good.drop_first();
        assert forall|j: int| 0 <= j < later.len() implies is_readable(#[trigger] later[j]) by {
            assert(later[j] == good[j + 1]);
        }
        assert(is_readable(good[0]));
        law_input_that_is_no_text_ends(later, bad, rest);
        law_each_line_is_an_item(later, 0);
        assert(all.drop_first() =~= later.push(Found::Line(bad)) + rest);
        assert(all[0] == good[0]);
        assert(items(all) =~= items(good).drop_last() + end);
    }
}

/// What an item is told as.
pub proof fn law_items_are_told_by_what_they_are(text: String)
    ensures
        item_view(Ok(text)) == ItemView::Text(text@),
        item_view(Err(SourceError::ParseError(text))) == ItemView::Skipped(text@),
        item_view(Err(SourceError::IoError(text))) == ItemView::Failed(text@),
        item_view(Err(SourceError::StreamShutdown)) == ItemView::Ended,
{
}

/// What a codec hands out tells what was found: a line exactly where there is one that is
/// text, with that text; that a line is oversized exactly where one is; and a failure exactly
/// where a line is no text.
pub proof fn law_codecs_tell_what_was_found(
    outcome: Result<Option<BoundedLine>, String>,
    found: Found,
)
    requires
        tells_bounded(outcome, found),
    ensures
        (outcome matches Ok(None)) <==> found is Nothing,
        (outcome matches Ok(Some(BoundedLine::Oversized))) <==> found is Oversized,
        outcome matches Ok(Some(BoundedLine::Line(text))) ==> (found matches Found::Line(line)
            && valid_utf8(line) && text@ == decode_utf8(line)),
        outcome is Err <==> (found matches Found::Line(line) && !valid_utf8(line)),
{
}

/// A wrong number of bytes is reported with that number, before the bytes are looked at. Of
/// six, the first that is no unsigned byte is reported.
pub proof fn law_address_faults_name_what_is_wrong(address: Seq<i16>, i: int)
    ensures
        address.len() != 6 ==> address_fault(address) == Some(
            "mac_address must have 6 bytes, got "@ + decimal(address.len()),
        ),
        address.len() == 6 && 0 <= i < 6 && !(0 <= address[i] <= 255) && (forall|j: int|
            0 <= j < i ==> 0 <= #[trigger] address[j] <= 255) ==> address_fault(address) == Some(
            "mac_address byte "@ + signed_decimal(address[i] as int) + " is outside 0..=255"@,
        ),
{
    if address.len() == 6 && 0 <= i < 6 && !(0 <= address[i] <= 255) && (forall|j: int|
        0 <= j < i ==> 0 <= #[trigger] address[j] <= 255) {
        lemma_first_outside_is_first(address, i);
    }
}

proof fn lemma_first_outside_is_first(address: Seq<i16>, i: int)
    requires
        0 <= i < address.len(),
        !(0 <= address[i] <= 255),
        forall|j: int| 0 <= j < i ==> 0 <= #[trigger] address[j] <= 255,
    ensures
        first_outside(address) == Some(address[i]),
    decreases address.len(),
{
    if i > 0 {
        let rest = address.drop_first();
        assert(0 <= address[0] <= 255);
        assert forall|j: int| 0 <= j < i - 1 implies 0 <= #[trigger] rest[j] <= 255 by {
            assert(rest[j] == address[j + 1]);
        }
        lemma_first_outside_is_first(rest, i - 1);
    }
}

/// A record is accepted exactly if it was parsed and its address is six unsigned bytes, and
/// then it is the record that was parsed. Everything else is a line that is skipped.
pub proof fn law_records_are_accepted_unchanged(
    parsed: Result<RuuviTelemetry, String>,
    item: Result<RuuviTelemetry, SourceError>,
)
    requires
        call_ensures(parse_line, (parsed,), item),
    ensures
        item is Ok <==> (parsed matches Ok(telemetry) && telemetry.mac_address@.len() == 6
            && forall|i: int|
            0 <= i < 6 ==> 0 <= #[trigger] telemetry.mac_address@[i] <= 255),
        item is Ok ==> item->Ok_0 == parsed->Ok_0,
        item matches Err(error) ==> error is ParseError,
        parsed matches Err(detail) ==> item == Err::<RuuviTelemetry, SourceError>(
            SourceError::ParseError(detail),
        ),
{
    if let Ok(telemetry) = parsed {
        law_accepted_addresses_are_proper(telemetry.mac_address@);
    }
}

/// A record passes the check exactly if it would be accepted.
pub proof fn law_checked_records_are_accepted(
    telemetry: RuuviTelemetry,
    checked: Result<(), SourceError>,
    item: Result<RuuviTelemetry, SourceError>,
)
    requires
        call_ensures(validate, (&telemetry,), checked),
        call_ensures(parse_line, (Ok(telemetry),), item),
    ensures
        checked is Ok <==> item is Ok,
        checked is Err ==> checked->Err_0 is ParseError && checked->Err_0.spec_message()
            == item->Err_0.spec_message(),
{
}

/// Only an oversized line turns from a fault into an item, and back into a line that is
/// skipped. A line stays the line that it is, and a failure the failure.
pub proof fn law_lines_pass_through(
    result: Result<Option<String>, LineFault>,
    mapped: Result<Option<BoundedLine>, String>,
    frame: Result<BoundedLine, String>,
    item: Result<String, SourceError>,
)
    requires
        call_ensures(map_line, (result,), mapped),
        call_ensures(frame_item, (frame,), item),
    ensures
        result matches Ok(Some(line)) ==> mapped == Ok::<Option<BoundedLine>, String>(
            Some(BoundedLine::Line(line)),
        ),
        result matches Ok(None) ==> mapped == Ok::<Option<BoundedLine>, String>(None),
        result matches Err(LineFault::Io(detail)) ==> mapped == Err::<Option<BoundedLine>, String>(
            detail,
        ),
        result matches Err(fault) && fault is MaxLineLengthExceeded ==> mapped == Ok::<
            Option<BoundedLine>,
            String,
        >(Some(BoundedLine::Oversized)),
        frame matches Ok(BoundedLine::Line(line)) ==> item == Ok::<String, SourceError>(line),
        frame matches Ok(line) && line is Oversized ==> item is Err && item->Err_0 is ParseError,
        frame matches Err(detail) ==> item == Err::<String, SourceError>(
            SourceError::IoError(detail),
        ),
{
}

/// Reading an input ends with its end, once, and reads every line up to there.
pub proof fn law_inputs_are_read_to_their_end(
    input: &[u8],
    read: Vec<Result<String, SourceError>>,
)
    requires
        call_ensures(reader_source, (input,), read),
        forall|j: int|
            0 <= j < lines(input@, 65536, false).len() ==> is_readable(
                #[trigger] lines(input@, 65536, false)[j],
            ),
    ensures
        read@.len() == lines(input@, 65536, false).len() + 1,
        read@.last() matches Err(error) && error is StreamShutdown,
        forall|i: int|
            0 <= i < read@.len() - 1 ==> match lines(input@, 65536, false)[i] {
                Found::Line(line) => #[trigger] read@[i] matches Ok(text) && text@ == decode_utf8(
                    line,
                ),
                _ => read@[i] is Err && read@[i]->Err_0 is ParseError,
            },
{
    let found = lines(input@, 65536, false);
    let view = |item: Result<String, SourceError>| item_view(item);
    let told = read@.map_values(view);
    law_each_line_is_an_item(found, 0);
    assert(told =~= items(found));
    assert(told.len() == read@.len());
    assert(told.last() == item_view(read@.last()));
    assert forall|i: int| 0 <= i < read@.len() - 1 implies match found[i] {
        Found::Line(line) => #[trigger] read@[i] matches Ok(text) && text@ == decode_utf8(line),
        _ => read@[i] is Err && read@[i]->Err_0 is ParseError,
    } by {
        law_each_line_is_an_item(found, i);
        assert(is_readable(found[i]));
        assert(told[i] == item_view(read@[i]));
    }
}

} // verus!
