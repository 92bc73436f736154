//! Reading rows of comma-separated text.

use crate::record::Record;
use vstd::prelude::*;
use vstd::slice::slice_subrange;
use vstd::string::StringSliceAdditionalSpecFns;
use vstd::utf8::{decode_utf8, encode_utf8, valid_utf8};

verus! {

/// The size of the buffer that takes the bytes of a field from the reader.
/// A field may be longer: it then arrives in several parts.
pub const SCRATCH_LEN: usize = 1024;

/// The byte that stands between two fields of a row: the comma.
pub const DELIMITER: u8 = 0x2c;

/// A reader of comma-separated text: a state machine that is fed bytes and
/// hands out the bytes of one field at a time, quotes taken off.
#[verifier::external_type_specification]
#[verifier::external_body]
pub struct ExReader(csv_core::Reader);

/// How one read of a field ended.
#[derive(Debug, Clone, Copy, PartialEq, Eq, Structural)]
pub enum FieldStatus {
    /// The input ran out inside a field.
    InputEmpty,
    /// The buffer ran full inside a field.
    OutputFull,
    /// A field ended, and with it the row where `record_end` holds.
    Field { record_end: bool },
    /// The text has ended.
    End,
}

/// What one read of a field does.
pub struct FieldStep {
    /// How the read ended.
    pub status: FieldStatus,
    /// The number of input bytes that the reader took.
    pub consumed: nat,
    /// The bytes of the field that the reader handed out.
    pub written: Seq<u8>,
    /// The state in which the read left the reader.
    pub next: int,
}

/// The state of a reader, as a number. Which number stands for which state
/// is left open.
pub uninterp spec fn reader_state(reader: csv_core::Reader) -> int;

/// The state of a reader that `csv_core::ReaderBuilder` has built for the
/// delimiter `delimiter` and that has read nothing yet.
pub uninterp spec fn built_state(delimiter: u8) -> int;

/// What `csv_core::Reader::read_field` does when it is called on a reader in
/// `state` with `input` and a buffer of `room` bytes.
pub uninterp spec fn read_field_step(state: int, input: Seq<u8>, room: nat) -> FieldStep;

/// Builds a reader with `csv_core::ReaderBuilder`, which is set to
/// `delimiter` between fields and left as it is for the rest: the double
/// quote for quoting, a doubled quote for a quote inside a quoted field, and
/// `\r`, `\n` or `\r\n` at the end of a row. Two readers built for the same
/// delimiter start in the same state, which the contract names.
#[verifier::external_body]
fn new_reader(delimiter: u8) -> (reader: csv_core::Reader)
    ensures
        reader_state(reader) == built_state(delimiter),
{
    csv_core::ReaderBuilder::new().delimiter(delimiter).build()
}

/// Calls `csv_core::Reader::read_field` with `scratch` as the buffer for the
/// field's bytes, and returns how the read ended, the number of bytes taken
/// from `input` and the number of bytes put at the start of `scratch`. The
/// call is a function of the reader's state, the input and the size of the
/// buffer: the contract names what it does. Of that it states two things
/// that the reader's source shows: the reader takes no more bytes than the
/// input has and hands out no more than the buffer holds, and, the buffer
/// having room, from an input that is not empty it takes at least one byte.
#[verifier::external_body]
fn read_field(
    reader: &mut csv_core::Reader,
    input: &[u8],
    scratch: &mut [u8; SCRATCH_LEN],
) -> (read: (FieldStatus, usize, usize))
    ensures
        ({
            let step = read_field_step(reader_state(*old(reader)), input@, SCRATCH_LEN as nat);
            &&& read.0 == step.status
            &&& read.1 == step.consumed
            &&& read.2 == step.written.len()
            &&& final(scratch)@.take(read.2 as int) == step.written
            &&& reader_state(*final(reader)) == step.next
        }),
        read.1 <= input@.len(),
        read.2 <= SCRATCH_LEN,
        input@.len() > 0 ==> read.1 >= 1,
{
    let (result, consumed, written) = reader.read_field(input, &mut scratch[..]);
    let status = match result {
        csv_core::ReadFieldResult::InputEmpty => FieldStatus::InputEmpty,
        csv_core::ReadFieldResult::OutputFull => FieldStatus::OutputFull,
        csv_core::ReadFieldResult::Field { record_end } => FieldStatus::Field { record_end },
        csv_core::ReadFieldResult::End => FieldStatus::End,
    };
    (status, consumed, written)
}

/// Decodes `bytes` with `core::str::from_utf8`, which accepts exactly the
/// valid UTF-8 and gives the text that the bytes encode.
#[verifier::external_body]
fn decode_text(bytes: &[u8]) -> (text: Option<String>)
    ensures
        valid_utf8(bytes@) ==> text is Some && text->0@ == decode_utf8(bytes@),
        !valid_utf8(bytes@) ==> text is None,
{
    match core::str::from_utf8(bytes) {
        Ok(text) => Some(text.to_owned()),
        Err(_) => None,
    }
}

/// What a `RowBuilder` holds.
pub struct RowBuilderView {
    /// The bytes that have arrived of a field that has not ended yet.
    pub pending: Seq<u8>,
    /// The fields that have ended, in the order in which they arrived.
    pub fields: Seq<Seq<char>>,
    /// Whether the bytes of some field were no valid text.
    pub failed: bool,
    /// Whether the row has ended.
    pub complete: bool,
}

/// A builder that has taken nothing yet.
pub open spec fn empty_builder() -> RowBuilderView {
    RowBuilderView { pending: Seq::empty(), fields: Seq::empty(), failed: false, complete: false }
}

/// The builder after the field that is pending has ended: its bytes become
/// the next field where they are valid UTF-8 and make the row fail where
/// they are not. With `record_end` the row is complete.
pub open spec fn field_closed(builder: RowBuilderView, record_end: bool) -> RowBuilderView {
    RowBuilderView {
        pending: Seq::empty(),
        fields: if valid_utf8(builder.pending) {
            builder.fields.push(decode_utf8(builder.pending))
        } else {
            builder.fields
        },
        failed: builder.failed || !valid_utf8(builder.pending),
        complete: record_end,
    }
}

/// The builder after the text has ended: bytes that are still pending make
/// the last field, and the row is complete.
pub open spec fn finished(builder: RowBuilderView) -> RowBuilderView {
    if builder.complete {
        builder
    } else if builder.pending.len() > 0 {
        field_closed(builder, true)
    } else {
        RowBuilderView { complete: true, ..builder }
    }
}

/// The builder after a read that ended with `status` and handed out
/// `chunk`. A complete row takes nothing more.
pub open spec fn accepted(builder: RowBuilderView, status: FieldStatus, chunk: Seq<u8>)
    -> RowBuilderView {
    if builder.complete {
        builder
    } else {
        let grown = RowBuilderView { pending: builder.pending + chunk, ..builder };
        match status {
            FieldStatus::InputEmpty => grown,
            FieldStatus::OutputFull => grown,
            FieldStatus::Field { record_end } => field_closed(grown, record_end),
            FieldStatus::End => finished(grown),
        }
    }
}

/// The row that a builder gives once the text has ended, or `None` where
/// the bytes of one of its fields were no valid text.
pub open spec fn built_row(builder: RowBuilderView) -> Option<Seq<Seq<char>>> {
    let last = finished(builder);
    if last.failed {
        None
    } else {
        Some(last.fields)
    }
}

/// Collects the fields of one row as the reader hands them out, part by
/// part. The row can be taken only as a whole.
pub struct RowBuilder {
    pending: Vec<u8>,
    row: Record,
    failed: bool,
    complete: bool,
}

impl View for RowBuilder {
    type V = RowBuilderView;

    closed spec fn view(&self) -> RowBuilderView {
        RowBuilderView {
            pending: self.pending@,
            fields: self.row@,
            failed: self.failed,
            complete: self.complete,
        }
    }
}

impl RowBuilder {
    /// A builder that has taken nothing yet.
    pub fn new() -> (builder: RowBuilder)
        ensures
            builder@ == empty_builder(),
    {
        RowBuilder { pending: Vec::new(), row: Record::new(), failed: false, complete: false }
    }

    /// Whether the row has ended.
    pub fn is_complete(&self) -> (complete: bool)
        ensures
            complete == self@.complete,
    {
        self.complete
    }

    /// Ends the field that is pending.
    fn close_field(&mut self, record_end: bool)
        ensures
            final(self)@ == field_closed(old(self)@, record_end),
    {
        match decode_text(self.pending.as_slice()) {
            Some(text) => {
                self.row.push_field(text.as_str());
            },
            None => {
                self.failed = true;
            },
        }
        self.pending.clear();
        self.complete = record_end;
    }

    /// Takes what one read gave: `chunk` is the part of a field that the
    /// read handed out, `status` says how the read ended.
    pub fn accept(&mut self, status: FieldStatus, chunk: &[u8])
        ensures
            final(self)@ == accepted(old(self)@, status, chunk@),
    {
        if self.complete {
            return ;
        }
        self.pending.extend_from_slice(chunk);
        assert(self.pending@ =~= old(self).pending@ + chunk@);
        match status {
            FieldStatus::InputEmpty => {},
            FieldStatus::OutputFull => {},
            FieldStatus::Field { record_end } => {
                self.close_field(record_end);
            },
            FieldStatus::End => {
                self.close();
            },
        }
    }

    /// Ends the row.
    fn close(&mut self)
        ensures
            final(self)@ == finished(old(self)@),
    {
        if !self.complete {
            if self.pending.len() > 0 {
                self.close_field(true);
            } else {
                self.complete = true;
            }
        }
    }

    /// Whether the builder has taken nothing of a row.
    pub fn is_blank(&self) -> (blank: bool)
        ensures
            blank == is_blank(self@),
    {
        self.pending.len() == 0 && self.row.len() == 0 && !self.failed
    }

    /// Ends the row and hands it out, or `None` where the bytes of one of
    /// its fields were no valid text.
    pub fn finish(self) -> (row: Option<Record>)
        ensures
            row_text(row) == built_row(self@),
    {
        let mut builder = self;
        builder.close();
        if builder.failed {
            None
        } else {
            Some(builder.row)
        }
    }
}

/// The fields of a row that was read, where there is one.
pub open spec fn row_text(row: Option<Record>) -> Option<Seq<Seq<char>>> {
    match row {
        Some(record) => Some(record@),
        None => None,
    }
}

/// The fields of each row of a table that was read.
pub open spec fn table_text(rows: Seq<Option<Record>>) -> Seq<Option<Seq<Seq<char>>>> {
    Seq::new(rows.len(), |i: int| row_text(rows[i]))
}

/// Whether a builder has taken nothing of a row.
pub open spec fn is_blank(builder: RowBuilderView) -> bool {
    builder.pending.len() == 0 && builder.fields.len() == 0 && !builder.failed
}

/// The table once the text has ended: what `builder` holds makes the last
/// row, and a blank builder makes none.
pub open spec fn table_closed(
    rows: Seq<Option<Seq<Seq<char>>>>,
    builder: RowBuilderView,
) -> Seq<Option<Seq<Seq<char>>>> {
    if is_blank(builder) {
        rows
    } else {
        rows.push(built_row(builder))
    }
}

/// The table that a reader in `state` reads from `input`, behind the rows
/// in `rows` and the part of a row in `builder`. One read follows the other,
/// each on the input that the reads before it left. What a read hands out
/// goes to the builder; a row that this completes goes to the table, and the
/// next row starts blank. The reads stop when the reader reports the end of
/// the text, or after the read that found the input empty.
pub open spec fn read_table(
    state: int,
    input: Seq<u8>,
    builder: RowBuilderView,
    rows: Seq<Option<Seq<Seq<char>>>>,
) -> Seq<Option<Seq<Seq<char>>>>
    decreases input.len(),
{
    let step = read_field_step(state, input, SCRATCH_LEN as nat);
    if step.status == FieldStatus::End {
        table_closed(rows, builder)
    } else {
        let after = accepted(builder, step.status, step.written);
        let next_rows = if after.complete {
            rows.push(built_row(after))
        } else {
            rows
        };
        let next_builder = if after.complete {
            empty_builder()
        } else {
            after
        };
        if 1 <= step.consumed <= input.len() {
            read_table(step.next, input.skip(step.consumed as int), next_builder, next_rows)
        } else {
            table_closed(next_rows, next_builder)
        }
    }
}

/// The rows of the comma-separated text `input`, in the order of the text.
/// A row is `None` where the bytes of one of its fields are no valid text.
pub open spec fn parsed_table(input: Seq<u8>) -> Seq<Option<Seq<Seq<char>>>> {
    read_table(built_state(DELIMITER), input, empty_builder(), Seq::empty())
}

/// The first row of a table, and a row without fields for a table without
/// rows.
pub open spec fn first_row(rows: Seq<Option<Seq<Seq<char>>>>) -> Option<Seq<Seq<char>>> {
    if rows.len() == 0 {
        Some(Seq::empty())
    } else {
        rows[0]
    }
}

/// Adds the row that `builder` holds to `rows`, unless the builder is blank.
fn close_table(rows: &mut Vec<Option<Record>>, builder: RowBuilder)
    ensures
        table_text(final(rows)@) == table_closed(table_text(old(rows)@), builder@),
{
    if !builder.is_blank() {
        rows.push(builder.finish());
        assert(table_text(rows@) =~= table_text(old(rows)@).push(built_row(builder@)));
    }
}

/// Reads the rows of the comma-separated bytes `input`. The bytes of a
/// field pass through a buffer of `SCRATCH_LEN` bytes, whatever the length
/// of the field.
pub fn parse_csv_table(input: &[u8]) -> (rows: Vec<Option<Record>>)
    ensures
        table_text(rows@) == parsed_table(input@),
{
    let mut reader = new_reader(DELIMITER);
    let mut scratch = [0u8; SCRATCH_LEN];
    let mut rows: Vec<Option<Record>> = Vec::new();
    let mut builder = RowBuilder::new();
    let mut pos: usize = 0;
    assert(input@.skip(0) =~= input@);
    assert(table_text(rows@) =~= Seq::empty());
    loop
        invariant_except_break
            pos <= input@.len(),
            !builder@.complete,
            read_table(
                reader_state(reader),
                input@.skip(pos as int),
                builder@,
                table_text(rows@),
            ) == parsed_table(input@),
        ensures
            table_text(rows@) == parsed_table(input@),
        decreases input@.len() - pos,
    {
        let rest = slice_subrange(input, pos, input.len());
        assert(rest@ =~= input@.skip(pos as int));
        let (status, consumed, written) = read_field(&mut reader, rest, &mut scratch);
        if let FieldStatus::End = status {
            close_table(&mut rows, builder);
            break ;
        }
        let chunk = slice_subrange(scratch.as_slice(), 0, written);
        assert(chunk@ =~= scratch@.take(written as int));
        builder.accept(status, chunk);
        if builder.is_complete() {
            let ghost before = table_text(rows@);
            let ghost done = builder@;
            rows.push(builder.finish());
            builder = RowBuilder::new();
            assert(table_text(rows@) =~= before.push(built_row(done)));
        }
        if pos >= input.len() {
            close_table(&mut rows, builder);
            break ;
        }
        assert(input@.skip(pos as int).skip(consumed as int) =~= input@.skip(pos + consumed));
        pos = pos + consumed;
    }
    rows
}

/// Reads the first row of the comma-separated text `input`. A text without
/// a row gives a row without fields.
pub fn parse_csv_record(input: &str) -> (row: Option<Record>)
    ensures
        row_text(row) == first_row(parsed_table(encode_utf8(input@))),
{
    let mut rows = parse_csv_table(input.as_bytes());
    if rows.len() == 0 {
        Some(Record::new())
    } else {
        rows.swap_remove(0)
    }
}

} // verus!
