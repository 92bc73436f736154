//! The pipeline over a whole table.

use crate::decimal::decimal_text;
use crate::patient::{
    lemma_projection_succeeds_iff_projectable, projectable, record_of, row_of, PatientRecord,
    SourceRow, SourceRowView, EMAIL_ADDRESS, FIELD_COUNT, FIRST_NAME, LAST_NAME,
    MEDICAL_RECORD_NUMBER, MIDDLE_INITIALS, TELEPHONE_NUMBER,
};
use crate::record::Record;
use crate::redact::{apply_hipaa_deidentification, redacted, sentinel};
use crate::token::CorrelationToken;
use vstd::prelude::*;

verus! {

/// What a table of source rows holds.
pub open spec fn rows_view(rows: Seq<SourceRow>) -> Seq<SourceRowView> {
    Seq::new(rows.len(), |i: int| rows[i]@)
}

/// The texts of a sequence of tokens.
pub open spec fn tokens_view(tokens: Seq<CorrelationToken>) -> Seq<Seq<char>> {
    Seq::new(tokens.len(), |i: int| tokens[i]@)
}

/// What a table of rows holds.
pub open spec fn table_view(table: Seq<Record>) -> Seq<Seq<Seq<char>>> {
    Seq::new(table.len(), |i: int| table[i]@)
}

/// The row that is written for `row` under `token`: the redacted form of
/// the record that `row` projects to.
pub open spec fn redacted_row(row: SourceRowView, token: Seq<char>) -> Seq<Seq<char>> {
    row_of(redacted(record_of(row, token)))
}

/// The redacted table for `rows`, the `i`-th row taken under the `i`-th
/// token: one row for each row that is projectable, in the order of `rows`,
/// and none for the others.
pub open spec fn output_table(rows: Seq<SourceRowView>, tokens: Seq<Seq<char>>) -> Seq<
    Seq<Seq<char>>,
>
    decreases rows.len(),
{
    if rows.len() == 0 {
        Seq::empty()
    } else {
        let before = output_table(rows.drop_last(), tokens);
        if projectable(rows.last()) {
            before.push(redacted_row(rows.last(), tokens[rows.len() - 1]))
        } else {
            before
        }
    }
}

/// The number of rows that are not projectable.
pub open spec fn failure_count(rows: Seq<SourceRowView>) -> nat
    decreases rows.len(),
{
    if rows.len() == 0 {
        0
    } else if projectable(rows.last()) {
        failure_count(rows.drop_last())
    } else {
        failure_count(rows.drop_last()) + 1
    }
}

/// Every row either appears in the redacted table or is counted as a
/// failure, and none is both.
pub proof fn lemma_rows_are_conserved(rows: Seq<SourceRowView>, tokens: Seq<Seq<char>>)
    ensures
        output_table(rows, tokens).len() + failure_count(rows) == rows.len(),
    decreases rows.len(),
{
    if rows.len() > 0 {
        lemma_rows_are_conserved(rows.drop_last(), tokens);
    }
}

/// Whatever a row held, the row that comes out for it has the sentinel in
/// the place of each name, of the e-mail address and of the telephone
/// number, and `0` in the place of the medical record number. In a row that
/// comes out each attribute stands one place behind its place in a source
/// row, behind the token.
pub proof fn lemma_output_row_holds_no_identifier(row: SourceRowView, token: Seq<char>)
    ensures
        redacted_row(row, token).len() == FIELD_COUNT + 1,
        redacted_row(row, token)[FIRST_NAME + 1] == sentinel(),
        redacted_row(row, token)[MIDDLE_INITIALS + 1] == sentinel(),
        redacted_row(row, token)[LAST_NAME + 1] == sentinel(),
        redacted_row(row, token)[EMAIL_ADDRESS + 1] == sentinel(),
        redacted_row(row, token)[TELEPHONE_NUMBER + 1] == sentinel(),
        redacted_row(row, token)[MEDICAL_RECORD_NUMBER + 1] == seq!['0'],
{
    assert(decimal_text(0) =~= seq!['0']);
}

/// The row that comes out for a projectable row of the input stands at the
/// position of that row less the number of failures before it, and starts
/// with the token at the position of that row.
pub proof fn lemma_output_row_is_bound_to_its_token(
    rows: Seq<SourceRowView>,
    tokens: Seq<Seq<char>>,
    i: int,
)
    requires
        0 <= i < rows.len(),
        projectable(rows[i]),
    ensures
        0 <= i - failure_count(rows.take(i)) < output_table(rows, tokens).len(),
        output_table(rows, tokens)[i - failure_count(rows.take(i))] == redacted_row(
            rows[i],
            tokens[i],
        ),
        redacted_row(rows[i], tokens[i])[0] == tokens[i],
    decreases rows.len(),
{
    let before = rows.drop_last();
    lemma_rows_are_conserved(before, tokens);
    if i == rows.len() - 1 {
        assert(rows.take(i) =~= before);
    } else {
        assert(before.take(i) =~= rows.take(i));
        lemma_output_row_is_bound_to_its_token(before, tokens, i);
    }
}

/// Why a table could not be processed: it has `rows` rows, and only
/// `tokens` tokens were issued for them.
#[derive(Debug, Clone, Copy, PartialEq, Eq, Structural)]
pub struct TokenShortage {
    pub rows: usize,
    pub tokens: usize,
}

/// Projects, redacts and writes back each row of `rows`, the `i`-th under
/// the `i`-th token. A row that cannot be projected is left out and counted.
/// Returns the redacted table and the number of rows left out.
pub fn process(rows: &Vec<SourceRow>, tokens: &Vec<CorrelationToken>) -> (out: (
    Vec<Record>,
    usize,
))
    requires
        tokens@.len() >= rows@.len(),
    ensures
        table_view(out.0@) == output_table(rows_view(rows@), tokens_view(tokens@)),
        out.1 == failure_count(rows_view(rows@)),
        out.0@.len() + out.1 == rows@.len(),
{
    let mut table: Vec<Record> = Vec::new();
    let mut failures: usize = 0;
    let mut i: usize = 0;
    while i < rows.len()
        invariant
            i <= rows@.len() <= tokens@.len(),
            table_view(table@) == output_table(
                rows_view(rows@).take(i as int),
                tokens_view(tokens@),
            ),
            failures == failure_count(rows_view(rows@).take(i as int)),
            table@.len() + failures == i,
        decreases rows@.len() - i,
    {
        let ghost done = rows_view(rows@).take(i as int);
        let ghost next = rows_view(rows@).take(i + 1);
        assert(next.drop_last() =~= done);
        assert(next.last() == rows@[i as int]@);
        proof {
            lemma_projection_succeeds_iff_projectable(rows@[i as int]@, tokens@[i as int]@);
        }
        match PatientRecord::from_record(&rows[i], &tokens[i]) {
            Ok(mut record) => {
                apply_hipaa_deidentification(&mut record);
                let row = record.to_record();
                table.push(row);
                assert(table_view(table@) =~= output_table(next, tokens_view(tokens@)));
            },
            Err(_) => {
                failures = failures + 1;
            },
        }
        i = i + 1;
    }
    assert(rows_view(rows@).take(i as int) =~= rows_view(rows@));
    (table, failures)
}

/// Processes `rows` as `process` does where a token was issued for every
/// row, and refuses the table as a whole where the tokens fall short: no
/// row is processed then.
pub fn run(rows: &Vec<SourceRow>, tokens: &Vec<CorrelationToken>) -> (out: Result<
    (Vec<Record>, usize),
    TokenShortage,
>)
    ensures
        tokens@.len() < rows@.len() ==> out == Err::<(Vec<Record>, usize), _>(
            TokenShortage { rows: rows.len(), tokens: tokens.len() },
        ),
        tokens@.len() >= rows@.len() ==> out is Ok && table_view(out->Ok_0.0@) == output_table(
            rows_view(rows@),
            tokens_view(tokens@),
        ) && out->Ok_0.1 == failure_count(rows_view(rows@)) && out->Ok_0.0@.len() + out->Ok_0.1
            == rows@.len(),
{
    if tokens.len() < rows.len() {
        Err(TokenShortage { rows: rows.len(), tokens: tokens.len() })
    } else {
        Ok(process(rows, tokens))
    }
}

} // verus!
