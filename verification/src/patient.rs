//! Patient records and their projection from and to rows.

use crate::decimal::{decimal_text, format_u32, lemma_decimal_round_trip, parse_u32, parsed_u32};
use crate::ratio::Ratio;
use crate::record::Record;
use crate::token::CorrelationToken;
use vstd::prelude::*;

verus! {

/// The number of fields that a row must have to be projected.
pub const FIELD_COUNT: usize = 16;

/// The position of the first name in a source row.
pub const FIRST_NAME: usize = 0;

/// The position of the middle initials in a source row.
pub const MIDDLE_INITIALS: usize = 1;

/// The position of the last name in a source row.
pub const LAST_NAME: usize = 2;

/// The position of the e-mail address in a source row.
pub const EMAIL_ADDRESS: usize = 3;

/// The position of the zip code in a source row.
pub const ZIP_CODE: usize = 4;

/// The position of the telephone number in a source row.
pub const TELEPHONE_NUMBER: usize = 5;

/// The position of the medical record number in a source row.
pub const MEDICAL_RECORD_NUMBER: usize = 6;

/// The position of the number of pregnancies in a source row.
pub const PREGNANCIES: usize = 7;

/// The position of the glucose level in a source row.
pub const GLUCOSE: usize = 8;

/// The position of the blood pressure in a source row.
pub const BLOOD_PRESSURE: usize = 9;

/// The position of the skin thickness in a source row.
pub const SKIN_THICKNESS: usize = 10;

/// The position of the insulin level in a source row.
pub const INSULIN: usize = 11;

/// The position of the body mass index in a source row.
pub const BMI: usize = 12;

/// The position of the diabetes pedigree ratio in a source row.
pub const DIABETES_PEDIGREE: usize = 13;

/// The position of the age in a source row.
pub const AGE: usize = 14;

/// The position of the outcome in a source row.
pub const OUTCOME: usize = 15;

/// One row of the source table, together with what its two floating-point
/// fields stand for. `bmi` is the measurement decoded from the field at
/// `BMI`, or `None` where the row has no such field or its text is no
/// floating-point number; `diabetes_pedigree` is the same for the field at
/// `DIABETES_PEDIGREE`.
#[derive(Debug, PartialEq, Eq)]
pub struct SourceRow {
    pub record: Record,
    pub bmi: Option<Ratio>,
    pub diabetes_pedigree: Option<Ratio>,
}

/// What a `SourceRow` holds.
pub struct SourceRowView {
    pub fields: Seq<Seq<char>>,
    pub bmi: Option<Seq<char>>,
    pub diabetes_pedigree: Option<Seq<char>>,
}

/// The text of a decoded measurement, where there is one.
pub open spec fn ratio_text(ratio: Option<Ratio>) -> Option<Seq<char>> {
    match ratio {
        Some(r) => Some(r@),
        None => None,
    }
}

impl View for SourceRow {
    type V = SourceRowView;

    open spec fn view(&self) -> SourceRowView {
        SourceRowView {
            fields: self.record@,
            bmi: ratio_text(self.bmi),
            diabetes_pedigree: ratio_text(self.diabetes_pedigree),
        }
    }
}

impl SourceRow {
    /// The source row that stands for a row whose text could not be read:
    /// it has no fields, so that it cannot be projected.
    pub fn unreadable() -> (row: SourceRow)
        ensures
            row@.fields.len() == 0,
            row@.bmi is None,
            row@.diabetes_pedigree is None,
            !projectable(row@),
    {
        let row = SourceRow { record: Record::new(), bmi: None, diabetes_pedigree: None };
        assert(!field_ok(row@, 0));
        row
    }
}

/// The typed form of one row: the correlation token issued for it, six
/// identifying attributes and nine medical measurements.
#[derive(Debug, PartialEq, Eq)]
pub struct PatientRecord {
    pub token: CorrelationToken,
    pub first_name: String,
    pub middle_initials: String,
    pub last_name: String,
    pub email_address: String,
    pub zip_code: String,
    pub telephone_number: String,
    pub medical_record_number: u32,
    pub pregnancies: u32,
    pub glucose: u32,
    pub blood_pressure: u32,
    pub skin_thickness: u32,
    pub insulin: u32,
    pub bmi: Ratio,
    pub diabetes_pedigree: Ratio,
    pub age: u32,
    pub outcome: u32,
}

/// What a `PatientRecord` holds.
pub struct PatientRecordView {
    pub token: Seq<char>,
    pub first_name: Seq<char>,
    pub middle_initials: Seq<char>,
    pub last_name: Seq<char>,
    pub email_address: Seq<char>,
    pub zip_code: Seq<char>,
    pub telephone_number: Seq<char>,
    pub medical_record_number: u32,
    pub pregnancies: u32,
    pub glucose: u32,
    pub blood_pressure: u32,
    pub skin_thickness: u32,
    pub insulin: u32,
    pub bmi: Seq<char>,
    pub diabetes_pedigree: Seq<char>,
    pub age: u32,
    pub outcome: u32,
}

impl View for PatientRecord {
    type V = PatientRecordView;

    open spec fn view(&self) -> PatientRecordView {
        PatientRecordView {
            token: self.token@,
            first_name: self.first_name@,
            middle_initials: self.middle_initials@,
            last_name: self.last_name@,
            email_address: self.email_address@,
            zip_code: self.zip_code@,
            telephone_number: self.telephone_number@,
            medical_record_number: self.medical_record_number,
            pregnancies: self.pregnancies,
            glucose: self.glucose,
            blood_pressure: self.blood_pressure,
            skin_thickness: self.skin_thickness,
            insulin: self.insulin,
            bmi: self.bmi@,
            diabetes_pedigree: self.diabetes_pedigree@,
            age: self.age,
            outcome: self.outcome,
        }
    }
}

/// Why a row could not be projected: `field` is the position of the first
/// field that the row lacks or whose text does not stand for a value of the
/// field's type.
#[derive(Debug, Clone, Copy, PartialEq, Eq, Structural)]
pub struct ProjectionError {
    pub field: usize,
}

/// Whether the field at position `i` holds an unsigned number.
pub open spec fn is_count_field(i: int) -> bool {
    MEDICAL_RECORD_NUMBER <= i <= INSULIN || i == AGE || i == OUTCOME
}

/// Whether `row` has a field at position `i` that stands for a value of the
/// type that this position has.
pub open spec fn field_ok(row: SourceRowView, i: int) -> bool {
    &&& 0 <= i < row.fields.len()
    &&& is_count_field(i) ==> parsed_u32(row.fields[i]) is Some
    &&& i == BMI ==> row.bmi is Some
    &&& i == DIABETES_PEDIGREE ==> row.diabetes_pedigree is Some
}

/// Whether all the fields that a projection reads are in order.
pub open spec fn projectable(row: SourceRowView) -> bool {
    forall|i: int| 0 <= i < FIELD_COUNT ==> field_ok(row, i)
}

/// The first position at or behind `from` whose field is not in order, or
/// `FIELD_COUNT` where the fields from `from` on are all in order.
pub open spec fn first_bad_field(row: SourceRowView, from: int) -> int
    decreases FIELD_COUNT - from,
{
    if from >= FIELD_COUNT {
        FIELD_COUNT as int
    } else if !field_ok(row, from) {
        from
    } else {
        first_bad_field(row, from + 1)
    }
}

/// The record that the fields of `row` stand for under `token`, where
/// `row` is projectable.
pub open spec fn record_of(row: SourceRowView, token: Seq<char>) -> PatientRecordView {
    PatientRecordView {
        token,
        first_name: row.fields[FIRST_NAME as int],
        middle_initials: row.fields[MIDDLE_INITIALS as int],
        last_name: row.fields[LAST_NAME as int],
        email_address: row.fields[EMAIL_ADDRESS as int],
        zip_code: row.fields[ZIP_CODE as int],
        telephone_number: row.fields[TELEPHONE_NUMBER as int],
        medical_record_number: parsed_u32(row.fields[MEDICAL_RECORD_NUMBER as int]).unwrap(),
        pregnancies: parsed_u32(row.fields[PREGNANCIES as int]).unwrap(),
        glucose: parsed_u32(row.fields[GLUCOSE as int]).unwrap(),
        blood_pressure: parsed_u32(row.fields[BLOOD_PRESSURE as int]).unwrap(),
        skin_thickness: parsed_u32(row.fields[SKIN_THICKNESS as int]).unwrap(),
        insulin: parsed_u32(row.fields[INSULIN as int]).unwrap(),
        bmi: row.bmi.unwrap(),
        diabetes_pedigree: row.diabetes_pedigree.unwrap(),
        age: parsed_u32(row.fields[AGE as int]).unwrap(),
        outcome: parsed_u32(row.fields[OUTCOME as int]).unwrap(),
    }
}

/// What projecting `row` under `token` gives: the record that the fields
/// stand for where all of them are in order, and else the position of the
/// first one that is not.
pub open spec fn projection(row: SourceRowView, token: Seq<char>) -> Result<
    PatientRecordView,
    ProjectionError,
> {
    let bad = first_bad_field(row, 0);
    if bad < FIELD_COUNT {
        Err(ProjectionError { field: bad as usize })
    } else {
        Ok(record_of(row, token))
    }
}

/// What the outcome of a projection holds.
pub open spec fn projection_view(projected: Result<PatientRecord, ProjectionError>) -> Result<
    PatientRecordView,
    ProjectionError,
> {
    match projected {
        Ok(record) => Ok(record@),
        Err(error) => Err(error),
    }
}

/// The first bad field behind `from` lies between `from` and `FIELD_COUNT`,
/// it is not in order where it lies below `FIELD_COUNT`, and every field
/// between `from` and it is in order.
pub proof fn lemma_first_bad_field(row: SourceRowView, from: int)
    requires
        0 <= from <= FIELD_COUNT,
    ensures
        from <= first_bad_field(row, from) <= FIELD_COUNT,
        first_bad_field(row, from) < FIELD_COUNT ==> !field_ok(row, first_bad_field(row, from)),
        forall|j: int| from <= j < first_bad_field(row, from) ==> field_ok(row, j),
    decreases FIELD_COUNT - from,
{
    if from < FIELD_COUNT && field_ok(row, from) {
        lemma_first_bad_field(row, from + 1);
    }
}

/// A projection succeeds exactly for the rows that are projectable.
pub proof fn lemma_projection_succeeds_iff_projectable(row: SourceRowView, token: Seq<char>)
    ensures
        projection(row, token) is Ok <==> projectable(row),
{
    lemma_first_bad_field(row, 0);
}

/// The row that `record` is written as: the token, then the sixteen
/// attributes in the order of a source row, numbers in base ten.
pub open spec fn row_of(record: PatientRecordView) -> Seq<Seq<char>> {
    seq![
        record.token,
        record.first_name,
        record.middle_initials,
        record.last_name,
        record.email_address,
        record.zip_code,
        record.telephone_number,
        decimal_text(record.medical_record_number as nat),
        decimal_text(record.pregnancies as nat),
        decimal_text(record.glucose as nat),
        decimal_text(record.blood_pressure as nat),
        decimal_text(record.skin_thickness as nat),
        decimal_text(record.insulin as nat),
        record.bmi,
        record.diabetes_pedigree,
        decimal_text(record.age as nat),
        decimal_text(record.outcome as nat),
    ]
}

/// The source row that a written row goes back to: the row without its
/// token, each measurement decoded to the text that the row holds for it.
pub open spec fn source_of(record: PatientRecordView) -> SourceRowView {
    SourceRowView {
        fields: row_of(record).skip(1),
        bmi: Some(record.bmi),
        diabetes_pedigree: Some(record.diabetes_pedigree),
    }
}

/// A record that was written as a row and is projected again, under the
/// same token and with each measurement decoded to the text that was
/// written for it, comes back field for field.
pub proof fn lemma_round_trip(record: PatientRecordView)
    ensures
        projection(source_of(record), record.token) == Ok::<_, ProjectionError>(record),
{
    let row = source_of(record);
    lemma_decimal_round_trip(record.medical_record_number);
    lemma_decimal_round_trip(record.pregnancies);
    lemma_decimal_round_trip(record.glucose);
    lemma_decimal_round_trip(record.blood_pressure);
    lemma_decimal_round_trip(record.skin_thickness);
    lemma_decimal_round_trip(record.insulin);
    lemma_decimal_round_trip(record.age);
    lemma_decimal_round_trip(record.outcome);
    assert(row.fields.len() == 16);
    assert forall|i: int| 0 <= i < FIELD_COUNT implies field_ok(row, i) by {
        assert(row.fields[i] == row_of(record)[i + 1]);
    }
    lemma_first_bad_field(row, 0);
}

/// The text of the field at `index`.
fn text_at(record: &Record, index: usize) -> (field: Result<String, ProjectionError>)
    ensures
        index < record@.len() ==> field is Ok && field->Ok_0@ == record@[index as int],
        index >= record@.len() ==> field == Err::<String, _>(ProjectionError { field: index }),
{
    match record.get(index) {
        Some(text) => Ok(text.to_owned()),
        None => Err(ProjectionError { field: index }),
    }
}

/// The number that the field at `index` stands for.
fn count_at(record: &Record, index: usize) -> (field: Result<u32, ProjectionError>)
    ensures
        field is Ok ==> index < record@.len() && parsed_u32(record@[index as int]) == Some(
            field->Ok_0,
        ),
        field is Err ==> field->Err_0.field == index && (index >= record@.len() || parsed_u32(
            record@[index as int],
        ) is None),
{
    match record.get(index) {
        Some(text) => match parse_u32(text) {
            Some(number) => Ok(number),
            None => Err(ProjectionError { field: index }),
        },
        None => Err(ProjectionError { field: index }),
    }
}

/// The measurement that the field at `index` was decoded to.
fn ratio_at(record: &Record, index: usize, decoded: &Option<Ratio>) -> (field: Result<
    Ratio,
    ProjectionError,
>)
    ensures
        field is Ok ==> index < record@.len() && ratio_text(*decoded) == Some(field->Ok_0@),
        field is Err ==> field->Err_0.field == index && (index >= record@.len() || decoded is None),
{
    if index >= record.len() {
        return Err(ProjectionError { field: index });
    }
    match decoded {
        Some(ratio) => Ok(Ratio::new(ratio.as_str())),
        None => Err(ProjectionError { field: index }),
    }
}

impl PatientRecord {
    /// Projects `row` into a record under `token`. The fields are read in
    /// the order of their positions, and the first one that the row lacks or
    /// that does not stand for a value of its type is reported.
    pub fn from_record(row: &SourceRow, token: &CorrelationToken) -> (projected: Result<
        PatientRecord,
        ProjectionError,
    >)
        ensures
            projection_view(projected) == projection(row@, token@),
    {
        proof {
            reveal_with_fuel(first_bad_field, 17);
        }
        let record = &row.record;
        let first_name = text_at(record, FIRST_NAME)?;
        let middle_initials = text_at(record, MIDDLE_INITIALS)?;
        let last_name = text_at(record, LAST_NAME)?;
        let email_address = text_at(record, EMAIL_ADDRESS)?;
        let zip_code = text_at(record, ZIP_CODE)?;
        let telephone_number = text_at(record, TELEPHONE_NUMBER)?;
        let medical_record_number = count_at(record, MEDICAL_RECORD_NUMBER)?;
        let pregnancies = count_at(record, PREGNANCIES)?;
        let glucose = count_at(record, GLUCOSE)?;
        let blood_pressure = count_at(record, BLOOD_PRESSURE)?;
        let skin_thickness = count_at(record, SKIN_THICKNESS)?;
        let insulin = count_at(record, INSULIN)?;
        let bmi = ratio_at(record, BMI, &row.bmi)?;
        let diabetes_pedigree = ratio_at(record, DIABETES_PEDIGREE, &row.diabetes_pedigree)?;
        let age = count_at(record, AGE)?;
        let outcome = count_at(record, OUTCOME)?;
        Ok(
            PatientRecord {
                token: CorrelationToken::new(token.as_str()),
                first_name,
                middle_initials,
                last_name,
                email_address,
                zip_code,
                telephone_number,
                medical_record_number,
                pregnancies,
                glucose,
                blood_pressure,
                skin_thickness,
                insulin,
                bmi,
                diabetes_pedigree,
                age,
                outcome,
            },
        )
    }

    /// Writes the record as a row: the token first, then the attributes in
    /// the order in which a source row holds them.
    pub fn to_record(&self) -> (row: Record)
        ensures
            row@ == row_of(self@),
    {
        let mut row = Record::new();
        row.push_field(self.token.as_str());
        row.push_field(self.first_name.as_str());
        row.push_field(self.middle_initials.as_str());
        row.push_field(self.last_name.as_str());
        row.push_field(self.email_address.as_str());
        row.push_field(self.zip_code.as_str());
        row.push_field(self.telephone_number.as_str());
        row.push_field(format_u32(self.medical_record_number).as_str());
        row.push_field(format_u32(self.pregnancies).as_str());
        row.push_field(format_u32(self.glucose).as_str());
        row.push_field(format_u32(self.blood_pressure).as_str());
        row.push_field(format_u32(self.skin_thickness).as_str());
        row.push_field(format_u32(self.insulin).as_str());
        row.push_field(self.bmi.as_str());
        row.push_field(self.diabetes_pedigree.as_str());
        row.push_field(format_u32(self.age).as_str());
        row.push_field(format_u32(self.outcome).as_str());
        assert(row@ =~= row_of(self@));
        row
    }
}

} // verus!
