//! The Safe Harbor rules.

use crate::patient::{PatientRecord, PatientRecordView};
use vstd::prelude::*;

verus! {

/// The text that takes the place of an erased attribute.
pub const REDACTED: &'static str = "REDACTED";

/// The greatest age that is kept as it is.
pub const MAX_EXACT_AGE: u32 = 89;

/// The age that stands for every age above `MAX_EXACT_AGE`.
pub const TOP_AGE: u32 = 90;

/// The number of leading characters that are kept of a zip code.
pub const ZIP_PREFIX: usize = 3;

/// The characters of `REDACTED`.
pub open spec fn sentinel() -> Seq<char> {
    seq!['R', 'E', 'D', 'A', 'C', 'T', 'E', 'D']
}

/// A zip code of three or more characters is cut to its first three, with
/// two zeros behind them; a shorter one stays as it is.
pub open spec fn generalized_zip(zip: Seq<char>) -> Seq<char> {
    if zip.len() >= ZIP_PREFIX {
        zip.subrange(0, ZIP_PREFIX as int) + seq!['0', '0']
    } else {
        zip
    }
}

/// An age above `MAX_EXACT_AGE` becomes `TOP_AGE`; any other age stays.
pub open spec fn clamped_age(age: u32) -> u32 {
    if age > MAX_EXACT_AGE {
        TOP_AGE
    } else {
        age
    }
}

/// The record without its direct identifiers: names, e-mail address and
/// telephone number erased, the medical record number zero, zip code and
/// age generalized. The token and the measurements stay.
pub open spec fn redacted(record: PatientRecordView) -> PatientRecordView {
    PatientRecordView {
        first_name: sentinel(),
        middle_initials: sentinel(),
        last_name: sentinel(),
        email_address: sentinel(),
        zip_code: generalized_zip(record.zip_code),
        telephone_number: sentinel(),
        medical_record_number: 0,
        age: clamped_age(record.age),
        ..record
    }
}

/// Redacting a record twice gives what redacting it once gives.
pub proof fn lemma_redaction_is_idempotent(record: PatientRecordView)
    ensures
        redacted(redacted(record)) == redacted(record),
{
    let zip = generalized_zip(record.zip_code);
    if record.zip_code.len() >= ZIP_PREFIX {
        assert(zip.subrange(0, ZIP_PREFIX as int) =~= record.zip_code.subrange(
            0,
            ZIP_PREFIX as int,
        ));
    }
    assert(generalized_zip(zip) =~= zip);
}

/// Of a zip code of three or more characters exactly the first three stay,
/// followed by `00`; a shorter one is kept unchanged.
pub proof fn lemma_zip_generalization(zip: Seq<char>)
    ensures
        zip.len() >= 3 ==> generalized_zip(zip) == seq![zip[0], zip[1], zip[2], '0', '0'],
        zip.len() < 3 ==> generalized_zip(zip) == zip,
{
    if zip.len() >= 3 {
        assert(generalized_zip(zip) =~= seq![zip[0], zip[1], zip[2], '0', '0']);
    }
}

/// Whatever a record held, after redaction each name, the e-mail address
/// and the telephone number read `REDACTED`, and the medical record number
/// is zero.
pub proof fn lemma_identifiers_are_erased(record: PatientRecordView)
    ensures
        redacted(record).first_name == REDACTED@,
        redacted(record).middle_initials == REDACTED@,
        redacted(record).last_name == REDACTED@,
        redacted(record).email_address == REDACTED@,
        redacted(record).telephone_number == REDACTED@,
        redacted(record).medical_record_number == 0,
{
    reveal_strlit("REDACTED");
    assert(REDACTED@ =~= sentinel());
}

/// Redaction leaves the correlation token and the medical measurements as
/// they were. The age is one of the measurements: it stays where it is at
/// most `MAX_EXACT_AGE`, the only case in which the rules keep it.
pub proof fn lemma_token_and_measurements_are_preserved(record: PatientRecordView)
    ensures
        redacted(record).token == record.token,
        redacted(record).pregnancies == record.pregnancies,
        redacted(record).glucose == record.glucose,
        redacted(record).blood_pressure == record.blood_pressure,
        redacted(record).skin_thickness == record.skin_thickness,
        redacted(record).insulin == record.insulin,
        redacted(record).bmi == record.bmi,
        redacted(record).diabetes_pedigree == record.diabetes_pedigree,
        redacted(record).outcome == record.outcome,
        record.age <= MAX_EXACT_AGE ==> redacted(record).age == record.age,
{
}

/// Cuts a zip code down to the area that its first three characters name.
pub fn generalize_zip(zip: &str) -> (area: String)
    ensures
        area@ == generalized_zip(zip@),
{
    if zip.unicode_len() >= ZIP_PREFIX {
        let mut area = zip.substring_char(0, ZIP_PREFIX).to_owned();
        area.append("00");
        proof {
            reveal_strlit("00");
            assert(area@ =~= generalized_zip(zip@));
        }
        area
    } else {
        zip.to_owned()
    }
}

/// Brings an age above `MAX_EXACT_AGE` down to `TOP_AGE`.
pub fn clamp_age(age: u32) -> (clamped: u32)
    ensures
        clamped == clamped_age(age),
{
    if age > MAX_EXACT_AGE {
        TOP_AGE
    } else {
        age
    }
}

/// Removes the direct identifiers from `record`, in place.
pub fn apply_hipaa_deidentification(record: &mut PatientRecord)
    ensures
        final(record)@ == redacted(old(record)@),
{
    proof {
        reveal_strlit("REDACTED");
        assert(REDACTED@ =~= sentinel());
    }
    record.first_name = REDACTED.to_owned();
    record.middle_initials = REDACTED.to_owned();
    record.last_name = REDACTED.to_owned();
    let area = generalize_zip(record.zip_code.as_str());
    record.zip_code = area;
    record.age = clamp_age(record.age);
    record.telephone_number = REDACTED.to_owned();
    record.email_address = REDACTED.to_owned();
    record.medical_record_number = 0;
}

} // verus!
