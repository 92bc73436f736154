//! De-identification of patient tables under the HIPAA Safe Harbor rule.
//!
//! A table row is read as a sequence of text fields, projected into a typed
//! patient record under a correlation token that the caller issued for it,
//! stripped of its direct identifiers, and written back as a row. Every step
//! is a deterministic function of its inputs, stated as a contract over the
//! views of the values involved.
//!
//! - [`tokenizer`] reads rows from comma-separated text.
//! - [`record`] holds a row, [`token`] a correlation token, [`ratio`] a
//!   floating-point measurement as text, [`decimal`] numbers in base ten.
//! - [`patient`] projects a row into a patient record and writes a record
//!   back as a row.
//! - [`redact`] applies the Safe Harbor rules to a record.
//! - [`pipeline`] runs the three over a whole table.

pub mod decimal;
pub mod patient;
pub mod pipeline;
pub mod ratio;
pub mod record;
pub mod redact;
pub mod token;
pub mod tokenizer;
