//! Conversion of proof-of-coverage records into columnar batch files.
//!
//! A source file holds the records of one collection window. Each record
//! is fanned out into at most one beacon row and a row per witness
//! ([`fanout`]), the rows of a file are gathered column by column
//! ([`batch`], [`convert`]), and each batch is handed to the column writer
//! in the order its schema declares ([`schema`], [`writer`]). The files
//! made are named after the stamp of their source ([`naming`]) and taken
//! to the destination store step by step ([`task`]).
//!
//! A run converts either the one file that a trigger event names
//! ([`trigger`]) or every file of a time window, a bounded number at a
//! time ([`orchestrator`]); [`handler`] decides which. All reading,
//! writing and uploading is left to the caller, who is told what to do
//! and reports back how it went.

pub mod batch;
pub mod column;
pub mod convert;
pub mod error;
pub mod fanout;
pub mod handler;
pub mod naming;
pub mod numeric;
pub mod orchestrator;
pub mod record;
pub mod report;
pub mod row;
pub mod schema;
pub mod settings;
pub mod task;
pub mod trigger;
pub mod writer;
