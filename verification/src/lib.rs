//! Rendering of test results as Test Anything Protocol (TAP) text.
//!
//! A TAP stream is a sequence of plain text lines: a plan line `N..M`, one
//! `ok` / `not ok` line per test, `#` diagnostic lines, and optionally a
//! terminal `Bail out!` line. This crate builds those lines; it never
//! parses them.
//!
//! * [`line`] says what each kind of line is.
//! * [`tap_test::TapTest`] is one test result; it renders its own lines
//!   under a number that the caller supplies.
//! * [`tap_suite::TapSuite`] is an ordered batch of results; it renders the
//!   whole stream, numbering the tests from 1 by position.
//! * [`tap_writer::TapWriter`] produces one line per call, for streams that
//!   are emitted while the tests run.
//! * [`tap_test_builder`] and [`tap_suite_builder`] assemble results and
//!   suites field by field.
//! * [`decimal`] writes the numbers, and [`description`] writes a result
//!   out for a human reader.
//!
//! The library computes text and leaves emitting it to the caller: the
//! writer returns each line, and the suite hands its stream to a function
//! of the caller's choice. Contracts are stated over the text (`Seq<char>`)
//! of the values involved.

pub mod decimal;
pub mod description;
pub mod line;
pub mod tap_suite;
pub mod tap_suite_builder;
pub mod tap_test;
pub mod tap_test_builder;
pub mod tap_writer;
