//! A verified calculator core.
//!
//! The library covers the pipeline of a small interactive calculator:
//! resolving an operator token, parsing a three-token expression, guarding
//! the one undefined evaluation (division by zero), and deciding what a
//! read-eval-print loop does with each input line.  The numeric work itself
//! (floating-point parsing and arithmetic) stays with the caller, which
//! hands its outcomes back as plain values; every decision made on those
//! values is verified here.
//!
//! Two small verified companions round the crate out: a temperature-unit
//! parser and a singly linked stack.

pub mod calculator;
pub mod list;
pub mod repl;
pub mod temperature;
pub mod text;
pub mod util;
