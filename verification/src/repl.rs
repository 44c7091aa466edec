//! The decision logic of the read-eval-print loop.
//!
//! The driver that owns the terminal reads one line at a time and hands each
//! to [`step`], which decides everything that does not touch the terminal or
//! floating-point arithmetic: whether the loop ends (end of input, or a quit
//! command), whether the line is blank, and otherwise what the parse of the
//! line yields.  The driver then performs the printing, the numeric parsing
//! and the arithmetic that the returned action calls for.

use vstd::prelude::*;

use crate::calculator::{parse_expression, parse_spec, CalcError, CalcErrorView, Op};
use crate::text::{eq_ignore_ascii_case, lower_codes, tokenize, tokens_spec, trim, trim_spec};

verus! {

/// What the loop driver must do with one line of input.
#[derive(Debug)]
pub enum ReplAction {
    /// End the loop: end of input or an explicit quit command.
    Terminate,
    /// Nothing to do (the line was blank); show the prompt again.
    Prompt,
    /// The line parsed: evaluate the operation on the two operand texts and
    /// print the result.
    Evaluate(Op, String, String),
    /// The line did not parse: report the error on the diagnostic channel.
    Report(CalcError),
}

/// The mathematical shape of a [`ReplAction`].
pub enum ReplActionView {
    Terminate,
    Prompt,
    Evaluate(Op, Seq<char>, Seq<char>),
    Report(CalcErrorView),
}

impl View for ReplAction {
    type V = ReplActionView;

    open spec fn view(&self) -> ReplActionView {
        match self {
            ReplAction::Terminate => ReplActionView::Terminate,
            ReplAction::Prompt => ReplActionView::Prompt,
            ReplAction::Evaluate(op, a, b) => ReplActionView::Evaluate(*op, a@, b@),
            ReplAction::Report(e) => ReplActionView::Report(e@),
        }
    }
}

/// Whether the trimmed line is a quit command: `quit` or `exit`, compared
/// without regard to ASCII case.
pub open spec fn is_quit_spec(t: Seq<char>) -> bool {
    lower_codes(t) == lower_codes("quit"@) || lower_codes(t) == lower_codes("exit"@)
}

/// What the loop does with one read: `None` stands for end of input, and a
/// line is trimmed, then checked for blankness and quit commands, and
/// otherwise tokenized and parsed.
pub open spec fn step_spec(line: Option<Seq<char>>) -> ReplActionView {
    match line {
        None => ReplActionView::Terminate,
        Some(l) => {
            let t = trim_spec(l);
            if t.len() == 0 {
                ReplActionView::Prompt
            } else if is_quit_spec(t) {
                ReplActionView::Terminate
            } else {
                match parse_spec(tokens_spec(t)) {
                    Ok((op, a, b)) => ReplActionView::Evaluate(op, a, b),
                    Err(e) => ReplActionView::Report(e),
                }
            }
        },
    }
}

/// End of input with no prior quit terminates the loop cleanly: the step
/// for an exhausted input stream is termination, which by the shape of
/// [`step_spec`] reaches neither the tokenizer nor the parser, so no error
/// can arise from it.
pub proof fn lemma_end_of_input_terminates()
    ensures
        step_spec(None) == ReplActionView::Terminate,
{
}

/// Decide what the loop does with one read, exactly as [`step_spec`] says.
///
/// End of input (`None`) and quit commands terminate the loop; a blank line
/// only re-prompts; any other line is parsed, and either its operation and
/// operand texts are handed back for evaluation or its parse error is handed
/// back for reporting.
pub fn step(line: Option<&str>) -> (r: ReplAction)
    ensures
        line is None ==> r@ == step_spec(None),
        line matches Some(l) ==> r@ == step_spec(Some(l@)),
{
    let l = match line {
        None => {
            return ReplAction::Terminate;
        },
        Some(l) => l,
    };
    let t = trim(l);
    if t.is_empty() {
        return ReplAction::Prompt;
    }
    if eq_ignore_ascii_case(t, "quit") || eq_ignore_ascii_case(t, "exit") {
        return ReplAction::Terminate;
    }
    let tokens = tokenize(t);
    match parse_expression(&tokens) {
        Ok((op, a, b)) => ReplAction::Evaluate(op, a, b),
        Err(e) => ReplAction::Report(e),
    }
}

} // verus!
