//! The calculator core: operator resolution, expression parsing, the
//! division-by-zero guard, and error messages.
//!
//! An expression is three whitespace-separated tokens: an operator, then two
//! numeric operands.  The operator grammar is fixed and closed; the operands
//! are kept as raw text here, and the caller parses them with its own
//! floating-point facility, handing the outcomes back to
//! [`first_operand_error`] and [`eval_guard`], whose verified contracts
//! decide which error, if any, the expression produces.

use vstd::prelude::*;
use vstd::string::StringExecFns;

use crate::text::str_eq;

verus! {

/// The five supported binary operations.
#[derive(Clone, Copy, Debug, PartialEq, Eq, Structural)]
pub enum Op {
    Add,
    Sub,
    Mul,
    Div,
    Pow,
}

/// Everything that can go wrong while parsing or evaluating one expression.
#[derive(Debug)]
pub enum CalcError {
    /// An operand was not valid numeric text; carries the offending token.
    ParseFloat(String),
    /// The operator token is not in the table; carries the token verbatim.
    UnknownOperator(String),
    /// The expression did not consist of exactly three tokens.
    WrongArity,
    /// Division was attempted with a zero divisor.
    DivisionByZero,
}

/// The mathematical shape of a [`CalcError`]: the same variants over
/// character sequences.
pub enum CalcErrorView {
    ParseFloat(Seq<char>),
    UnknownOperator(Seq<char>),
    WrongArity,
    DivisionByZero,
}

impl View for CalcError {
    type V = CalcErrorView;

    open spec fn view(&self) -> CalcErrorView {
        match self {
            CalcError::ParseFloat(t) => CalcErrorView::ParseFloat(t@),
            CalcError::UnknownOperator(t) => CalcErrorView::UnknownOperator(t@),
            CalcError::WrongArity => CalcErrorView::WrongArity,
            CalcError::DivisionByZero => CalcErrorView::DivisionByZero,
        }
    }
}

/// The operator table: each operation has a symbolic and a word spelling,
/// matched case-sensitively and exactly.
pub open spec fn op_of_token(t: Seq<char>) -> Option<Op> {
    if t == "+"@ || t == "add"@ {
        Some(Op::Add)
    } else if t == "-"@ || t == "sub"@ {
        Some(Op::Sub)
    } else if t == "*"@ || t == "mul"@ {
        Some(Op::Mul)
    } else if t == "/"@ || t == "div"@ {
        Some(Op::Div)
    } else if t == "^"@ || t == "pow"@ {
        Some(Op::Pow)
    } else {
        None
    }
}

/// Resolve an operator token against the fixed table.
///
/// Total over all inputs: every token either resolves to an operation or
/// comes back inside `UnknownOperator`, verbatim.
pub fn parse_op(token: &str) -> (r: Result<Op, CalcError>)
    ensures
        match op_of_token(token@) {
            Some(op) => r matches Ok(o) && o == op,
            None => r matches Err(e) && e@ == CalcErrorView::UnknownOperator(token@),
        },
{
    if str_eq(token, "+") || str_eq(token, "add") {
        Ok(Op::Add)
    } else if str_eq(token, "-") || str_eq(token, "sub") {
        Ok(Op::Sub)
    } else if str_eq(token, "*") || str_eq(token, "mul") {
        Ok(Op::Mul)
    } else if str_eq(token, "/") || str_eq(token, "div") {
        Ok(Op::Div)
    } else if str_eq(token, "^") || str_eq(token, "pow") {
        Ok(Op::Pow)
    } else {
        Err(CalcError::UnknownOperator(token.to_owned()))
    }
}

/// Both spellings of every operator resolve to the same operation, and to
/// the operation the table names.
pub proof fn lemma_operator_spellings()
    ensures
        op_of_token("+"@) == Some(Op::Add) && op_of_token("add"@) == Some(Op::Add),
        op_of_token("-"@) == Some(Op::Sub) && op_of_token("sub"@) == Some(Op::Sub),
        op_of_token("*"@) == Some(Op::Mul) && op_of_token("mul"@) == Some(Op::Mul),
        op_of_token("/"@) == Some(Op::Div) && op_of_token("div"@) == Some(Op::Div),
        op_of_token("^"@) == Some(Op::Pow) && op_of_token("pow"@) == Some(Op::Pow),
{
    reveal_strlit("+");
    reveal_strlit("add");
    reveal_strlit("-");
    reveal_strlit("sub");
    reveal_strlit("*");
    reveal_strlit("mul");
    reveal_strlit("/");
    reveal_strlit("div");
    reveal_strlit("^");
    reveal_strlit("pow");
    // The spellings are pairwise distinct: the symbols differ in their one
    // character, the words in their first, and symbols and words in length.
    assert("+"@.len() == 1 && "+"@[0] == '+');
    assert("-"@.len() == 1 && "-"@[0] == '-');
    assert("*"@.len() == 1 && "*"@[0] == '*');
    assert("/"@.len() == 1 && "/"@[0] == '/');
    assert("^"@.len() == 1 && "^"@[0] == '^');
    assert("add"@.len() == 3 && "add"@[0] == 'a');
    assert("sub"@.len() == 3 && "sub"@[0] == 's');
    assert("mul"@.len() == 3 && "mul"@[0] == 'm');
    assert("div"@.len() == 3 && "div"@[0] == 'd');
    assert("pow"@.len() == 3 && "pow"@[0] == 'p');
}

/// What parsing a token sequence yields: the arity check comes first, then
/// operator resolution; the operands pass through as raw text.
pub open spec fn parse_spec(tokens: Seq<Seq<char>>) -> Result<(Op, Seq<char>, Seq<char>), CalcErrorView> {
    if tokens.len() != 3 {
        Err(CalcErrorView::WrongArity)
    } else {
        match op_of_token(tokens[0]) {
            Some(op) => Ok((op, tokens[1], tokens[2])),
            None => Err(CalcErrorView::UnknownOperator(tokens[0])),
        }
    }
}

/// A sequence of any length other than three is rejected as an arity error
/// before the operator or the operands are looked at.
pub proof fn lemma_arity_checked_first(tokens: Seq<Seq<char>>)
    requires
        tokens.len() != 3,
    ensures
        parse_spec(tokens) == Err::<(Op, Seq<char>, Seq<char>), CalcErrorView>(
            CalcErrorView::WrongArity,
        ),
{
}

/// Parse a tokenized expression into an operation and the two operand
/// tokens, exactly as [`parse_spec`] describes.
pub fn parse_expression(tokens: &Vec<String>) -> (r: Result<(Op, String, String), CalcError>)
    ensures
        match parse_spec(tokens.deep_view()) {
            Ok((op, a, b)) => r matches Ok((o, x, y)) && o == op && x@ == a && y@ == b,
            Err(e) => r matches Err(e2) && e2@ == e,
        },
{
    proof {
        assert(tokens.deep_view().len() == tokens@.len());
    }
    if tokens.len() != 3 {
        return Err(CalcError::WrongArity);
    }
    proof {
        assert(tokens.deep_view()[0] == tokens@[0]@);
        assert(tokens.deep_view()[1] == tokens@[1]@);
        assert(tokens.deep_view()[2] == tokens@[2]@);
    }
    let op = match parse_op(tokens[0].as_str()) {
        Ok(op) => op,
        Err(e) => {
            return Err(e);
        },
    };
    Ok((op, tokens[1].clone(), tokens[2].clone()))
}

/// Which error, if any, the operand texts produce once the caller has tried
/// to parse each as a number: the first failing operand is reported.
pub fn first_operand_error(a: &str, a_ok: bool, b: &str, b_ok: bool) -> (r: Option<CalcError>)
    ensures
        !a_ok ==> (r matches Some(e) && e@ == CalcErrorView::ParseFloat(a@)),
        a_ok && !b_ok ==> (r matches Some(e) && e@ == CalcErrorView::ParseFloat(b@)),
        a_ok && b_ok ==> r is None,
{
    if !a_ok {
        Some(CalcError::ParseFloat(a.to_owned()))
    } else if !b_ok {
        Some(CalcError::ParseFloat(b.to_owned()))
    } else {
        None
    }
}

/// Whether evaluating `op` is undefined: exactly division by a zero divisor.
pub open spec fn division_undefined(op: Op, divisor_is_zero: bool) -> bool {
    op == Op::Div && divisor_is_zero
}

/// Guard one evaluation: division by zero is the only undefined case, and
/// every other combination is owed a result.
///
/// The caller supplies `divisor_is_zero` from an exact comparison of its
/// second operand against zero (which also catches a negative zero) and
/// performs the arithmetic itself only when the guard allows it.
pub fn eval_guard(op: Op, divisor_is_zero: bool) -> (r: Result<(), CalcError>)
    ensures
        division_undefined(op, divisor_is_zero) ==> (r matches Err(e) && e@
            == CalcErrorView::DivisionByZero),
        !division_undefined(op, divisor_is_zero) ==> r is Ok,
{
    if matches!(op, Op::Div) && divisor_is_zero {
        Err(CalcError::DivisionByZero)
    } else {
        Ok(())
    }
}

/// The one-line, human-readable rendering of each error.
pub open spec fn message_spec(e: CalcErrorView) -> Seq<char> {
    match e {
        CalcErrorView::ParseFloat(t) => "number parse error: "@ + t,
        CalcErrorView::UnknownOperator(t) => "unknown operator: "@ + t,
        CalcErrorView::WrongArity => "wrong number of operands"@,
        CalcErrorView::DivisionByZero => "division by zero"@,
    }
}

impl CalcError {
    /// The human-readable sentence for this error, naming its kind and,
    /// where one exists, the offending raw text.
    pub fn message(&self) -> (r: String)
        ensures
            r@ == message_spec(self@),
    {
        match self {
            CalcError::ParseFloat(t) => String::from_str("number parse error: ").concat(
                t.as_str(),
            ),
            CalcError::UnknownOperator(t) => String::from_str("unknown operator: ").concat(
                t.as_str(),
            ),
            CalcError::WrongArity => String::from_str("wrong number of operands"),
            CalcError::DivisionByZero => String::from_str("division by zero"),
        }
    }
}

} // verus!
