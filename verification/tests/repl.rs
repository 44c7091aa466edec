use simple_calculator::calculator::{eval_guard, CalcError, Op};
use simple_calculator::repl::{step, ReplAction};
use simple_calculator::text::{eq_ignore_ascii_case, str_eq, tokenize, trim};

#[test]
fn test_repl_scenario() {
    // "2 + 2" tokenizes as ["2", "+", "2"]: three tokens, but "2" is not an
    // operator, so the line is reported on the diagnostic channel
    match step(Some("2 + 2\n")) {
        ReplAction::Report(CalcError::UnknownOperator(t)) => assert_eq!(t, "2"),
        other => panic!("expected an unknown-operator report, got {:?}", other),
    }
    // "+ 2 2" parses and evaluates to 4
    match step(Some("+ 2 2\n")) {
        ReplAction::Evaluate(op, a, b) => {
            assert_eq!(op, Op::Add);
            let a: f64 = a.parse().unwrap();
            let b: f64 = b.parse().unwrap();
            assert!(eval_guard(op, b == 0.0).is_ok());
            assert_eq!(format!(" = {}", a + b), " = 4");
        }
        other => panic!("expected an evaluation, got {:?}", other),
    }
    // "quit" ends the loop with no error
    assert!(matches!(step(Some("quit\n")), ReplAction::Terminate));
}

#[test]
fn test_end_of_input_terminates() {
    assert!(matches!(step(None), ReplAction::Terminate));
}

#[test]
fn test_blank_lines_reprompt() {
    assert!(matches!(step(Some("")), ReplAction::Prompt));
    assert!(matches!(step(Some("\n")), ReplAction::Prompt));
    assert!(matches!(step(Some("   \t  \n")), ReplAction::Prompt));
}

#[test]
fn test_quit_commands() {
    assert!(matches!(step(Some("quit")), ReplAction::Terminate));
    assert!(matches!(step(Some("exit")), ReplAction::Terminate));
    assert!(matches!(step(Some("QUIT\n")), ReplAction::Terminate));
    assert!(matches!(step(Some("Exit\n")), ReplAction::Terminate));
    assert!(matches!(step(Some("  quit  \n")), ReplAction::Terminate));
    // a quit word with trailing tokens is an expression attempt, not a quit
    match step(Some("quit now\n")) {
        ReplAction::Report(CalcError::WrongArity) => {}
        other => panic!("expected a wrong-arity report, got {:?}", other),
    }
}

#[test]
fn test_division_by_zero_line() {
    match step(Some("/ 10 0\n")) {
        ReplAction::Evaluate(op, a, b) => {
            assert_eq!(op, Op::Div);
            assert_eq!(a, "10");
            let b: f64 = b.parse().unwrap();
            match eval_guard(op, b == 0.0) {
                Err(e) => assert_eq!(e.message(), "division by zero"),
                Ok(()) => panic!("division by zero must not evaluate"),
            }
        }
        other => panic!("expected an evaluation action, got {:?}", other),
    }
}

#[test]
fn test_number_format_line() {
    // the parse itself succeeds; the operand text only fails later, in the
    // caller's numeric parser
    match step(Some("+ two 3\n")) {
        ReplAction::Evaluate(op, a, b) => {
            assert_eq!(op, Op::Add);
            assert_eq!(a, "two");
            assert_eq!(b, "3");
            assert!(a.parse::<f64>().is_err());
        }
        other => panic!("expected an evaluation action, got {:?}", other),
    }
}

#[test]
fn test_tokenize() {
    let tokens = tokenize("  + 2\t3 \n");
    assert_eq!(tokens, vec!["+", "2", "3"]);
    let none: Vec<String> = tokenize("   \t\n");
    assert!(none.is_empty());
    assert_eq!(tokenize("add 2 3"), vec!["add", "2", "3"]);
}

#[test]
fn test_unicode_whitespace() {
    // the library and the standard library agree on what whitespace is
    let line = "+\u{a0}2\u{2003}3\u{3000}";
    let tokens = tokenize(line);
    let std_tokens: Vec<&str> = line.split_whitespace().collect();
    assert_eq!(tokens, std_tokens);
    assert_eq!(tokens, vec!["+", "2", "3"]);
    assert_eq!(trim("\u{3000}quit\u{85}"), "quit");
    assert_eq!(trim("\u{a0}\u{2028}"), "");
    assert!(matches!(step(Some("\u{a0}exit\u{2029}")), ReplAction::Terminate));
    assert!(matches!(step(Some("\u{2000}\u{200a}")), ReplAction::Prompt));
}

#[test]
fn test_trim() {
    assert_eq!(trim("  hi there \t\n"), "hi there");
    assert_eq!(trim("quit"), "quit");
    assert_eq!(trim(" \t \n"), "");
}

#[test]
fn test_string_comparisons() {
    assert!(str_eq("add", "add"));
    assert!(!str_eq("add", "Add"));
    assert!(!str_eq("add", "ad"));
    assert!(eq_ignore_ascii_case("QuIt", "quit"));
    assert!(!eq_ignore_ascii_case("quit", "exit"));
}
