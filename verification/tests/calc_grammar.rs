use aether_discord::commands::calc::{
    calc_parse, calc_shape_error_message, tokenize_exec, CalcExpr, CalcOp, CalcShapeError, Token,
};

fn num(t: &str) -> CalcExpr {
    CalcExpr::Num(t.to_string())
}

fn bin(op: CalcOp, a: CalcExpr, b: CalcExpr) -> CalcExpr {
    CalcExpr::Bin(op, Box::new(a), Box::new(b))
}

fn neg(a: CalcExpr) -> CalcExpr {
    CalcExpr::Neg(Box::new(a))
}

/// Evaluates a tree on floats, as the bot does.
fn eval(e: &CalcExpr) -> Result<f64, String> {
    match e {
        CalcExpr::Num(t) => t.parse::<f64>().map_err(|_| "Invalid number".to_string()),
        CalcExpr::Neg(a) => Ok(-eval(a)?),
        CalcExpr::Bin(op, a, b) => {
            let x = eval(a)?;
            let y = eval(b)?;
            match op {
                CalcOp::Add => Ok(x + y),
                CalcOp::Sub => Ok(x - y),
                CalcOp::Mul => Ok(x * y),
                CalcOp::Div => {
                    if y == 0.0 {
                        Err("Division by zero".to_string())
                    } else {
                        Ok(x / y)
                    }
                }
                CalcOp::Rem => Ok(x % y),
            }
        }
    }
}

fn value(s: &str) -> f64 {
    eval(&calc_parse(s).unwrap()).unwrap()
}

#[test]
fn documented_example_uses_precedence() {
    assert_eq!(
        calc_parse("2 + 2 * 3"),
        Ok(bin(CalcOp::Add, num("2"), bin(CalcOp::Mul, num("2"), num("3"))))
    );
    assert_eq!(value("2 + 2 * 3"), 8.0);
    assert_eq!(value("2 + 2 * 3").to_string(), "8");
}

#[test]
fn three_term_forms_still_work() {
    assert_eq!(calc_parse("10 + 5"), Ok(bin(CalcOp::Add, num("10"), num("5"))));
    assert_eq!(value("10 + 5"), 15.0);
    assert_eq!(value("8 / 2"), 4.0);
    assert_eq!(value("8 - 2"), 6.0);
    assert_eq!(value("8 * 2"), 16.0);
    assert_eq!(value("7 % 4"), 3.0);
    assert_eq!(value("  2.5   *   (3) "), 7.5);
}

#[test]
fn operators_group_left_and_parentheses_first() {
    assert_eq!(
        calc_parse("8 - 3 - 2"),
        Ok(bin(CalcOp::Sub, bin(CalcOp::Sub, num("8"), num("3")), num("2")))
    );
    assert_eq!(value("8 - 3 - 2"), 3.0);
    assert_eq!(value("16 / 4 / 2"), 2.0);
    assert_eq!(value("(2 + 2) * 3"), 12.0);
    assert_eq!(value("2 * (3 + 4) - 1"), 13.0);
    assert_eq!(value("((1))"), 1.0);
    assert_eq!(value("1+2*3-4/2"), 5.0);
}

#[test]
fn signs_before_factors() {
    assert_eq!(calc_parse("-3"), Ok(neg(num("3"))));
    assert_eq!(value("2 - -3"), 5.0);
    assert_eq!(value("-2 * 3"), -6.0);
    assert_eq!(value("2 * -3 + 1"), -5.0);
    assert_eq!(value("-(1 + 2)"), -3.0);
    assert_eq!(value("+5 + 3"), 8.0);
}

#[test]
fn malformed_expressions() {
    for e in ["", "   ", "1 +", "* 2", "(1 + 2", "1 + 2)", "()", "1 2", "(1)(2)", "2 * * 3", ")1(", "1 +* 2"] {
        assert_eq!(calc_parse(e), Err(CalcShapeError::Malformed), "{:?}", e);
    }
}

#[test]
fn forbidden_characters() {
    for e in ["2 ^ 3", "1 x 2", "1\t+ 2", "2 + two"] {
        assert_eq!(calc_parse(e), Err(CalcShapeError::ForbiddenCharacter), "{:?}", e);
    }
    assert_eq!(calc_shape_error_message(CalcShapeError::ForbiddenCharacter), "Only basic math operators allowed");
    assert_eq!(
        calc_shape_error_message(CalcShapeError::Malformed),
        "Format: numbers joined by + - * / % with parentheses as needed (e.g. 2 + 2 * 3)"
    );
}

#[test]
fn numbers_keep_their_text() {
    assert_eq!(calc_parse("1.2.3 + 1"), Ok(bin(CalcOp::Add, num("1.2.3"), num("1"))));
    assert_eq!(eval(&calc_parse("1.2.3 + 1").unwrap()), Err("Invalid number".to_string()));
    assert_eq!(eval(&calc_parse("1 / 0").unwrap()), Err("Division by zero".to_string()));
    assert_eq!(value(".5 + 1."), 1.5);
}

#[test]
fn tokens_of_an_expression() {
    let cs: Vec<char> = "12+(3.5) ".chars().collect();
    assert_eq!(
        tokenize_exec(&cs),
        vec![
            Token::Num { start: 0, end: 2 },
            Token::Op(CalcOp::Add),
            Token::Open,
            Token::Num { start: 4, end: 7 },
            Token::Close,
        ]
    );
    let cs: Vec<char> = "1 2".chars().collect();
    assert_eq!(tokenize_exec(&cs), vec![Token::Num { start: 0, end: 1 }, Token::Num { start: 2, end: 3 }]);
}
