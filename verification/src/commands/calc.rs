use vstd::prelude::*;

use crate::commands::owned;
use crate::text::{chars_of, is_dec_digit, string_from_chars};

verus! {

/// A character that a calculator expression may hold: an ASCII digit or one of `+-*/%. ()`.
pub open spec fn calc_char_ok(c: char) -> bool {
    is_dec_digit(c) || c == '+' || c == '-' || c == '*' || c == '/' || c == '%' || c == '.' || c
        == ' ' || c == '(' || c == ')'
}

/// `true` when some character of `s` may not stand in an expression.
pub open spec fn calc_forbidden(s: Seq<char>) -> bool {
    exists|i: int| 0 <= i < s.len() && !calc_char_ok(#[trigger] s[i])
}

/// An arithmetic operator.
#[derive(PartialEq, Eq, Structural, Clone, Copy, Debug)]
pub enum CalcOp {
    Add,
    Sub,
    Mul,
    Div,
    Rem,
}

/// A token of an expression. A number is a run of digits and dots, given by the positions
/// `start..end` of its characters in the expression.
#[derive(PartialEq, Eq, Structural, Clone, Copy, Debug)]
pub enum Token {
    Num { start: usize, end: usize },
    Op(CalcOp),
    Open,
    Close,
}

/// A character that belongs to a number.
pub open spec fn is_number_char(c: char) -> bool {
    is_dec_digit(c) || c == '.'
}

/// The token that a single character stands for: an operator or a parenthesis.
pub open spec fn symbol_token(c: char) -> Option<Token> {
    if c == '+' {
        Some(Token::Op(CalcOp::Add))
    } else if c == '-' {
        Some(Token::Op(CalcOp::Sub))
    } else if c == '*' {
        Some(Token::Op(CalcOp::Mul))
    } else if c == '/' {
        Some(Token::Op(CalcOp::Div))
    } else if c == '%' {
        Some(Token::Op(CalcOp::Rem))
    } else if c == '(' {
        Some(Token::Open)
    } else if c == ')' {
        Some(Token::Close)
    } else {
        None
    }
}

/// The start of the number token that ends at position `n`, if the last token is one.
pub open spec fn number_ending_at(ts: Seq<Token>, n: int) -> Option<usize> {
    if ts.len() > 0 {
        match ts.last() {
            Token::Num { start, end } => if end == n {
                Some(start)
            } else {
                None
            },
            _ => None,
        }
    } else {
        None
    }
}

/// The tokens of the first `n` characters of `s`: a number character extends the number
/// right before it or starts a new one, an operator or parenthesis is a token of its own,
/// and anything else (a space) separates tokens.
pub open spec fn tokens_upto(s: Seq<char>, n: int) -> Seq<Token>
    decreases n,
{
    if n <= 0 {
        Seq::empty()
    } else {
        let ts = tokens_upto(s, n - 1);
        let c = s[n - 1];
        if is_number_char(c) {
            match number_ending_at(ts, n - 1) {
                Some(start) => ts.drop_last().push(Token::Num { start, end: n as usize }),
                None => ts.push(Token::Num { start: (n - 1) as usize, end: n as usize }),
            }
        } else {
            match symbol_token(c) {
                Some(t) => ts.push(t),
                None => ts,
            }
        }
    }
}

/// The tokens of an expression.
pub open spec fn tokenize(s: Seq<char>) -> Seq<Token> {
    tokens_upto(s, s.len() as int)
}

/// Every number token lies within the first `n` characters and is not empty.
pub open spec fn tokens_placed(ts: Seq<Token>, n: int) -> bool {
    forall|k: int|
        0 <= k < ts.len() ==> match #[trigger] ts[k] {
            Token::Num { start, end } => start < end <= n,
            _ => true,
        }
}

/// An expression tree: a number as written, a negation, or an operator applied to two
/// expressions.
pub enum CalcExprView {
    Num(Seq<char>),
    Neg(Box<CalcExprView>),
    Bin(CalcOp, Box<CalcExprView>, Box<CalcExprView>),
}

/// How deep in parentheses token `i` stands: the opening parentheses before it less the
/// closing ones.
pub open spec fn depth(ts: Seq<Token>, i: int) -> int
    decreases i,
{
    if i <= 0 {
        0
    } else {
        depth(ts, i - 1) + match ts[i - 1] {
            Token::Open => 1int,
            Token::Close => -1int,
            _ => 0int,
        }
    }
}

/// A token after which an operator is binary: a number or a closing parenthesis.
pub open spec fn ends_operand(t: Token) -> bool {
    t is Num || t is Close
}

/// An operator of the additive level (`+`, `-`) or of the multiplicative level (`*`, `/`, `%`).
pub open spec fn op_level(op: CalcOp, additive: bool) -> bool {
    if additive {
        op == CalcOp::Add || op == CalcOp::Sub
    } else {
        op == CalcOp::Mul || op == CalcOp::Div || op == CalcOp::Rem
    }
}

/// The operator at position `i` when it is a binary operator of the given level outside all
/// parentheses: it follows an operand and stands at depth zero.
pub open spec fn split_op(ts: Seq<Token>, i: int, additive: bool) -> Option<CalcOp> {
    if 0 < i < ts.len() && ends_operand(ts[i - 1]) && depth(ts, i) == 0 {
        match ts[i] {
            Token::Op(op) => if op_level(op, additive) {
                Some(op)
            } else {
                None
            },
            _ => None,
        }
    } else {
        None
    }
}

/// The last position before `n` where the expression splits at the given level, with its
/// operator.
pub open spec fn last_split(ts: Seq<Token>, n: int, additive: bool) -> Option<(int, CalcOp)>
    decreases n,
{
    if n <= 0 {
        None
    } else {
        match split_op(ts, n - 1, additive) {
            Some(op) => Some((n - 1, op)),
            None => last_split(ts, n - 1, additive),
        }
    }
}

/// A split lies strictly inside the tokens.
pub proof fn lemma_last_split_inside(ts: Seq<Token>, n: int, additive: bool)
    ensures
        last_split(ts, n, additive) matches Some((i, _)) ==> 0 < i < ts.len() && i < n,
    decreases n,
{
    if n > 0 {
        lemma_last_split_inside(ts, n - 1, additive);
    }
}

/// An expression: split at its last additive operator outside parentheses, the part before
/// it an expression and the part after it a term; with no such operator, a term.
pub open spec fn p_expr(s: Seq<char>, ts: Seq<Token>) -> Option<CalcExprView>
    decreases ts.len(), 2int,
{
    match last_split(ts, ts.len() as int, true) {
        Some((i, op)) => {
            proof {
                lemma_last_split_inside(ts, ts.len() as int, true);
            }
            match (p_expr(s, ts.take(i)), p_term(s, ts.skip(i + 1))) {
                (Some(l), Some(r)) => Some(CalcExprView::Bin(op, Box::new(l), Box::new(r))),
                _ => None,
            }
        },
        None => p_term(s, ts),
    }
}

/// A term: split at its last multiplicative operator outside parentheses, the part before
/// it a term and the part after it a factor; with no such operator, a factor.
pub open spec fn p_term(s: Seq<char>, ts: Seq<Token>) -> Option<CalcExprView>
    decreases ts.len(), 1int,
{
    match last_split(ts, ts.len() as int, false) {
        Some((i, op)) => {
            proof {
                lemma_last_split_inside(ts, ts.len() as int, false);
            }
            match (p_term(s, ts.take(i)), p_factor(s, ts.skip(i + 1))) {
                (Some(l), Some(r)) => Some(CalcExprView::Bin(op, Box::new(l), Box::new(r))),
                _ => None,
            }
        },
        None => p_factor(s, ts),
    }
}

/// A factor: `-` and a factor (its negation), `+` and a factor (the factor itself), an
/// expression in parentheses, or a single number.
pub open spec fn p_factor(s: Seq<char>, ts: Seq<Token>) -> Option<CalcExprView>
    decreases ts.len(), 0int,
{
    if ts.len() == 0 {
        None
    } else if ts[0] == Token::Op(CalcOp::Sub) {
        match p_factor(s, ts.skip(1)) {
            Some(e) => Some(CalcExprView::Neg(Box::new(e))),
            None => None,
        }
    } else if ts[0] == Token::Op(CalcOp::Add) {
        p_factor(s, ts.skip(1))
    } else if ts.len() >= 2 && ts[0] == Token::Open && ts.last() == Token::Close {
        p_expr(s, ts.subrange(1, ts.len() - 1))
    } else if ts.len() == 1 {
        match ts[0] {
            Token::Num { start, end } => Some(CalcExprView::Num(s.subrange(start as int, end as int))),
            _ => None,
        }
    } else {
        None
    }
}

/// The tree of an expression; none when it does not follow the grammar.
pub open spec fn calc_tree(s: Seq<char>) -> Option<CalcExprView> {
    p_expr(s, tokenize(s))
}

/// An expression tree.
#[derive(Debug, PartialEq, Eq)]
pub enum CalcExpr {
    Num(String),
    Neg(Box<CalcExpr>),
    Bin(CalcOp, Box<CalcExpr>, Box<CalcExpr>),
}

/// The tree that an expression tree stands for.
pub open spec fn expr_view(e: CalcExpr) -> CalcExprView
    decreases e,
{
    match e {
        CalcExpr::Num(t) => CalcExprView::Num(t@),
        CalcExpr::Neg(a) => CalcExprView::Neg(Box::new(expr_view(*a))),
        CalcExpr::Bin(op, a, b) => CalcExprView::Bin(op, Box::new(expr_view(*a)), Box::new(expr_view(*b))),
    }
}

impl View for CalcExpr {
    type V = CalcExprView;

    open spec fn view(&self) -> CalcExprView {
        expr_view(*self)
    }
}

/// The tree that an optional expression tree stands for.
pub open spec fn opt_expr_view(e: Option<CalcExpr>) -> Option<CalcExprView> {
    match e {
        Some(t) => Some(expr_view(t)),
        None => None,
    }
}

/// A number as the user writes it: one or more digits and dots.
pub open spec fn is_number_text(x: Seq<char>) -> bool {
    x.len() > 0 && forall|i: int| 0 <= i < x.len() ==> is_number_char(#[trigger] x[i])
}

/// Text made of spaces only (possibly none).
pub open spec fn is_spaces(a: Seq<char>) -> bool {
    forall|i: int| 0 <= i < a.len() ==> #[trigger] a[i] == ' '
}

/// The character an operator is written with.
pub open spec fn op_symbol(op: CalcOp) -> char {
    match op {
        CalcOp::Add => '+',
        CalcOp::Sub => '-',
        CalcOp::Mul => '*',
        CalcOp::Div => '/',
        CalcOp::Rem => '%',
    }
}

proof fn lemma_tokens_spaces(s: Seq<char>, p: int, k: int)
    requires
        0 <= p,
        0 <= k,
        p + k <= s.len(),
        forall|j: int| p <= j < p + k ==> #[trigger] s[j] == ' ',
    ensures
        tokens_upto(s, p + k) == tokens_upto(s, p),
    decreases k,
{
    if k > 0 {
        lemma_tokens_spaces(s, p, k - 1);
        assert(s[p + k - 1] == ' ');
    }
}

proof fn lemma_tokens_number(s: Seq<char>, p: int, k: int)
    requires
        0 <= p,
        1 <= k,
        p + k <= s.len(),
        p + k <= usize::MAX,
        forall|j: int| p <= j < p + k ==> is_number_char(#[trigger] s[j]),
        number_ending_at(tokens_upto(s, p), p) is None,
    ensures
        tokens_upto(s, p + k) == tokens_upto(s, p).push(
            Token::Num { start: p as usize, end: (p + k) as usize },
        ),
    decreases k,
{
    assert(is_number_char(s[p + k - 1]));
    if k > 1 {
        lemma_tokens_number(s, p, k - 1);
        let ts = tokens_upto(s, p + k - 1);
        assert(number_ending_at(ts, p + k - 1) == Some(p as usize));
        assert(ts.drop_last() =~= tokens_upto(s, p));
    }
}

/// The tokens of `pre x a op b y`, where `pre` is empty or a minus sign, `x` and `y` are
/// numbers and `a`, `b` are spaces.
proof fn lemma_tokens_of_two_numbers(
    pre: Seq<char>,
    x: Seq<char>,
    a: Seq<char>,
    op: CalcOp,
    b: Seq<char>,
    y: Seq<char>,
)
    requires
        pre == Seq::<char>::empty() || pre == seq!['-'],
        is_number_text(x),
        is_number_text(y),
        is_spaces(a),
        is_spaces(b),
        pre.len() + x.len() + a.len() + b.len() + y.len() + 1 <= usize::MAX,
    ensures
        ({
            let s = pre + x + a + seq![op_symbol(op)] + b + y;
            let n0 = pre.len() as int;
            let n1 = n0 + x.len();
            let n3 = n1 + a.len() + 1 + b.len();
            &&& tokenize(s) == (if pre.len() == 0 {
                Seq::<Token>::empty()
            } else {
                seq![Token::Op(CalcOp::Sub)]
            }) + seq![
                Token::Num { start: n0 as usize, end: n1 as usize },
                Token::Op(op),
                Token::Num { start: n3 as usize, end: s.len() as usize },
            ]
            &&& s.subrange(n0, n1) == x
            &&& s.subrange(n3, s.len() as int) == y
        }),
{
    let s = pre + x + a + seq![op_symbol(op)] + b + y;
    let n0 = pre.len() as int;
    let n1 = n0 + x.len();
    let n2 = n1 + a.len();
    let n3 = n2 + 1 + b.len();
    let l = s.len() as int;
    assert(l == n3 + y.len());
    assert forall|j: int| n0 <= j < n1 implies is_number_char(#[trigger] s[j]) by {
        assert(s[j] == x[j - n0]);
    }
    assert forall|j: int| n1 <= j < n2 implies #[trigger] s[j] == ' ' by {
        assert(s[j] == a[j - n1]);
    }
    assert(s[n2] == op_symbol(op));
    assert forall|j: int| n2 + 1 <= j < n3 implies #[trigger] s[j] == ' ' by {
        assert(s[j] == b[j - n2 - 1]);
    }
    assert forall|j: int| n3 <= j < l implies is_number_char(#[trigger] s[j]) by {
        assert(s[j] == y[j - n3]);
    }
    let p = if pre.len() == 0 {
        Seq::<Token>::empty()
    } else {
        seq![Token::Op(CalcOp::Sub)]
    };
    if pre.len() > 0 {
        assert(s[0] == '-');
        assert(tokens_upto(s, 0) =~= Seq::<Token>::empty());
        assert(tokens_upto(s, 1) =~= p);
    }
    assert(tokens_upto(s, n0) == p);
    lemma_tokens_number(s, n0, x.len() as int);
    let t1 = p.push(Token::Num { start: n0 as usize, end: n1 as usize });
    assert(tokens_upto(s, n1) == t1);
    lemma_tokens_spaces(s, n1, a.len() as int);
    let t2 = t1.push(Token::Op(op));
    assert(tokens_upto(s, n2 + 1) == t2);
    lemma_tokens_spaces(s, n2 + 1, b.len() as int);
    assert(number_ending_at(t2, n3) is None);
    lemma_tokens_number(s, n3, y.len() as int);
    assert(tokenize(s) =~= p + seq![
        Token::Num { start: n0 as usize, end: n1 as usize },
        Token::Op(op),
        Token::Num { start: n3 as usize, end: l as usize },
    ]);
    assert(s.subrange(n0, n1) =~= x);
    assert(s.subrange(n3, l) =~= y);
}

/// An operator joins the two numbers around it, and a minus sign in front belongs to the
/// first number only: for numbers `x`, `y`, any operator and any spaces around it,
/// `x op y` reads as `x op y`, and `-x op y` as `(-x) op y`.
pub proof fn law_sign_binds_to_the_next_number(
    x: Seq<char>,
    a: Seq<char>,
    op: CalcOp,
    b: Seq<char>,
    y: Seq<char>,
)
    requires
        is_number_text(x),
        is_number_text(y),
        is_spaces(a),
        is_spaces(b),
        x.len() + a.len() + b.len() + y.len() + 2 <= usize::MAX,
    ensures
        calc_tree(x + a + seq![op_symbol(op)] + b + y) == Some(
            CalcExprView::Bin(op, Box::new(CalcExprView::Num(x)), Box::new(CalcExprView::Num(y))),
        ),
        calc_tree(seq!['-'] + x + a + seq![op_symbol(op)] + b + y) == Some(
            CalcExprView::Bin(
                op,
                Box::new(CalcExprView::Neg(Box::new(CalcExprView::Num(x)))),
                Box::new(CalcExprView::Num(y)),
            ),
        ),
{
    let e = Seq::<char>::empty();
    assert(e + x =~= x);
    lemma_tokens_of_two_numbers(e, x, a, op, b, y);
    lemma_tokens_of_two_numbers(seq!['-'], x, a, op, b, y);
    let s1 = x + a + seq![op_symbol(op)] + b + y;
    let s2 = seq!['-'] + x + a + seq![op_symbol(op)] + b + y;
    assert(e + x + a + seq![op_symbol(op)] + b + y =~= s1);
    lemma_parse_two_numbers(s1, tokenize(s1), op, x, y, false);
    lemma_parse_two_numbers(s2, tokenize(s2), op, x, y, true);
}

/// The tree of the tokens `[-] n1 op n2`.
proof fn lemma_parse_two_numbers(s: Seq<char>, ts: Seq<Token>, op: CalcOp, x: Seq<char>, y: Seq<char>, signed: bool)
    requires
        signed ==> ts.len() == 4 && ts[0] == Token::Op(CalcOp::Sub),
        !signed ==> ts.len() == 3,
        ({
            let o = if signed { 1int } else { 0int };
            &&& ts[o] matches Token::Num { start, end } && s.subrange(start as int, end as int) == x
            &&& ts[o + 1] == Token::Op(op)
            &&& ts[o + 2] matches Token::Num { start, end } && s.subrange(start as int, end as int) == y
        }),
    ensures
        p_expr(s, ts) == Some(
            CalcExprView::Bin(
                op,
                Box::new(
                    if signed {
                        CalcExprView::Neg(Box::new(CalcExprView::Num(x)))
                    } else {
                        CalcExprView::Num(x)
                    },
                ),
                Box::new(CalcExprView::Num(y)),
            ),
        ),
{
    let o = if signed { 1int } else { 0int };
    let n = ts.len() as int;
    let additive = op == CalcOp::Add || op == CalcOp::Sub;
    reveal_with_fuel(depth, 5);
    reveal_with_fuel(last_split, 5);
    let left = ts.take(o + 1);
    let right = ts.skip(o + 2);
    assert(right =~= seq![ts[o + 2]]);
    assert(last_split(right, 1, false) is None);
    assert(p_factor(s, right) == Some(CalcExprView::Num(y)));
    assert(p_term(s, right) == Some(CalcExprView::Num(y)));
    let xv = if signed {
        CalcExprView::Neg(Box::new(CalcExprView::Num(x)))
    } else {
        CalcExprView::Num(x)
    };
    assert(last_split(left, left.len() as int, true) is None);
    assert(last_split(left, left.len() as int, false) is None);
    if signed {
        assert(left.skip(1) =~= seq![ts[1]]);
        assert(p_factor(s, left.skip(1)) == Some(CalcExprView::Num(x)));
    }
    assert(p_factor(s, left) == Some(xv));
    assert(p_term(s, left) == Some(xv));
    assert(p_expr(s, left) == Some(xv));
    assert(split_op(ts, o + 1, additive) == Some(op));
    let tree = CalcExprView::Bin(op, Box::new(xv), Box::new(CalcExprView::Num(y)));
    if additive {
        assert(last_split(ts, n, true) == Some((o + 1, op)));
        assert(p_expr(s, ts) == Some(tree));
    } else {
        assert(last_split(ts, n, true) is None);
        assert(last_split(ts, n, false) == Some((o + 1, op)));
        assert(p_term(s, ts) == Some(tree));
        assert(p_expr(s, ts) == Some(tree));
    }
}

proof fn lemma_tokens_symbol(s: Seq<char>, q: int, t: Token)
    requires
        0 <= q < s.len(),
        symbol_token(s[q]) == Some(t),
    ensures
        tokens_upto(s, q + 1) == tokens_upto(s, q).push(t),
{
}

/// `true` when `x op y` groups as `(x op y)` before `op2`: unless `op` is additive and
/// `op2` multiplicative, the left operator groups first.
pub open spec fn groups_left(op: CalcOp, op2: CalcOp) -> bool {
    !((op == CalcOp::Add || op == CalcOp::Sub) && (op2 == CalcOp::Mul || op2 == CalcOp::Div
        || op2 == CalcOp::Rem))
}

/// The tree `l op r`.
pub open spec fn bin(op: CalcOp, l: CalcExprView, r: CalcExprView) -> CalcExprView {
    CalcExprView::Bin(op, Box::new(l), Box::new(r))
}

/// The tree of a number.
pub open spec fn num(x: Seq<char>) -> CalcExprView {
    CalcExprView::Num(x)
}

proof fn lemma_number_chars(s: Seq<char>, x: Seq<char>, off: int)
    requires
        is_number_text(x),
        0 <= off,
        off + x.len() <= s.len(),
        s.subrange(off, off + x.len()) == x,
    ensures
        forall|j: int| off <= j < off + x.len() ==> is_number_char(#[trigger] s[j]),
{
    assert forall|j: int| off <= j < off + x.len() implies is_number_char(#[trigger] s[j]) by {
        assert(s.subrange(off, off + x.len())[j - off] == s[j]);
    }
}

/// `*`, `/` and `%` bind tighter than `+` and `-`, and operators of one level group to the
/// left: for numbers `x`, `y`, `z`, the text `x op y op2 z` reads as `x op (y op2 z)` when
/// `op` is additive and `op2` multiplicative, and as `(x op y) op2 z` otherwise.
pub proof fn law_precedence_and_grouping(
    x: Seq<char>,
    op: CalcOp,
    y: Seq<char>,
    op2: CalcOp,
    z: Seq<char>,
)
    requires
        is_number_text(x),
        is_number_text(y),
        is_number_text(z),
        x.len() + y.len() + z.len() + 2 <= usize::MAX,
    ensures
        calc_tree(x + seq![op_symbol(op)] + y + seq![op_symbol(op2)] + z) == Some(
            if groups_left(op, op2) {
                bin(op2, bin(op, num(x), num(y)), num(z))
            } else {
                bin(op, num(x), bin(op2, num(y), num(z)))
            },
        ),
{
    let s = x + seq![op_symbol(op)] + y + seq![op_symbol(op2)] + z;
    let n1 = x.len() as int;
    let n2 = n1 + 1 + y.len();
    let l = s.len() as int;
    assert(s.subrange(0, n1) =~= x);
    assert(s.subrange(n1 + 1, n2) =~= y);
    assert(s.subrange(n2 + 1, l) =~= z);
    assert(s[n1] == op_symbol(op));
    assert(s[n2] == op_symbol(op2));
    lemma_number_chars(s, x, 0);
    lemma_number_chars(s, y, n1 + 1);
    lemma_number_chars(s, z, n2 + 1);
    let a = Token::Num { start: 0, end: n1 as usize };
    let b = Token::Num { start: (n1 + 1) as usize, end: n2 as usize };
    let c = Token::Num { start: (n2 + 1) as usize, end: l as usize };
    assert(tokens_upto(s, 0) =~= Seq::<Token>::empty());
    lemma_tokens_number(s, 0, n1);
    lemma_tokens_symbol(s, n1, Token::Op(op));
    lemma_tokens_number(s, n1 + 1, y.len() as int);
    lemma_tokens_symbol(s, n2, Token::Op(op2));
    lemma_tokens_number(s, n2 + 1, z.len() as int);
    let ts = seq![a, Token::Op(op), b, Token::Op(op2), c];
    assert(tokenize(s) =~= ts);
    reveal_with_fuel(depth, 6);
    reveal_with_fuel(last_split, 6);
    let add1 = op == CalcOp::Add || op == CalcOp::Sub;
    let add2 = op2 == CalcOp::Add || op2 == CalcOp::Sub;
    // single numbers
    assert(ts.take(1) =~= seq![a]);
    assert(ts.skip(2).take(1) =~= seq![b]);
    assert(ts.skip(4) =~= seq![c]);
    assert(ts.skip(2).skip(2) =~= seq![c]);
    assert(ts.take(3).skip(2) =~= seq![b]);
    assert(ts.take(3).take(1) =~= seq![a]);
    assert(last_split(seq![a], 1, true) is None && last_split(seq![a], 1, false) is None);
    assert(last_split(seq![b], 1, true) is None && last_split(seq![b], 1, false) is None);
    assert(last_split(seq![c], 1, true) is None && last_split(seq![c], 1, false) is None);
    assert(p_factor(s, seq![a]) == Some(num(x)));
    assert(p_factor(s, seq![b]) == Some(num(y)));
    assert(p_factor(s, seq![c]) == Some(num(z)));
    assert(p_term(s, seq![a]) == Some(num(x)));
    assert(p_term(s, seq![b]) == Some(num(y)));
    assert(p_term(s, seq![c]) == Some(num(z)));
    assert(p_expr(s, seq![a]) == Some(num(x)));
    // the first three tokens, `x op y`
    let head = ts.take(3);
    let tail = ts.skip(2);
    if add1 {
        assert(last_split(head, 3, true) == Some((1int, op)));
        assert(p_expr(s, head) == Some(bin(op, num(x), num(y))));
    } else {
        assert(last_split(head, 3, true) is None);
        assert(last_split(head, 3, false) == Some((1int, op)));
        assert(p_term(s, head) == Some(bin(op, num(x), num(y))));
        assert(p_expr(s, head) == Some(bin(op, num(x), num(y))));
    }
    if !add2 {
        assert(last_split(tail, 3, false) == Some((1int, op2)));
        assert(p_term(s, tail) == Some(bin(op2, num(y), num(z))));
    }
    if add2 {
        assert(last_split(ts, 5, true) == Some((3int, op2)));
        assert(p_expr(s, ts) == Some(bin(op2, bin(op, num(x), num(y)), num(z))));
    } else if add1 {
        assert(last_split(ts, 5, true) == Some((1int, op)));
        assert(ts.skip(2) == tail);
        assert(p_expr(s, ts) == Some(bin(op, num(x), bin(op2, num(y), num(z)))));
    } else {
        assert(last_split(ts, 5, true) is None);
        assert(last_split(ts, 5, false) == Some((3int, op2)));
        assert(p_term(s, ts) == Some(bin(op2, bin(op, num(x), num(y)), num(z))));
    }
}

/// Parentheses group first: for numbers `x`, `y`, `z` and any operators, `(x op y) op2 z`
/// reads as `(x op y) op2 z` and `x op (y op2 z)` as `x op (y op2 z)`, whatever the
/// operators' levels.
pub proof fn law_parentheses_group_first(
    x: Seq<char>,
    op: CalcOp,
    y: Seq<char>,
    op2: CalcOp,
    z: Seq<char>,
)
    requires
        is_number_text(x),
        is_number_text(y),
        is_number_text(z),
        x.len() + y.len() + z.len() + 4 <= usize::MAX,
    ensures
        calc_tree(seq!['('] + x + seq![op_symbol(op)] + y + seq![')'] + seq![op_symbol(op2)] + z)
            == Some(bin(op2, bin(op, num(x), num(y)), num(z))),
        calc_tree(x + seq![op_symbol(op)] + seq!['('] + y + seq![op_symbol(op2)] + z + seq![')'])
            == Some(bin(op, num(x), bin(op2, num(y), num(z)))),
{
    lemma_parenthesised_left(x, op, y, op2, z);
    lemma_parenthesised_right(x, op, y, op2, z);
}

proof fn lemma_parenthesised_left(x: Seq<char>, op: CalcOp, y: Seq<char>, op2: CalcOp, z: Seq<char>)
    requires
        is_number_text(x),
        is_number_text(y),
        is_number_text(z),
        x.len() + y.len() + z.len() + 4 <= usize::MAX,
    ensures
        calc_tree(seq!['('] + x + seq![op_symbol(op)] + y + seq![')'] + seq![op_symbol(op2)] + z)
            == Some(bin(op2, bin(op, num(x), num(y)), num(z))),
{
    let s = seq!['('] + x + seq![op_symbol(op)] + y + seq![')'] + seq![op_symbol(op2)] + z;
    let n1 = 1 + x.len() as int;
    let n2 = n1 + 1 + y.len();
    let l = s.len() as int;
    assert(s[0] == '(');
    assert(s.subrange(1, n1) =~= x);
    assert(s[n1] == op_symbol(op));
    assert(s.subrange(n1 + 1, n2) =~= y);
    assert(s[n2] == ')');
    assert(s[n2 + 1] == op_symbol(op2));
    assert(s.subrange(n2 + 2, l) =~= z);
    lemma_number_chars(s, x, 1);
    lemma_number_chars(s, y, n1 + 1);
    lemma_number_chars(s, z, n2 + 2);
    let a = Token::Num { start: 1, end: n1 as usize };
    let b = Token::Num { start: (n1 + 1) as usize, end: n2 as usize };
    let c = Token::Num { start: (n2 + 2) as usize, end: l as usize };
    assert(tokens_upto(s, 0) =~= Seq::<Token>::empty());
    lemma_tokens_symbol(s, 0, Token::Open);
    lemma_tokens_number(s, 1, x.len() as int);
    lemma_tokens_symbol(s, n1, Token::Op(op));
    lemma_tokens_number(s, n1 + 1, y.len() as int);
    lemma_tokens_symbol(s, n2, Token::Close);
    lemma_tokens_symbol(s, n2 + 1, Token::Op(op2));
    lemma_tokens_number(s, n2 + 2, z.len() as int);
    let ts = seq![Token::Open, a, Token::Op(op), b, Token::Close, Token::Op(op2), c];
    assert(tokenize(s) =~= ts);
    reveal_with_fuel(depth, 8);
    reveal_with_fuel(last_split, 8);
    let inner = seq![a, Token::Op(op), b];
    lemma_parse_two_numbers(s, inner, op, x, y, false);
    let group = ts.take(5);
    assert(group.subrange(1, 4) =~= inner);
    assert(last_split(group, 5, true) is None);
    assert(last_split(group, 5, false) is None);
    assert(p_factor(s, group) == Some(bin(op, num(x), num(y))));
    assert(p_term(s, group) == Some(bin(op, num(x), num(y))));
    assert(p_expr(s, group) == Some(bin(op, num(x), num(y))));
    assert(ts.skip(6) =~= seq![c]);
    assert(last_split(seq![c], 1, false) is None);
    assert(p_factor(s, seq![c]) == Some(num(z)));
    assert(p_term(s, seq![c]) == Some(num(z)));
    if op2 == CalcOp::Add || op2 == CalcOp::Sub {
        assert(last_split(ts, 7, true) == Some((5int, op2)));
    } else {
        assert(last_split(ts, 7, true) is None);
        assert(last_split(ts, 7, false) == Some((5int, op2)));
        assert(p_term(s, ts) == Some(bin(op2, bin(op, num(x), num(y)), num(z))));
    }
}

proof fn lemma_parenthesised_right(x: Seq<char>, op: CalcOp, y: Seq<char>, op2: CalcOp, z: Seq<char>)
    requires
        is_number_text(x),
        is_number_text(y),
        is_number_text(z),
        x.len() + y.len() + z.len() + 4 <= usize::MAX,
    ensures
        calc_tree(x + seq![op_symbol(op)] + seq!['('] + y + seq![op_symbol(op2)] + z + seq![')'])
            == Some(bin(op, num(x), bin(op2, num(y), num(z)))),
{
    let s = x + seq![op_symbol(op)] + seq!['('] + y + seq![op_symbol(op2)] + z + seq![')'];
    let n1 = x.len() as int;
    let n2 = n1 + 2 + y.len();
    let n3 = n2 + 1 + z.len();
    let l = s.len() as int;
    assert(l == n3 + 1);
    assert(s.subrange(0, n1) =~= x);
    assert(s[n1] == op_symbol(op));
    assert(s[n1 + 1] == '(');
    assert(s.subrange(n1 + 2, n2) =~= y);
    assert(s[n2] == op_symbol(op2));
    assert(s.subrange(n2 + 1, n3) =~= z);
    assert(s[n3] == ')');
    lemma_number_chars(s, x, 0);
    lemma_number_chars(s, y, n1 + 2);
    lemma_number_chars(s, z, n2 + 1);
    let a = Token::Num { start: 0, end: n1 as usize };
    let b = Token::Num { start: (n1 + 2) as usize, end: n2 as usize };
    let c = Token::Num { start: (n2 + 1) as usize, end: n3 as usize };
    assert(tokens_upto(s, 0) =~= Seq::<Token>::empty());
    lemma_tokens_number(s, 0, n1);
    lemma_tokens_symbol(s, n1, Token::Op(op));
    lemma_tokens_symbol(s, n1 + 1, Token::Open);
    lemma_tokens_number(s, n1 + 2, y.len() as int);
    lemma_tokens_symbol(s, n2, Token::Op(op2));
    lemma_tokens_number(s, n2 + 1, z.len() as int);
    lemma_tokens_symbol(s, n3, Token::Close);
    let ts = seq![a, Token::Op(op), Token::Open, b, Token::Op(op2), c, Token::Close];
    assert(tokenize(s) =~= ts);
    reveal_with_fuel(depth, 8);
    reveal_with_fuel(last_split, 8);
    let inner = seq![b, Token::Op(op2), c];
    lemma_parse_two_numbers(s, inner, op2, y, z, false);
    let group = ts.skip(2);
    assert(group.subrange(1, 4) =~= inner);
    assert(last_split(group, 5, true) is None);
    assert(last_split(group, 5, false) is None);
    assert(p_factor(s, group) == Some(bin(op2, num(y), num(z))));
    assert(p_term(s, group) == Some(bin(op2, num(y), num(z))));
    assert(ts.take(1) =~= seq![a]);
    assert(last_split(seq![a], 1, true) is None && last_split(seq![a], 1, false) is None);
    assert(p_factor(s, seq![a]) == Some(num(x)));
    assert(p_term(s, seq![a]) == Some(num(x)));
    assert(p_expr(s, seq![a]) == Some(num(x)));
    if op == CalcOp::Add || op == CalcOp::Sub {
        assert(last_split(ts, 7, true) == Some((1int, op)));
    } else {
        assert(last_split(ts, 7, true) is None);
        assert(last_split(ts, 7, false) == Some((1int, op)));
        assert(p_term(s, ts) == Some(bin(op, num(x), bin(op2, num(y), num(z)))));
    }
}

/// Spaces separate numbers: two numbers with spaces between them and no operator are no
/// expression, rather than one number.
pub proof fn law_spaces_separate_numbers(x: Seq<char>, a: Seq<char>, y: Seq<char>)
    requires
        is_number_text(x),
        is_number_text(y),
        is_spaces(a),
        a.len() > 0,
        x.len() + a.len() + y.len() <= usize::MAX,
    ensures
        calc_tree(x + a + y) is None,
{
    let s = x + a + y;
    let n1 = x.len() as int;
    let n2 = n1 + a.len();
    let l = s.len() as int;
    assert(s.subrange(0, n1) =~= x);
    assert(s.subrange(n2, l) =~= y);
    lemma_number_chars(s, x, 0);
    lemma_number_chars(s, y, n2);
    assert forall|j: int| n1 <= j < n2 implies #[trigger] s[j] == ' ' by {
        assert(s[j] == a[j - n1]);
    }
    assert(tokens_upto(s, 0) =~= Seq::<Token>::empty());
    lemma_tokens_number(s, 0, n1);
    lemma_tokens_spaces(s, n1, a.len() as int);
    let t1 = seq![Token::Num { start: 0, end: n1 as usize }];
    assert(tokens_upto(s, n1) =~= t1);
    assert(number_ending_at(t1, n2) is None);
    lemma_tokens_number(s, n2, y.len() as int);
    let ts = seq![Token::Num { start: 0, end: n1 as usize }, Token::Num { start: n2 as usize, end: l as usize }];
    assert(tokenize(s) =~= ts);
    reveal_with_fuel(last_split, 3);
    assert(last_split(ts, 2, true) is None);
    assert(last_split(ts, 2, false) is None);
    assert(ts[0] != Token::Op(CalcOp::Sub) && ts[0] != Token::Op(CalcOp::Add) && ts[0] != Token::Open);
    assert(p_factor(s, ts) is None);
    assert(p_term(s, ts) is None);
    assert(p_expr(s, ts) is None);
}

/// The characters `start..end` of `cs`.
fn chars_between(cs: &Vec<char>, start: usize, end: usize) -> (res: Vec<char>)
    requires
        start <= end <= cs.len(),
    ensures
        res@ == cs@.subrange(start as int, end as int),
{
    let mut out: Vec<char> = Vec::new();
    let mut k = start;
    while k < end
        invariant
            start <= k <= end,
            end <= cs.len(),
            out@ =~= cs@.subrange(start as int, k as int),
        decreases end - k,
    {
        out.push(cs[k]);
        k = k + 1;
    }
    out
}

/// Cuts the characters of an expression into tokens.
pub fn tokenize_exec(cs: &Vec<char>) -> (res: Vec<Token>)
    ensures
        res@ == tokenize(cs@),
        tokens_placed(res@, cs.len() as int),
{
    let mut ts: Vec<Token> = Vec::new();
    let mut i: usize = 0;
    while i < cs.len()
        invariant
            i <= cs.len(),
            ts@ == tokens_upto(cs@, i as int),
            tokens_placed(ts@, i as int),
        decreases cs.len() - i,
    {
        let c = cs[i];
        let code = c as u32;
        let ghost before = ts@;
        if (48 <= code && code <= 57) || c == '.' {
            let n = ts.len();
            let mut merged = false;
            if n > 0 {
                if let Token::Num { start, end } = ts[n - 1] {
                    if end == i {
                        ts.set(n - 1, Token::Num { start, end: i + 1 });
                        merged = true;
                        assert(ts@ =~= before.drop_last().push(Token::Num { start, end: (i + 1) as usize }));
                    }
                }
            }
            if !merged {
                ts.push(Token::Num { start: i, end: i + 1 });
            }
        } else if c == '+' {
            ts.push(Token::Op(CalcOp::Add));
        } else if c == '-' {
            ts.push(Token::Op(CalcOp::Sub));
        } else if c == '*' {
            ts.push(Token::Op(CalcOp::Mul));
        } else if c == '/' {
            ts.push(Token::Op(CalcOp::Div));
        } else if c == '%' {
            ts.push(Token::Op(CalcOp::Rem));
        } else if c == '(' {
            ts.push(Token::Open);
        } else if c == ')' {
            ts.push(Token::Close);
        }
        assert(ts@ == tokens_upto(cs@, i + 1));
        assert forall|k: int| 0 <= k < ts@.len() implies match #[trigger] ts@[k] {
            Token::Num { start, end } => start < end <= i + 1,
            _ => true,
        } by {
            if k < before.len() && ts@[k] == before[k] {
                assert(match before[k] {
                    Token::Num { start, end } => start < end <= i,
                    _ => true,
                });
            }
        }
        i = i + 1;
    }
    ts
}

/// Finds the last position in `lo..hi` where the tokens split at the given level.
fn find_split(ts: &Vec<Token>, lo: usize, hi: usize, additive: bool) -> (res: Option<(usize, CalcOp)>)
    requires
        lo <= hi <= ts.len(),
    ensures
        match res {
            Some((i, op)) => lo < i < hi && last_split(
                ts@.subrange(lo as int, hi as int),
                hi - lo,
                additive,
            ) == Some(((i - lo) as int, op)),
            None => last_split(ts@.subrange(lo as int, hi as int), hi - lo, additive) is None,
        },
{
    let ghost sub = ts@.subrange(lo as int, hi as int);
    let mut found: Option<(usize, CalcOp)> = None;
    let mut opens: usize = 0;
    let mut closes: usize = 0;
    let mut k = lo;
    while k < hi
        invariant
            lo <= k <= hi,
            hi <= ts.len(),
            sub == ts@.subrange(lo as int, hi as int),
            opens <= k - lo,
            closes <= k - lo,
            opens as int - closes as int == depth(sub, k - lo),
            match found {
                Some((i, op)) => lo < i < k && last_split(sub, k - lo, additive) == Some(
                    ((i - lo) as int, op),
                ),
                None => last_split(sub, k - lo, additive) is None,
            },
        decreases hi - k,
    {
        let t = ts[k];
        let ghost j = k - lo;
        assert(sub[j] == t);
        if k > lo && opens == closes {
            let prev = ts[k - 1];
            assert(sub[j - 1] == prev);
            let operand = match prev {
                Token::Num { .. } => true,
                Token::Close => true,
                _ => false,
            };
            if operand {
                if let Token::Op(op) = t {
                    let fits = if additive {
                        op == CalcOp::Add || op == CalcOp::Sub
                    } else {
                        op == CalcOp::Mul || op == CalcOp::Div || op == CalcOp::Rem
                    };
                    if fits {
                        found = Some((k, op));
                    }
                }
            }
        }
        assert(last_split(sub, j + 1, additive) == match split_op(sub, j, additive) {
            Some(op) => Some((j, op)),
            None => last_split(sub, j, additive),
        });
        assert(depth(sub, j + 1) == depth(sub, j) + match sub[j] {
            Token::Open => 1int,
            Token::Close => -1int,
            _ => 0int,
        });
        match t {
            Token::Open => {
                opens = opens + 1;
            },
            Token::Close => {
                closes = closes + 1;
            },
            _ => {},
        }
        k = k + 1;
    }
    found
}

/// Reads tokens `lo..hi` as an expression.
fn parse_expr(cs: &Vec<char>, ts: &Vec<Token>, lo: usize, hi: usize) -> (res: Option<CalcExpr>)
    requires
        lo <= hi <= ts.len(),
        tokens_placed(ts@, cs.len() as int),
    ensures
        opt_expr_view(res) == p_expr(cs@, ts@.subrange(lo as int, hi as int)),
    decreases hi - lo, 2int,
{
    let ghost sub = ts@.subrange(lo as int, hi as int);
    match find_split(ts, lo, hi, true) {
        Some((i, op)) => {
            assert(sub.take(i - lo) =~= ts@.subrange(lo as int, i as int));
            assert(sub.skip(i - lo + 1) =~= ts@.subrange(i + 1, hi as int));
            match parse_expr(cs, ts, lo, i) {
                None => None,
                Some(l) => match parse_term(cs, ts, i + 1, hi) {
                    None => None,
                    Some(r) => Some(CalcExpr::Bin(op, Box::new(l), Box::new(r))),
                },
            }
        },
        None => parse_term(cs, ts, lo, hi),
    }
}

/// Reads tokens `lo..hi` as a term.
fn parse_term(cs: &Vec<char>, ts: &Vec<Token>, lo: usize, hi: usize) -> (res: Option<CalcExpr>)
    requires
        lo <= hi <= ts.len(),
        tokens_placed(ts@, cs.len() as int),
    ensures
        opt_expr_view(res) == p_term(cs@, ts@.subrange(lo as int, hi as int)),
    decreases hi - lo, 1int,
{
    let ghost sub = ts@.subrange(lo as int, hi as int);
    match find_split(ts, lo, hi, false) {
        Some((i, op)) => {
            assert(sub.take(i - lo) =~= ts@.subrange(lo as int, i as int));
            assert(sub.skip(i - lo + 1) =~= ts@.subrange(i + 1, hi as int));
            match parse_term(cs, ts, lo, i) {
                None => None,
                Some(l) => match parse_factor(cs, ts, i + 1, hi) {
                    None => None,
                    Some(r) => Some(CalcExpr::Bin(op, Box::new(l), Box::new(r))),
                },
            }
        },
        None => parse_factor(cs, ts, lo, hi),
    }
}

/// Reads tokens `lo..hi` as a factor.
fn parse_factor(cs: &Vec<char>, ts: &Vec<Token>, lo: usize, hi: usize) -> (res: Option<CalcExpr>)
    requires
        lo <= hi <= ts.len(),
        tokens_placed(ts@, cs.len() as int),
    ensures
        opt_expr_view(res) == p_factor(cs@, ts@.subrange(lo as int, hi as int)),
    decreases hi - lo, 0int,
{
    let ghost sub = ts@.subrange(lo as int, hi as int);
    if lo == hi {
        return None;
    }
    let first = ts[lo];
    assert(sub[0] == first);
    if first == Token::Op(CalcOp::Sub) {
        assert(sub.skip(1) =~= ts@.subrange(lo + 1, hi as int));
        match parse_factor(cs, ts, lo + 1, hi) {
            Some(e) => Some(CalcExpr::Neg(Box::new(e))),
            None => None,
        }
    } else if first == Token::Op(CalcOp::Add) {
        assert(sub.skip(1) =~= ts@.subrange(lo + 1, hi as int));
        parse_factor(cs, ts, lo + 1, hi)
    } else if hi - lo >= 2 && first == Token::Open && ts[hi - 1] == Token::Close {
        assert(sub.last() == ts@[hi - 1]);
        assert(sub.subrange(1, sub.len() - 1) =~= ts@.subrange(lo + 1, hi - 1));
        parse_expr(cs, ts, lo + 1, hi - 1)
    } else if hi - lo == 1 {
        match first {
            Token::Num { start, end } => {
                assert(match ts@[lo as int] {
                    Token::Num { start, end } => start < end <= cs.len(),
                    _ => true,
                });
                let t = chars_between(cs, start, end);
                Some(CalcExpr::Num(string_from_chars(&t)))
            },
            _ => None,
        }
    } else {
        if hi - lo >= 2 && first == Token::Open {
            assert(sub.last() == ts@[hi - 1]);
        }
        None
    }
}

/// Why an expression cannot be calculated.
#[derive(PartialEq, Eq, Structural, Clone, Copy, Debug)]
pub enum CalcShapeError {
    /// A character other than a digit, a space or one of `+-*/%.()`.
    ForbiddenCharacter,
    /// The tokens do not follow the grammar of expressions.
    Malformed,
}

/// The message that an error of shape is reported with.
pub open spec fn calc_shape_error_text(e: CalcShapeError) -> Seq<char> {
    match e {
        CalcShapeError::ForbiddenCharacter => "Only basic math operators allowed"@,
        CalcShapeError::Malformed => "Format: numbers joined by + - * / % with parentheses as needed (e.g. 2 + 2 * 3)"@,
    }
}

/// The message for an error of shape.
pub fn calc_shape_error_message(e: CalcShapeError) -> (res: String)
    ensures
        res@ == calc_shape_error_text(e),
{
    match e {
        CalcShapeError::ForbiddenCharacter => owned("Only basic math operators allowed"),
        CalcShapeError::Malformed => owned(
            "Format: numbers joined by + - * / % with parentheses as needed (e.g. 2 + 2 * 3)",
        ),
    }
}

/// Reads an expression into its tree: it fails when a character is forbidden, then when the
/// tokens do not follow the grammar; else it gives the tree of the grammar, with `*`, `/`
/// and `%` binding tighter than `+` and `-`, operators of one level grouping to the left,
/// and parentheses grouping first.
pub fn calc_parse(expr: &str) -> (res: Result<CalcExpr, CalcShapeError>)
    ensures
        match res {
            Err(CalcShapeError::ForbiddenCharacter) => calc_forbidden(expr@),
            Err(CalcShapeError::Malformed) => !calc_forbidden(expr@) && calc_tree(expr@) is None,
            Ok(t) => !calc_forbidden(expr@) && calc_tree(expr@) == Some(t@),
        },
{
    let cs = chars_of(expr);
    let n = cs.len();
    let mut i: usize = 0;
    while i < n
        invariant
            i <= n,
            n == cs@.len(),
            cs@ == expr@,
            forall|k: int| 0 <= k < i ==> calc_char_ok(#[trigger] cs@[k]),
        decreases n - i,
    {
        let c = cs[i];
        let code = c as u32;
        let ok = (48 <= code && code <= 57) || c == '+' || c == '-' || c == '*' || c == '/' || c
            == '%' || c == '.' || c == ' ' || c == '(' || c == ')';
        if !ok {
            assert(!calc_char_ok(cs@[i as int]));
            return Err(CalcShapeError::ForbiddenCharacter);
        }
        i = i + 1;
    }
    let ts = tokenize_exec(&cs);
    assert(ts@.subrange(0, ts@.len() as int) =~= ts@);
    match parse_expr(&cs, &ts, 0, ts.len()) {
        Some(t) => Ok(t),
        None => Err(CalcShapeError::Malformed),
    }
}

} // verus!
