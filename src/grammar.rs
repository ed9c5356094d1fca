//! The grammar as spec functions over a token sequence: each one reads from a
//! position and gives the model of what it recognises with the position after
//! it, or the first syntax error.
//!
//! A few branches test that a sub-parse moved forward (`forward`, `within`);
//! they only make the recursion visibly well founded, since every parse
//! function consumes what it recognises.
use vstd::prelude::*;
use crate::node::{
    binary, BinaryOp, CatchModel, ElseIfModel, ExprModel, Frame, LvalueModel, ParamModel, StmtModel,
};
use crate::token::{kind_at, skip_nl, step, tok, Token, TokenKind};

verus! {

/// Whether line breaks end statements (`Heed`) or are skipped as whitespace
/// (`Ignore`).
#[derive(Clone, Copy, PartialEq, Eq, Structural, Debug)]
pub enum NewlinePolicy {
    Heed,
    Ignore,
}

#[derive(Clone, Copy, PartialEq, Eq, Structural, Debug)]
pub enum ErrorKind {
    ExpectedNewline,
    ExpectedOpenBrace,
    ExpectedCloseBrace,
    ExpectedIdentifier,
    ExpectedVariable,
    ExpectedOpenParenthesis,
    ExpectedCloseParenthesis,
    ExpectedCloseParenthesisOrComma,
    InvalidAssignmentTarget,
    InvalidIntegerLiteral,
    Unexpected(TokenKind),
}

/// A syntax error at the byte offset of the offending token.
#[derive(Clone, Copy, PartialEq, Eq, Structural, Debug)]
pub struct ParseError {
    pub source_offset: usize,
    pub kind: ErrorKind,
}

/// A level of left-associative infix operators.
#[derive(Clone, Copy, PartialEq, Eq, Structural, Debug)]
pub enum Tier {
    Multiplicative,
    Additive,
    Union,
    Conjunction,
    Disjunction,
}

pub const PRECEDENCE_MULTIPLICATIVE: u8 = 31;
pub const PRECEDENCE_ADDITIVE: u8 = 30;
pub const PRECEDENCE_UNION: u8 = 25;
pub const PRECEDENCE_COMPARE: u8 = 20;
pub const PRECEDENCE_NOT: u8 = 11;
pub const PRECEDENCE_BIN_LOGIC: u8 = 10;
pub const PRECEDENCE_ANY: u8 = 0;

pub type Parsed<A> = Result<(A, int), ParseError>;

pub open spec fn tier_precedence(tier: Tier) -> u8 {
    match tier {
        Tier::Multiplicative => PRECEDENCE_MULTIPLICATIVE,
        Tier::Additive => PRECEDENCE_ADDITIVE,
        Tier::Union => PRECEDENCE_UNION,
        Tier::Conjunction => PRECEDENCE_BIN_LOGIC,
        Tier::Disjunction => PRECEDENCE_BIN_LOGIC,
    }
}

pub open spec fn tier_operator(tier: Tier, k: TokenKind) -> Option<BinaryOp> {
    match (tier, k) {
        (Tier::Multiplicative, TokenKind::Asterisk) => Some(BinaryOp::Multiplication),
        (Tier::Multiplicative, TokenKind::Slash) => Some(BinaryOp::Division),
        (Tier::Additive, TokenKind::Plus) => Some(BinaryOp::Addition),
        (Tier::Additive, TokenKind::Dash) => Some(BinaryOp::Subtraction),
        (Tier::Union, TokenKind::VerticalBar) => Some(BinaryOp::Union),
        (Tier::Conjunction, TokenKind::And) => Some(BinaryOp::And),
        (Tier::Disjunction, TokenKind::Or) => Some(BinaryOp::Or),
        _ => None,
    }
}

pub open spec fn comparison_operator(k: TokenKind) -> Option<BinaryOp> {
    match k {
        TokenKind::Is => Some(BinaryOp::Is),
        TokenKind::EqualsEquals => Some(BinaryOp::Eq),
        TokenKind::BangEquals => Some(BinaryOp::Neq),
        TokenKind::LeftAngleBracket => Some(BinaryOp::Lt),
        TokenKind::RightAngleBracket => Some(BinaryOp::Gt),
        TokenKind::LeftAngleBracketEquals => Some(BinaryOp::LtEq),
        TokenKind::RightAngleBracketEquals => Some(BinaryOp::GtEq),
        _ => None,
    }
}

pub open spec fn is_digit(c: char) -> bool {
    '0' <= c <= '9'
}

pub open spec fn decimal_value(s: Seq<char>) -> int
    decreases s.len(),
{
    if s.len() == 0 {
        0
    } else {
        decimal_value(s.drop_last()) * 10 + (s.last() as int - '0' as int)
    }
}

/// The value of a decimal integer literal, if it is one and fits in `i64`.
pub open spec fn integer_literal(s: Seq<char>) -> Option<i64> {
    if s.len() > 0 && (forall|i: int| 0 <= i < s.len() ==> is_digit(#[trigger] s[i]))
        && decimal_value(s) <= i64::MAX {
        Some(decimal_value(s) as i64)
    } else {
        None
    }
}

/// The variant of an expression that may stand left of `=`.
pub open spec fn lvalue_of(e: ExprModel) -> Option<LvalueModel> {
    match e {
        ExprModel::Variable { name, slot, offset } => Some(LvalueModel::Variable { name, slot, offset }),
        ExprModel::DotAccess { base, name } => Some(LvalueModel::DotAccess { base: *base, name }),
        _ => None,
    }
}

// Reading tokens under a newline policy.

/// Where the next token that the policy lets through stands.
pub open spec fn visible(t: Seq<Token>, pol: NewlinePolicy, i: int) -> int {
    match pol {
        NewlinePolicy::Heed => i,
        NewlinePolicy::Ignore => skip_nl(t, i),
    }
}

pub open spec fn next_token(t: Seq<Token>, pol: NewlinePolicy, i: int) -> Token {
    tok(t, visible(t, pol, i))
}

pub open spec fn peek(t: Seq<Token>, pol: NewlinePolicy, i: int) -> TokenKind {
    next_token(t, pol, i).kind
}

/// Where the token `n` places after the next visible one stands.
pub open spec fn nth_visible(t: Seq<Token>, pol: NewlinePolicy, i: int, n: nat) -> int
    decreases n,
{
    if n == 0 {
        visible(t, pol, i)
    } else {
        visible(t, pol, nth_visible(t, pol, i, (n - 1) as nat) + 1)
    }
}

pub open spec fn peek_nth(t: Seq<Token>, pol: NewlinePolicy, i: int, n: nat) -> TokenKind {
    kind_at(t, nth_visible(t, pol, i, n))
}

/// The kind of the token after the next one.
pub open spec fn peek_second(t: Seq<Token>, pol: NewlinePolicy, i: int) -> TokenKind {
    kind_at(t, visible(t, pol, visible(t, pol, i) + 1))
}

/// The position after reading one token.
pub open spec fn advance(t: Seq<Token>, pol: NewlinePolicy, i: int) -> int {
    step(t, visible(t, pol, i))
}

/// The position after skipping the newlines that the policy shows.
pub open spec fn skip_lines(t: Seq<Token>, pol: NewlinePolicy, i: int) -> int {
    match pol {
        NewlinePolicy::Heed => skip_nl(t, i),
        NewlinePolicy::Ignore => i,
    }
}

pub open spec fn error_at(t: Seq<Token>, pol: NewlinePolicy, i: int, kind: ErrorKind) -> ParseError {
    ParseError { source_offset: next_token(t, pol, i).offset, kind }
}

pub open spec fn forward(t: Seq<Token>, i: int, j: int) -> bool {
    i < j < t.len()
}

pub open spec fn within(t: Seq<Token>, i: int, j: int) -> bool {
    i <= j < t.len()
}

// Expressions.

/// Left-associative chain of one tier's operators, starting from `left`.
#[verifier::opaque]
pub open spec fn fold(t: Seq<Token>, pol: NewlinePolicy, p: int, left: ExprModel, tier: Tier) -> Parsed<
    ExprModel,
>
    decreases t.len() - p, 0int,
{
    match tier_operator(tier, peek(t, pol, p)) {
        None => Ok((left, p)),
        Some(op) => {
            let k = skip_lines(t, pol, advance(t, pol, p));
            if !forward(t, p, k) {
                arbitrary()
            } else {
                match expression(t, pol, k, (tier_precedence(tier) + 1) as u8) {
                    Err(e) => Err(e),
                    Ok((right, q)) => if !forward(t, p, q) {
                        arbitrary()
                    } else {
                        fold(t, pol, q, binary(op, left, right), tier)
                    },
                }
            }
        },
    }
}

/// At most one comparison after `left`.
#[verifier::opaque]
pub open spec fn compare(t: Seq<Token>, pol: NewlinePolicy, p: int, left: ExprModel) -> Parsed<
    ExprModel,
>
    decreases t.len() - p, 0int,
{
    match comparison_operator(peek(t, pol, p)) {
        None => Ok((left, p)),
        Some(op) => {
            let k = skip_lines(t, pol, advance(t, pol, p));
            if !forward(t, p, k) {
                arbitrary()
            } else {
                match expression(t, pol, k, (PRECEDENCE_COMPARE + 1) as u8) {
                    Err(e) => Err(e),
                    Ok((right, q)) => Ok((binary(op, left, right), q)),
                }
            }
        },
    }
}

/// A chain of `and`, or else a chain of `or`, where `min` admits them.
#[verifier::opaque]
pub open spec fn logic(t: Seq<Token>, pol: NewlinePolicy, p: int, left: ExprModel, min: u8) -> Parsed<
    ExprModel,
>
    decreases t.len() - p, 1int,
{
    if min > PRECEDENCE_BIN_LOGIC {
        Ok((left, p))
    } else if peek(t, pol, p) == TokenKind::And {
        fold(t, pol, p, left, Tier::Conjunction)
    } else {
        fold(t, pol, p, left, Tier::Disjunction)
    }
}

/// The infix operators that `min` admits, tier by tier, after `left`.
#[verifier::opaque]
pub open spec fn tiers(t: Seq<Token>, pol: NewlinePolicy, p: int, left: ExprModel, min: u8) -> Parsed<
    ExprModel,
>
    decreases t.len() - p, 3int,
{
    if min > PRECEDENCE_MULTIPLICATIVE {
        Ok((left, p))
    } else {
        match fold(t, pol, p, left, Tier::Multiplicative) {
            Err(e) => Err(e),
            Ok((l1, p1)) => if !within(t, p, p1) {
                arbitrary()
            } else if min > PRECEDENCE_ADDITIVE {
                Ok((l1, p1))
            } else {
                match fold(t, pol, p1, l1, Tier::Additive) {
                    Err(e) => Err(e),
                    Ok((l2, p2)) => if !within(t, p, p2) {
                        arbitrary()
                    } else if min > PRECEDENCE_UNION {
                        Ok((l2, p2))
                    } else {
                        match fold(t, pol, p2, l2, Tier::Union) {
                            Err(e) => Err(e),
                            Ok((l3, p3)) => if !within(t, p, p3) {
                                arbitrary()
                            } else if min > PRECEDENCE_COMPARE {
                                Ok((l3, p3))
                            } else {
                                match compare(t, pol, p3, l3) {
                                    Err(e) => Err(e),
                                    Ok((l4, p4)) => if !within(t, p, p4) {
                                        arbitrary()
                                    } else {
                                        logic(t, pol, p4, l4, min)
                                    },
                                }
                            },
                        }
                    },
                }
            },
        }
    }
}

/// An expression whose operators all bind at least as tightly as `min`.
#[verifier::opaque]
pub open spec fn expression(t: Seq<Token>, pol: NewlinePolicy, i: int, min: u8) -> Parsed<ExprModel>
    decreases t.len() - i, 4int,
{
    if min <= PRECEDENCE_NOT && peek(t, pol, i) == TokenKind::Not {
        let j = advance(t, pol, i);
        if !forward(t, i, j) {
            arbitrary()
        } else {
            match expression(t, pol, j, (PRECEDENCE_NOT + 1) as u8) {
                Err(e) => Err(e),
                Ok((operand, p)) => if !within(t, i, p) {
                    arbitrary()
                } else {
                    logic(t, pol, p, ExprModel::Not { operand: Box::new(operand) }, min)
                },
            }
        }
    } else {
        match access(t, pol, i) {
            Err(e) => Err(e),
            Ok((left, p)) => if !within(t, i, p) {
                arbitrary()
            } else {
                tiers(t, pol, p, left, min)
            },
        }
    }
}

/// An atom followed by member accesses and calls.
#[verifier::opaque]
pub open spec fn access(t: Seq<Token>, pol: NewlinePolicy, i: int) -> Parsed<ExprModel>
    decreases t.len() - i, 2int,
{
    match atom(t, pol, i) {
        Err(e) => Err(e),
        Ok((e, p)) => if !within(t, i, p) {
            arbitrary()
        } else {
            suffixes(t, pol, p, e)
        },
    }
}

#[verifier::opaque]
pub open spec fn suffixes(t: Seq<Token>, pol: NewlinePolicy, p: int, e: ExprModel) -> Parsed<
    ExprModel,
>
    decreases t.len() - p, 0int,
{
    let k = peek(t, pol, p);
    let j = advance(t, pol, p);
    if k == TokenKind::Dot {
        if peek(t, pol, j) == TokenKind::Identifier {
            let name = next_token(t, pol, j).text@;
            let q = advance(t, pol, j);
            if !forward(t, p, q) {
                arbitrary()
            } else {
                suffixes(t, pol, q, ExprModel::DotAccess { base: Box::new(e), name })
            }
        } else {
            Err(error_at(t, pol, j, ErrorKind::ExpectedIdentifier))
        }
    } else if k == TokenKind::LeftParenthesis {
        if !forward(t, p, j) {
            arbitrary()
        } else {
            match arguments(t, pol, j) {
                Err(e) => Err(e),
                Ok((args, q)) => {
                    let r = advance(t, pol, q);
                    if !forward(t, p, r) {
                        arbitrary()
                    } else {
                        suffixes(t, pol, r, ExprModel::Call { callee: Box::new(e), arguments: args })
                    }
                },
            }
        }
    } else {
        Ok((e, p))
    }
}

/// A possibly empty argument list; the position is that of the closing `)`.
#[verifier::opaque]
pub open spec fn arguments(t: Seq<Token>, pol: NewlinePolicy, i: int) -> Parsed<Seq<ExprModel>>
    decreases t.len() - i, 6int,
{
    if peek(t, pol, i) == TokenKind::RightParenthesis {
        Ok((Seq::empty(), i))
    } else {
        more_arguments(t, pol, i, Seq::empty())
    }
}

#[verifier::opaque]
pub open spec fn more_arguments(t: Seq<Token>, pol: NewlinePolicy, i: int, acc: Seq<ExprModel>) -> Parsed<
    Seq<ExprModel>,
>
    decreases t.len() - i, 5int,
{
    match expression(t, pol, i, PRECEDENCE_ANY) {
        Err(e) => Err(e),
        Ok((e, p)) => {
            let acc = acc.push(e);
            let k = peek(t, pol, p);
            if k == TokenKind::Comma {
                let r = advance(t, pol, p);
                if !forward(t, i, r) {
                    arbitrary()
                } else {
                    more_arguments(t, pol, r, acc)
                }
            } else if k == TokenKind::RightParenthesis {
                Ok((acc, p))
            } else {
                Err(error_at(t, pol, p, ErrorKind::ExpectedCloseParenthesis))
            }
        },
    }
}

#[verifier::opaque]
pub open spec fn atom(t: Seq<Token>, pol: NewlinePolicy, i: int) -> Parsed<ExprModel>
    decreases t.len() - i, 1int,
{
    let tk = next_token(t, pol, i);
    let j = advance(t, pol, i);
    match tk.kind {
        TokenKind::Function => if !forward(t, i, j) {
            arbitrary()
        } else {
            function(t, j)
        },
        TokenKind::LeftParenthesis => if !forward(t, i, j) {
            arbitrary()
        } else {
            match expression(t, NewlinePolicy::Ignore, j, PRECEDENCE_ANY) {
                Err(e) => Err(e),
                Ok((e, p)) => if peek(t, NewlinePolicy::Ignore, p) == TokenKind::RightParenthesis {
                    Ok((e, advance(t, NewlinePolicy::Ignore, p)))
                } else {
                    Err(
                        error_at(t, NewlinePolicy::Ignore, p, ErrorKind::ExpectedCloseParenthesis),
                    )
                },
            }
        },
        TokenKind::Identifier => Ok((ExprModel::Name { name: tk.text@, slot: None }, j)),
        TokenKind::Variable => Ok(
            (ExprModel::Variable { name: tk.text@, slot: None, offset: tk.offset }, j),
        ),
        TokenKind::String => Ok((ExprModel::Str { value: tk.text@ }, j)),
        TokenKind::Integer => match integer_literal(tk.text@) {
            Some(value) => Ok((ExprModel::Integer { value }, j)),
            None => Err(
                ParseError { source_offset: tk.offset, kind: ErrorKind::InvalidIntegerLiteral },
            ),
        },
        TokenKind::Float => Ok((ExprModel::Float { source: tk.text@ }, j)),
        TokenKind::True => Ok((ExprModel::Boolean { value: true }, j)),
        TokenKind::False => Ok((ExprModel::Boolean { value: false }, j)),
        TokenKind::Nothing => Ok((ExprModel::Nothing, j)),
        _ => Err(ParseError { source_offset: tk.offset, kind: ErrorKind::Unexpected(tk.kind) }),
    }
}

/// A function literal after its keyword: parameters and body, newlines
/// ignored around them.
#[verifier::opaque]
pub open spec fn function(t: Seq<Token>, i: int) -> Parsed<ExprModel>
    decreases t.len() - i, 0int,
{
    let ig = NewlinePolicy::Ignore;
    if peek(t, ig, i) != TokenKind::LeftParenthesis {
        Err(error_at(t, ig, i, ErrorKind::ExpectedOpenParenthesis))
    } else {
        let j = advance(t, ig, i);
        if !forward(t, i, j) {
            arbitrary()
        } else {
            match parameters(t, j) {
                Err(e) => Err(e),
                Ok((ps, p)) => if peek(t, ig, p) != TokenKind::RightParenthesis {
                    Err(error_at(t, ig, p, ErrorKind::ExpectedCloseParenthesis))
                } else {
                    let q = advance(t, ig, p);
                    if !forward(t, i, q) {
                        arbitrary()
                    } else {
                        match block(t, ig, q) {
                            Err(e) => Err(e),
                            Ok((b, r)) => Ok(
                                (
                                    ExprModel::Function {
                                        parameters: ps,
                                        frame: Frame { closure: true },
                                        block: b,
                                    },
                                    r,
                                ),
                            ),
                        }
                    }
                },
            }
        }
    }
}

#[verifier::opaque]
pub open spec fn parameters(t: Seq<Token>, i: int) -> Parsed<Seq<ParamModel>>
    decreases t.len() - i, 8int,
{
    if peek(t, NewlinePolicy::Ignore, i) == TokenKind::RightParenthesis {
        Ok((Seq::empty(), i))
    } else {
        more_parameters(t, i, Seq::empty())
    }
}

#[verifier::opaque]
pub open spec fn more_parameters(t: Seq<Token>, i: int, acc: Seq<ParamModel>) -> Parsed<
    Seq<ParamModel>,
>
    decreases t.len() - i, 7int,
{
    let ig = NewlinePolicy::Ignore;
    match parameter(t, i) {
        Err(e) => Err(e),
        Ok((pm, p)) => {
            let acc = acc.push(pm);
            let k = peek(t, ig, p);
            if k == TokenKind::Comma {
                let r = advance(t, ig, p);
                if !forward(t, i, r) {
                    arbitrary()
                } else {
                    more_parameters(t, r, acc)
                }
            } else if k == TokenKind::RightParenthesis {
                Ok((acc, p))
            } else {
                Err(error_at(t, ig, p, ErrorKind::ExpectedCloseParenthesisOrComma))
            }
        },
    }
}

/// An optional type test in front of a binding's variable; it is absent when
/// the variable is followed by one of the kinds `untyped_if` accepts.
#[verifier::opaque]
pub open spec fn type_test(t: Seq<Token>, i: int, untyped: bool) -> Parsed<Option<ExprModel>>
    decreases t.len() - i, 5int,
{
    if untyped {
        Ok((None, i))
    } else {
        match expression(t, NewlinePolicy::Ignore, i, PRECEDENCE_ANY) {
            Err(e) => Err(e),
            Ok((e, p)) => Ok((Some(e), p)),
        }
    }
}

pub open spec fn parameter_untyped(t: Seq<Token>, i: int) -> bool {
    let ig = NewlinePolicy::Ignore;
    let k = peek_second(t, ig, i);
    peek(t, ig, i) == TokenKind::Variable && (k == TokenKind::Equals || k == TokenKind::Comma || k
        == TokenKind::RightParenthesis)
}

#[verifier::opaque]
pub open spec fn parameter(t: Seq<Token>, i: int) -> Parsed<ParamModel>
    decreases t.len() - i, 6int,
{
    let ig = NewlinePolicy::Ignore;
    match type_test(t, i, parameter_untyped(t, i)) {
        Err(e) => Err(e),
        Ok((ty, p)) => {
            let v = next_token(t, ig, p);
            if v.kind != TokenKind::Variable {
                Err(error_at(t, ig, p, ErrorKind::ExpectedVariable))
            } else {
                let q = advance(t, ig, p);
                if peek(t, ig, q) == TokenKind::Equals {
                    let r = advance(t, ig, q);
                    if !forward(t, i, r) {
                        arbitrary()
                    } else {
                        match expression(t, ig, r, PRECEDENCE_ANY) {
                            Err(e) => Err(e),
                            Ok((d, s)) => Ok(
                                (
                                    ParamModel {
                                        type_test: ty,
                                        default: Some(d),
                                        name: v.text@,
                                        slot: None,
                                    },
                                    s,
                                ),
                            ),
                        }
                    }
                } else {
                    Ok((ParamModel { type_test: ty, default: None, name: v.text@, slot: None }, q))
                }
            }
        },
    }
}

// Statements; they are read with newlines heeded.

/// `{`, statements each ended by a newline or the closing `}`, then `}`.
#[verifier::opaque]
pub open spec fn block(t: Seq<Token>, pol: NewlinePolicy, i: int) -> Parsed<Seq<StmtModel>>
    decreases t.len() - i, 0int,
{
    if peek(t, pol, i) != TokenKind::LeftCurlyBracket {
        Err(error_at(t, pol, i, ErrorKind::ExpectedOpenBrace))
    } else {
        let k = skip_nl(t, advance(t, pol, i));
        if !forward(t, i, k) {
            arbitrary()
        } else {
            block_items(t, k, Seq::empty())
        }
    }
}

#[verifier::opaque]
pub open spec fn block_items(t: Seq<Token>, i: int, acc: Seq<StmtModel>) -> Parsed<Seq<StmtModel>>
    decreases t.len() - i, 8int,
{
    let heed = NewlinePolicy::Heed;
    let k = kind_at(t, i);
    if k == TokenKind::RightCurlyBracket {
        Ok((acc, step(t, i)))
    } else if k == TokenKind::Eof {
        Err(error_at(t, heed, i, ErrorKind::ExpectedCloseBrace))
    } else {
        match statement(t, i) {
            Err(e) => Err(e),
            Ok((s, p)) => {
                let acc = acc.push(s);
                let k = kind_at(t, p);
                if k == TokenKind::Newline {
                    let q = skip_nl(t, p);
                    if !forward(t, i, q) {
                        arbitrary()
                    } else {
                        block_items(t, q, acc)
                    }
                } else if k == TokenKind::RightCurlyBracket {
                    Ok((acc, step(t, p)))
                } else if k == TokenKind::Eof {
                    Err(error_at(t, heed, p, ErrorKind::ExpectedCloseBrace))
                } else {
                    Err(error_at(t, heed, p, ErrorKind::ExpectedNewline))
                }
            },
        }
    }
}

/// The statements of a program from position `i` on, after those in `acc`.
#[verifier::opaque]
pub open spec fn root_items(t: Seq<Token>, i: int, acc: Seq<StmtModel>) -> Result<
    Seq<StmtModel>,
    ParseError,
>
    decreases t.len() - i, 8int,
{
    let heed = NewlinePolicy::Heed;
    if kind_at(t, i) == TokenKind::Eof {
        Ok(acc)
    } else {
        match statement(t, i) {
            Err(e) => Err(e),
            Ok((s, p)) => {
                let acc = acc.push(s);
                let k = kind_at(t, p);
                if k == TokenKind::Newline {
                    let q = skip_nl(t, p);
                    if !forward(t, i, q) {
                        arbitrary()
                    } else {
                        root_items(t, q, acc)
                    }
                } else if k == TokenKind::Eof {
                    Ok(acc)
                } else {
                    Err(error_at(t, heed, p, ErrorKind::ExpectedNewline))
                }
            },
        }
    }
}

/// The statements of a whole program.
pub open spec fn program(t: Seq<Token>) -> Result<Seq<StmtModel>, ParseError> {
    root_items(t, skip_nl(t, 0), Seq::empty())
}

pub open spec fn starts_keyword_statement(k: TokenKind) -> bool {
    k == TokenKind::Use || k == TokenKind::Let || k == TokenKind::Print || k == TokenKind::Throw
        || k == TokenKind::Return || k == TokenKind::If || k == TokenKind::While || k
        == TokenKind::Try
}

#[verifier::opaque]
pub open spec fn statement(t: Seq<Token>, i: int) -> Parsed<StmtModel>
    decreases t.len() - i, 7int,
{
    let k = kind_at(t, i);
    let j = step(t, i);
    if starts_keyword_statement(k) {
        if !forward(t, i, j) {
            arbitrary()
        } else {
            keyword_statement(t, k, j)
        }
    } else {
        expression_statement(t, i)
    }
}

/// A statement introduced by keyword `k`, from just after the keyword.
#[verifier::opaque]
pub open spec fn keyword_statement(t: Seq<Token>, k: TokenKind, j: int) -> Parsed<StmtModel>
    decreases t.len() - j, 6int,
{
    let heed = NewlinePolicy::Heed;
    if k == TokenKind::Use {
        match path(t, j, Seq::empty()) {
            Err(e) => Err(e),
            Ok((ids, p)) => Ok((StmtModel::Use { path: ids, bound: ids.last() }, p)),
        }
    } else if k == TokenKind::Let {
        let_rest(t, j)
    } else if k == TokenKind::Print {
        match expression(t, heed, j, PRECEDENCE_ANY) {
            Err(e) => Err(e),
            Ok((e, p)) => Ok((StmtModel::Print { expression: e }, p)),
        }
    } else if k == TokenKind::Throw {
        match expression(t, heed, j, PRECEDENCE_ANY) {
            Err(e) => Err(e),
            Ok((e, p)) => Ok((StmtModel::Throw { expression: e }, p)),
        }
    } else if k == TokenKind::Return {
        let k2 = kind_at(t, j);
        if k2 == TokenKind::Newline || k2 == TokenKind::Eof || k2 == TokenKind::RightCurlyBracket {
            Ok((StmtModel::Return { expression: None }, j))
        } else {
            match expression(t, heed, j, PRECEDENCE_ANY) {
                Err(e) => Err(e),
                Ok((e, p)) => Ok((StmtModel::Return { expression: Some(e) }, p)),
            }
        }
    } else if k == TokenKind::If {
        if_rest(t, j)
    } else if k == TokenKind::While {
        while_rest(t, j)
    } else {
        try_rest(t, j)
    }
}

/// An expression statement, or an assignment when `=` follows the
/// expression.
#[verifier::opaque]
pub open spec fn expression_statement(t: Seq<Token>, i: int) -> Parsed<StmtModel>
    decreases t.len() - i, 6int,
{
    let heed = NewlinePolicy::Heed;
    match expression(t, heed, i, PRECEDENCE_ANY) {
        Err(e) => Err(e),
        Ok((e, p)) => if kind_at(t, p) == TokenKind::Equals {
            match lvalue_of(e) {
                None => Err(error_at(t, heed, p, ErrorKind::InvalidAssignmentTarget)),
                Some(target) => {
                    let q = step(t, p);
                    if !forward(t, i, q) {
                        arbitrary()
                    } else {
                        match expression(t, heed, q, PRECEDENCE_ANY) {
                            Err(e) => Err(e),
                            Ok((value, r)) => Ok((StmtModel::Assignment { target, value }, r)),
                        }
                    }
                },
            }
        } else {
            Ok((StmtModel::Expression { expression: e }, p))
        },
    }
}

/// A dotted path of identifiers, after those in `acc`.
#[verifier::opaque]
pub open spec fn path(t: Seq<Token>, i: int, acc: Seq<Seq<char>>) -> Parsed<Seq<Seq<char>>>
    decreases t.len() - i, 0int,
{
    if kind_at(t, i) != TokenKind::Identifier {
        Err(error_at(t, NewlinePolicy::Heed, i, ErrorKind::ExpectedIdentifier))
    } else {
        let acc = acc.push(tok(t, i).text@);
        let j = step(t, i);
        if kind_at(t, j) == TokenKind::Dot {
            let k = step(t, j);
            if !forward(t, i, k) {
                arbitrary()
            } else {
                path(t, k, acc)
            }
        } else {
            Ok((acc, j))
        }
    }
}

#[verifier::opaque]
pub open spec fn let_rest(t: Seq<Token>, i: int) -> Parsed<StmtModel>
    decreases t.len() - i, 0int,
{
    let v = tok(t, i);
    if v.kind != TokenKind::Variable {
        Err(error_at(t, NewlinePolicy::Heed, i, ErrorKind::ExpectedVariable))
    } else {
        let j = step(t, i);
        if kind_at(t, j) == TokenKind::Equals {
            let k = step(t, j);
            if !forward(t, i, k) {
                arbitrary()
            } else {
                match expression(t, NewlinePolicy::Heed, k, PRECEDENCE_ANY) {
                    Err(e) => Err(e),
                    Ok((d, p)) => Ok(
                        (
                            StmtModel::Let {
                                name: v.text@,
                                offset: v.offset,
                                slot: None,
                                default: Some(d),
                            },
                            p,
                        ),
                    ),
                }
            }
        } else {
            Ok((StmtModel::Let { name: v.text@, offset: v.offset, slot: None, default: None }, j))
        }
    }
}

/// A block introduced by the keyword `kw`, if `kw` comes next.
#[verifier::opaque]
pub open spec fn optional_block(t: Seq<Token>, i: int, kw: TokenKind) -> Parsed<
    Option<Seq<StmtModel>>,
>
    decreases t.len() - i, 1int,
{
    let ig = NewlinePolicy::Ignore;
    if peek(t, ig, i) == kw {
        let j = advance(t, ig, i);
        if !forward(t, i, j) {
            arbitrary()
        } else {
            match block(t, ig, j) {
                Err(e) => Err(e),
                Ok((b, q)) => Ok((Some(b), q)),
            }
        }
    } else {
        Ok((None, i))
    }
}

/// What follows `if`: test, block, `else if` clauses, and an optional `else`.
#[verifier::opaque]
pub open spec fn if_rest(t: Seq<Token>, i: int) -> Parsed<StmtModel>
    decreases t.len() - i, 5int,
{
    let ig = NewlinePolicy::Ignore;
    match expression(t, ig, i, PRECEDENCE_ANY) {
        Err(e) => Err(e),
        Ok((test, p)) => if !within(t, i, p) {
            arbitrary()
        } else {
            match block(t, ig, p) {
                Err(e) => Err(e),
                Ok((b, q)) => if !within(t, i, q) {
                    arbitrary()
                } else {
                    match else_chain(t, q, Seq::empty()) {
                        Err(e) => Err(e),
                        Ok(((else_ifs, else_block), r)) => Ok(
                            (StmtModel::If { test, block: b, else_ifs, else_block }, r),
                        ),
                    }
                },
            }
        },
    }
}

#[verifier::opaque]
pub open spec fn else_chain(t: Seq<Token>, i: int, acc: Seq<ElseIfModel>) -> Parsed<
    (Seq<ElseIfModel>, Option<Seq<StmtModel>>),
>
    decreases t.len() - i, 1int,
{
    let ig = NewlinePolicy::Ignore;
    if peek(t, ig, i) != TokenKind::Else {
        Ok(((acc, None), i))
    } else {
        let j = advance(t, ig, i);
        if !forward(t, i, j) {
            arbitrary()
        } else if peek(t, ig, j) == TokenKind::If {
            let k = advance(t, ig, j);
            if !forward(t, i, k) {
                arbitrary()
            } else {
                match expression(t, ig, k, PRECEDENCE_ANY) {
                    Err(e) => Err(e),
                    Ok((test, p)) => if !forward(t, i, p) {
                        arbitrary()
                    } else {
                        match block(t, ig, p) {
                            Err(e) => Err(e),
                            Ok((b, q)) => if !forward(t, i, q) {
                                arbitrary()
                            } else {
                                else_chain(t, q, acc.push(ElseIfModel { test, block: b }))
                            },
                        }
                    },
                }
            }
        } else {
            match block(t, ig, j) {
                Err(e) => Err(e),
                Ok((b, q)) => Ok(((acc, Some(b)), q)),
            }
        }
    }
}

#[verifier::opaque]
pub open spec fn while_rest(t: Seq<Token>, i: int) -> Parsed<StmtModel>
    decreases t.len() - i, 5int,
{
    let ig = NewlinePolicy::Ignore;
    match expression(t, ig, i, PRECEDENCE_ANY) {
        Err(e) => Err(e),
        Ok((test, p)) => if !within(t, i, p) {
            arbitrary()
        } else {
            match block(t, ig, p) {
                Err(e) => Err(e),
                Ok((b, q)) => if !within(t, i, q) {
                    arbitrary()
                } else {
                    match optional_block(t, q, TokenKind::Else) {
                        Err(e) => Err(e),
                        Ok((else_block, r)) => Ok(
                            (StmtModel::While { test, block: b, else_block }, r),
                        ),
                    }
                },
            }
        },
    }
}

#[verifier::opaque]
pub open spec fn try_rest(t: Seq<Token>, i: int) -> Parsed<StmtModel>
    decreases t.len() - i, 3int,
{
    match block(t, NewlinePolicy::Ignore, i) {
        Err(e) => Err(e),
        Ok((b, p)) => if !within(t, i, p) {
            arbitrary()
        } else {
            match catch_clauses(t, p, Seq::empty()) {
                Err(e) => Err(e),
                Ok((catches, q)) => if !within(t, i, q) {
                    arbitrary()
                } else {
                    match optional_block(t, q, TokenKind::Else) {
                        Err(e) => Err(e),
                        Ok((else_block, r)) => if !within(t, i, r) {
                            arbitrary()
                        } else {
                            match optional_block(t, r, TokenKind::Finally) {
                                Err(e) => Err(e),
                                Ok((finally_block, s)) => Ok(
                                    (
                                        StmtModel::Try {
                                            block: b,
                                            catches,
                                            else_block,
                                            finally_block,
                                        },
                                        s,
                                    ),
                                ),
                            }
                        },
                    }
                },
            }
        },
    }
}

#[verifier::opaque]
pub open spec fn catch_clauses(t: Seq<Token>, i: int, acc: Seq<CatchModel>) -> Parsed<
    Seq<CatchModel>,
>
    decreases t.len() - i, 2int,
{
    let ig = NewlinePolicy::Ignore;
    if peek(t, ig, i) != TokenKind::Catch {
        Ok((acc, i))
    } else {
        let j = advance(t, ig, i);
        if !forward(t, i, j) {
            arbitrary()
        } else {
            match catch_clause(t, j) {
                Err(e) => Err(e),
                Ok((c, q)) => if !forward(t, i, q) {
                    arbitrary()
                } else {
                    catch_clauses(t, q, acc.push(c))
                },
            }
        }
    }
}

pub open spec fn catch_untyped(t: Seq<Token>, i: int) -> bool {
    let ig = NewlinePolicy::Ignore;
    peek(t, ig, i) == TokenKind::Variable && peek_second(t, ig, i) == TokenKind::LeftCurlyBracket
}

#[verifier::opaque]
pub open spec fn catch_clause(t: Seq<Token>, i: int) -> Parsed<CatchModel>
    decreases t.len() - i, 6int,
{
    let ig = NewlinePolicy::Ignore;
    match type_test(t, i, catch_untyped(t, i)) {
        Err(e) => Err(e),
        Ok((ty, p)) => {
            let v = next_token(t, ig, p);
            if v.kind != TokenKind::Variable {
                Err(error_at(t, ig, p, ErrorKind::ExpectedVariable))
            } else {
                let q = advance(t, ig, p);
                if !forward(t, i, q) {
                    arbitrary()
                } else {
                    match block(t, ig, q) {
                        Err(e) => Err(e),
                        Ok((b, r)) => Ok(
                            (
                                CatchModel {
                                    type_test: ty,
                                    name: v.text@,
                                    offset: v.offset,
                                    slot: None,
                                    block: b,
                                },
                                r,
                            ),
                        ),
                    }
                }
            }
        },
    }
}

} // verus!
