//! The syntax tree built by the parser, and its mathematical model.
//!
//! Nodes own their children exclusively. Annotation placeholders (`Frame`,
//! slots, `UseAnnotation`) are left empty by the parser and are filled in
//! later by semantic analysis.
use vstd::prelude::*;

verus! {

/// A lexical scope record; `closure` marks the frame of a function body.
#[derive(Clone, Copy, PartialEq, Eq, Structural, Debug)]
pub struct Frame {
    pub closure: bool,
}

/// Placeholder of a `use` statement: the name it binds.
pub struct UseAnnotation {
    pub name: String,
}

pub struct Root {
    pub statements: Vec<Box<Statement>>,
    pub frame: Frame,
}

pub enum Statement {
    Use { path: Vec<String>, annotation: UseAnnotation },
    ExpressionStatement { expression: Box<Expression> },
    Assignment { lvalue: Box<Lvalue>, rvalue: Box<Expression> },
    Let {
        variable_offset: usize,
        variable_name: String,
        annotation: Option<usize>,
        default: Option<Box<Expression>>,
    },
    Print { expression: Box<Expression> },
    Return { expression: Option<Box<Expression>> },
    Throw { expression: Box<Expression> },
    If {
        test: Box<Expression>,
        block: Vec<Box<Statement>>,
        else_if_clauses: Vec<Box<ElseIf>>,
        else_clause: Option<Box<Else>>,
    },
    Try {
        block: Vec<Box<Statement>>,
        catch_clauses: Vec<Box<Catch>>,
        else_clause: Option<Box<Else>>,
        finally_clause: Option<Box<Finally>>,
    },
    While { test: Box<Expression>, block: Vec<Box<Statement>>, else_clause: Option<Box<Else>> },
}

pub struct ElseIf {
    pub test: Box<Expression>,
    pub block: Vec<Box<Statement>>,
}

pub struct Else {
    pub block: Vec<Box<Statement>>,
}

pub struct Catch {
    pub type_: Option<Box<Expression>>,
    pub variable_name: String,
    pub variable_offset: usize,
    pub variable: Option<usize>,
    pub block: Vec<Box<Statement>>,
}

pub struct Finally {
    pub block: Vec<Box<Statement>>,
}

pub enum Expression {
    Function { parameters: Vec<FunctionParameter>, frame: Frame, block: Vec<Box<Statement>> },
    And { left: Box<Expression>, right: Box<Expression> },
    Or { left: Box<Expression>, right: Box<Expression> },
    Not { expression: Box<Expression> },
    Is { left: Box<Expression>, right: Box<Expression> },
    Eq { left: Box<Expression>, right: Box<Expression> },
    Neq { left: Box<Expression>, right: Box<Expression> },
    Lt { left: Box<Expression>, right: Box<Expression> },
    Gt { left: Box<Expression>, right: Box<Expression> },
    LtEq { left: Box<Expression>, right: Box<Expression> },
    GtEq { left: Box<Expression>, right: Box<Expression> },
    Union { left: Box<Expression>, right: Box<Expression> },
    Addition { left: Box<Expression>, right: Box<Expression> },
    Subtraction { left: Box<Expression>, right: Box<Expression> },
    Multiplication { left: Box<Expression>, right: Box<Expression> },
    Division { left: Box<Expression>, right: Box<Expression> },
    DotAccess { expression: Box<Expression>, name: String },
    ItemAccess { expression: Box<Expression>, key_expression: Box<Expression> },
    Call { expression: Box<Expression>, arguments: Vec<Box<Expression>> },
    Variable { name: String, annotation: Option<usize>, source_offset: usize },
    Name { identifier: String, annotation: Option<usize> },
    String { value: String },
    Integer { value: i64 },
    /// A float literal, kept as its source text.
    Float { source: String },
    Boolean { value: bool },
    Nothing,
}

pub struct FunctionParameter {
    pub type_: Option<Box<Expression>>,
    pub default: Option<Box<Expression>>,
    pub variable_name: String,
    pub variable: Option<usize>,
}

pub enum Lvalue {
    VariableLvalue { name: String, annotation: Option<usize>, source_offset: usize },
    DotAccessLvalue { expression: Box<Expression>, name: String },
}

// The model.

/// Binary operators, in the model of an expression.
#[derive(Clone, Copy, PartialEq, Eq, Structural, Debug)]
pub enum BinaryOp {
    And,
    Or,
    Is,
    Eq,
    Neq,
    Lt,
    Gt,
    LtEq,
    GtEq,
    Union,
    Addition,
    Subtraction,
    Multiplication,
    Division,
}

pub enum ExprModel {
    Function { parameters: Seq<ParamModel>, frame: Frame, block: Seq<StmtModel> },
    Binary { op: BinaryOp, left: Box<ExprModel>, right: Box<ExprModel> },
    Not { operand: Box<ExprModel> },
    DotAccess { base: Box<ExprModel>, name: Seq<char> },
    ItemAccess { base: Box<ExprModel>, key: Box<ExprModel> },
    Call { callee: Box<ExprModel>, arguments: Seq<ExprModel> },
    Variable { name: Seq<char>, slot: Option<usize>, offset: usize },
    Name { name: Seq<char>, slot: Option<usize> },
    Str { value: Seq<char> },
    Integer { value: i64 },
    Float { source: Seq<char> },
    Boolean { value: bool },
    Nothing,
}

pub struct ParamModel {
    pub type_test: Option<ExprModel>,
    pub default: Option<ExprModel>,
    pub name: Seq<char>,
    pub slot: Option<usize>,
}

pub enum LvalueModel {
    Variable { name: Seq<char>, slot: Option<usize>, offset: usize },
    DotAccess { base: ExprModel, name: Seq<char> },
}

pub struct ElseIfModel {
    pub test: ExprModel,
    pub block: Seq<StmtModel>,
}

pub struct CatchModel {
    pub type_test: Option<ExprModel>,
    pub name: Seq<char>,
    pub offset: usize,
    pub slot: Option<usize>,
    pub block: Seq<StmtModel>,
}

pub enum StmtModel {
    Use { path: Seq<Seq<char>>, bound: Seq<char> },
    Expression { expression: ExprModel },
    Assignment { target: LvalueModel, value: ExprModel },
    Let { name: Seq<char>, offset: usize, slot: Option<usize>, default: Option<ExprModel> },
    Print { expression: ExprModel },
    Return { expression: Option<ExprModel> },
    Throw { expression: ExprModel },
    If {
        test: ExprModel,
        block: Seq<StmtModel>,
        else_ifs: Seq<ElseIfModel>,
        else_block: Option<Seq<StmtModel>>,
    },
    Try {
        block: Seq<StmtModel>,
        catches: Seq<CatchModel>,
        else_block: Option<Seq<StmtModel>>,
        finally_block: Option<Seq<StmtModel>>,
    },
    While { test: ExprModel, block: Seq<StmtModel>, else_block: Option<Seq<StmtModel>> },
}

pub open spec fn binary(op: BinaryOp, left: ExprModel, right: ExprModel) -> ExprModel {
    ExprModel::Binary { op, left: Box::new(left), right: Box::new(right) }
}

/// The model of the first `n` statements of a block.
#[verifier::opaque]
pub open spec fn stmts_prefix(v: Seq<Box<Statement>>, n: int) -> Seq<StmtModel>
    decreases v, n,
{
    if n <= 0 || n > v.len() {
        Seq::empty()
    } else {
        stmts_prefix(v, n - 1).push(stmt_view(&*v[n - 1]))
    }
}

#[verifier::opaque]
pub open spec fn exprs_prefix(v: Seq<Box<Expression>>, n: int) -> Seq<ExprModel>
    decreases v, n,
{
    if n <= 0 || n > v.len() {
        Seq::empty()
    } else {
        exprs_prefix(v, n - 1).push(expr_view(&*v[n - 1]))
    }
}

#[verifier::opaque]
pub open spec fn params_prefix(v: Seq<FunctionParameter>, n: int) -> Seq<ParamModel>
    decreases v, n,
{
    if n <= 0 || n > v.len() {
        Seq::empty()
    } else {
        params_prefix(v, n - 1).push(param_view(&v[n - 1]))
    }
}

#[verifier::opaque]
pub open spec fn else_ifs_prefix(v: Seq<Box<ElseIf>>, n: int) -> Seq<ElseIfModel>
    decreases v, n,
{
    if n <= 0 || n > v.len() {
        Seq::empty()
    } else {
        else_ifs_prefix(v, n - 1).push(
            ElseIfModel { test: expr_view(&*v[n - 1].test), block: stmts_view(v[n - 1].block@) },
        )
    }
}

#[verifier::opaque]
pub open spec fn catches_prefix(v: Seq<Box<Catch>>, n: int) -> Seq<CatchModel>
    decreases v, n,
{
    if n <= 0 || n > v.len() {
        Seq::empty()
    } else {
        catches_prefix(v, n - 1).push(catch_view(&*v[n - 1]))
    }
}

pub open spec fn stmts_view(v: Seq<Box<Statement>>) -> Seq<StmtModel>
    decreases v, v.len() + 1,
{
    stmts_prefix(v, v.len() as int)
}

pub open spec fn exprs_view(v: Seq<Box<Expression>>) -> Seq<ExprModel>
    decreases v, v.len() + 1,
{
    exprs_prefix(v, v.len() as int)
}

pub open spec fn params_view(v: Seq<FunctionParameter>) -> Seq<ParamModel>
    decreases v, v.len() + 1,
{
    params_prefix(v, v.len() as int)
}

pub open spec fn names_view(v: Seq<String>) -> Seq<Seq<char>> {
    v.map_values(|s: String| s@)
}

#[verifier::opaque]
pub open spec fn opt_expr_view(e: Option<Box<Expression>>) -> Option<ExprModel>
    decreases e, 0int,
{
    match e {
        Some(b) => Some(expr_view(&*b)),
        None => None,
    }
}

#[verifier::opaque]
pub open spec fn else_view(e: Option<Box<Else>>) -> Option<Seq<StmtModel>>
    decreases e, 0int,
{
    match e {
        Some(b) => Some(stmts_view(b.block@)),
        None => None,
    }
}

#[verifier::opaque]
pub open spec fn finally_view(e: Option<Box<Finally>>) -> Option<Seq<StmtModel>>
    decreases e, 0int,
{
    match e {
        Some(b) => Some(stmts_view(b.block@)),
        None => None,
    }
}

#[verifier::opaque]
pub open spec fn param_view(p: &FunctionParameter) -> ParamModel
    decreases *p, 0int,
{
    ParamModel {
        type_test: opt_expr_view(p.type_),
        default: opt_expr_view(p.default),
        name: p.variable_name@,
        slot: p.variable,
    }
}

#[verifier::opaque]
pub open spec fn catch_view(c: &Catch) -> CatchModel
    decreases *c, 0int,
{
    CatchModel {
        type_test: opt_expr_view(c.type_),
        name: c.variable_name@,
        offset: c.variable_offset,
        slot: c.variable,
        block: stmts_view(c.block@),
    }
}

#[verifier::opaque]
pub open spec fn expr_view(e: &Expression) -> ExprModel
    decreases *e, 0int,
{
    match e {
        Expression::Function { parameters, frame, block } => ExprModel::Function {
            parameters: params_view(parameters@),
            frame: *frame,
            block: stmts_view(block@),
        },
        Expression::And { left, right } => binary(BinaryOp::And, expr_view(left), expr_view(right)),
        Expression::Or { left, right } => binary(BinaryOp::Or, expr_view(left), expr_view(right)),
        Expression::Not { expression } => ExprModel::Not { operand: Box::new(expr_view(expression)) },
        Expression::Is { left, right } => binary(BinaryOp::Is, expr_view(left), expr_view(right)),
        Expression::Eq { left, right } => binary(BinaryOp::Eq, expr_view(left), expr_view(right)),
        Expression::Neq { left, right } => binary(BinaryOp::Neq, expr_view(left), expr_view(right)),
        Expression::Lt { left, right } => binary(BinaryOp::Lt, expr_view(left), expr_view(right)),
        Expression::Gt { left, right } => binary(BinaryOp::Gt, expr_view(left), expr_view(right)),
        Expression::LtEq { left, right } => binary(BinaryOp::LtEq, expr_view(left), expr_view(right)),
        Expression::GtEq { left, right } => binary(BinaryOp::GtEq, expr_view(left), expr_view(right)),
        Expression::Union { left, right } => binary(BinaryOp::Union, expr_view(left), expr_view(right)),
        Expression::Addition { left, right } => binary(
            BinaryOp::Addition,
            expr_view(left),
            expr_view(right),
        ),
        Expression::Subtraction { left, right } => binary(
            BinaryOp::Subtraction,
            expr_view(left),
            expr_view(right),
        ),
        Expression::Multiplication { left, right } => binary(
            BinaryOp::Multiplication,
            expr_view(left),
            expr_view(right),
        ),
        Expression::Division { left, right } => binary(
            BinaryOp::Division,
            expr_view(left),
            expr_view(right),
        ),
        Expression::DotAccess { expression, name } => ExprModel::DotAccess {
            base: Box::new(expr_view(expression)),
            name: name@,
        },
        Expression::ItemAccess { expression, key_expression } => ExprModel::ItemAccess {
            base: Box::new(expr_view(expression)),
            key: Box::new(expr_view(key_expression)),
        },
        Expression::Call { expression, arguments } => ExprModel::Call {
            callee: Box::new(expr_view(expression)),
            arguments: exprs_view(arguments@),
        },
        Expression::Variable { name, annotation, source_offset } => ExprModel::Variable {
            name: name@,
            slot: *annotation,
            offset: *source_offset,
        },
        Expression::Name { identifier, annotation } => ExprModel::Name {
            name: identifier@,
            slot: *annotation,
        },
        Expression::String { value } => ExprModel::Str { value: value@ },
        Expression::Integer { value } => ExprModel::Integer { value: *value },
        Expression::Float { source } => ExprModel::Float { source: source@ },
        Expression::Boolean { value } => ExprModel::Boolean { value: *value },
        Expression::Nothing => ExprModel::Nothing,
    }
}

#[verifier::opaque]
pub open spec fn lvalue_view(l: &Lvalue) -> LvalueModel
    decreases *l, 0int,
{
    match l {
        Lvalue::VariableLvalue { name, annotation, source_offset } => LvalueModel::Variable {
            name: name@,
            slot: *annotation,
            offset: *source_offset,
        },
        Lvalue::DotAccessLvalue { expression, name } => LvalueModel::DotAccess {
            base: expr_view(expression),
            name: name@,
        },
    }
}

#[verifier::opaque]
pub open spec fn stmt_view(s: &Statement) -> StmtModel
    decreases *s, 0int,
{
    match s {
        Statement::Use { path, annotation } => StmtModel::Use {
            path: names_view(path@),
            bound: annotation.name@,
        },
        Statement::ExpressionStatement { expression } => StmtModel::Expression {
            expression: expr_view(expression),
        },
        Statement::Assignment { lvalue, rvalue } => StmtModel::Assignment {
            target: lvalue_view(lvalue),
            value: expr_view(rvalue),
        },
        Statement::Let { variable_offset, variable_name, annotation, default } => StmtModel::Let {
            name: variable_name@,
            offset: *variable_offset,
            slot: *annotation,
            default: opt_expr_view(*default),
        },
        Statement::Print { expression } => StmtModel::Print { expression: expr_view(expression) },
        Statement::Return { expression } => StmtModel::Return {
            expression: opt_expr_view(*expression),
        },
        Statement::Throw { expression } => StmtModel::Throw { expression: expr_view(expression) },
        Statement::If { test, block, else_if_clauses, else_clause } => StmtModel::If {
            test: expr_view(test),
            block: stmts_view(block@),
            else_ifs: else_ifs_prefix(else_if_clauses@, else_if_clauses@.len() as int),
            else_block: else_view(*else_clause),
        },
        Statement::Try { block, catch_clauses, else_clause, finally_clause } => StmtModel::Try {
            block: stmts_view(block@),
            catches: catches_prefix(catch_clauses@, catch_clauses@.len() as int),
            else_block: else_view(*else_clause),
            finally_block: finally_view(*finally_clause),
        },
        Statement::While { test, block, else_clause } => StmtModel::While {
            test: expr_view(test),
            block: stmts_view(block@),
            else_block: else_view(*else_clause),
        },
    }
}


} // verus!
