//! Conversion of an already parsed expression into an assignment target.
use vstd::prelude::*;
use crate::grammar::lvalue_of;
use crate::node::{expr_view, lvalue_view, Expression, Lvalue};

verus! {

/// The assignment target that `expression` stands for: a variable or a
/// member access; `None` for every other expression.
pub fn to_lvalue(expression: Box<Expression>) -> (r: Option<Box<Lvalue>>)
    ensures
        match r {
            Some(l) => lvalue_of(expr_view(&*expression)) == Some(lvalue_view(&*l)),
            None => lvalue_of(expr_view(&*expression)) is None,
        },
{
    proof {
        reveal(expr_view);
        reveal(lvalue_view);
    }
    match *expression {
        Expression::Variable { name, annotation, source_offset } => Some(
            Box::new(Lvalue::VariableLvalue { name, annotation, source_offset }),
        ),
        Expression::DotAccess { expression, name } => Some(
            Box::new(Lvalue::DotAccessLvalue { expression, name }),
        ),
        _ => None,
    }
}

} // verus!
