//! Speculative reinterpretation of an expression as a class type.
//!
//! A dotted identifier chain (`Parent.Test`) is both a valid expression and
//! a valid type name; the parser builds the expression first and converts it
//! here once a following token proves the type reading. Conversion succeeds
//! exactly on pure `Name`/`FieldAccess` chains and mirrors the chain into a
//! class type with the same identifiers in the same order.

use vstd::prelude::*;
use crate::ast::{ClassType, ClassTypeView, Expr, ExprView, class_type_view, expr_view};

verus! {

/// The class type a dotted-name chain denotes, or `None` for every
/// expression that is not such a chain.
pub open spec fn chain_of(e: ExprView) -> Option<ClassTypeView>
    decreases e,
{
    match e {
        ExprView::Name(n) => Some(
            ClassTypeView { prefix_opt: None, name: n.name, type_args_opt: None },
        ),
        ExprView::FieldAccess { expr, field } => match chain_of(*expr) {
            Some(p) => Some(
                ClassTypeView {
                    prefix_opt: Some(Box::new(p)),
                    name: field.name,
                    type_args_opt: None,
                },
            ),
            None => None,
        },
        _ => None,
    }
}

/// The expression is a pure dotted-name chain: a bare name, or field
/// accesses rooted in one.
pub open spec fn is_name_chain(e: ExprView) -> bool
    decreases e,
{
    match e {
        ExprView::Name(_) => true,
        ExprView::FieldAccess { expr, field: _ } => is_name_chain(*expr),
        _ => false,
    }
}

/// The identifiers of a dotted-name chain, leftmost first.
pub open spec fn expr_chain_idents(e: ExprView) -> Seq<Seq<char>>
    decreases e,
{
    match e {
        ExprView::Name(n) => seq![n.name.fragment],
        ExprView::FieldAccess { expr, field } => expr_chain_idents(*expr).push(
            field.name.fragment,
        ),
        _ => Seq::empty(),
    }
}

/// The identifiers of a class type's prefix chain, outermost first.
pub open spec fn class_chain_idents(c: ClassTypeView) -> Seq<Seq<char>>
    decreases c,
{
    match c.prefix_opt {
        Some(p) => class_chain_idents(*p).push(c.name.fragment),
        None => seq![c.name.fragment],
    }
}

/// Attempt to reinterpret `e` as a class type. Returns the equivalent class
/// type for a pure dotted-name chain and `None` for every other shape.
pub fn convert_to_type(e: Expr) -> (r: Option<ClassType>)
    ensures
        match r {
            Some(ct) => chain_of(expr_view(e)) == Some(class_type_view(ct)),
            None => chain_of(expr_view(e)) is None,
        },
    decreases e,
{
    match e {
        Expr::Name(n) => Some(ClassType { prefix_opt: None, name: n.name, type_args_opt: None }),
        Expr::FieldAccess(f) => match convert_to_type(*f.expr) {
            Some(p) => Some(
                ClassType {
                    prefix_opt: Some(Box::new(p)),
                    name: f.field.name,
                    type_args_opt: None,
                },
            ),
            None => None,
        },
        _ => None,
    }
}

} // verus!
