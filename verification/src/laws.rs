//! Properties of the layer, proved against the grammar: the tail loop is
//! idempotent where no postfix construct follows, reserved-qualifier access
//! is gated by expression-to-type conversion, and explicit type arguments
//! take priority over every other dot resolution.

use vstd::prelude::*;
use crate::ast::{ExprView, TypeView, span_view};
use crate::convert::{chain_of, class_chain_idents, expr_chain_idents, is_name_chain};
use crate::grammar::{
    spec_dot_body, spec_invocation, spec_invocation_tail, spec_parse_tail, spec_reserved_tail,
};
use crate::token::{Token, ident_at, ident_span, is_keyword, sym_at};

verus! {

/// Idempotent chaining: where neither a bracket nor a dot follows, the tail
/// loop returns the expression and the cursor unchanged.
pub proof fn lemma_tail_idempotent(toks: Seq<Token>, pos: int, left: ExprView)
    requires
        !sym_at(toks, pos, '['),
        !sym_at(toks, pos, '.'),
    ensures
        spec_parse_tail(toks, pos, left) == Ok::<(int, ExprView), int>((pos, left)),
{
    reveal_with_fuel(spec_parse_tail, 3);
}

/// Conversion gating: reinterpreting an expression as a class type succeeds
/// exactly on pure dotted-name chains, and the type carries the chain's
/// identifiers in the same order.
pub proof fn lemma_conversion_gating(e: ExprView)
    ensures
        match chain_of(e) {
            Some(c) => is_name_chain(e) && class_chain_idents(c) == expr_chain_idents(e),
            None => !is_name_chain(e),
        },
    decreases e,
{
    match e {
        ExprView::FieldAccess { expr, field: _ } => {
            lemma_conversion_gating(*expr);
        },
        _ => {},
    }
}

/// Reserved-qualifier gating, failing side: after a dot, a keyword that is
/// not `new` and not followed by `(` fails the whole resolution whenever
/// the expression before the dot is not a dotted-name chain.
pub proof fn lemma_reserved_gating_failure(toks: Seq<Token>, pos: int, parent: ExprView)
    requires
        ident_at(toks, pos),
        is_keyword(ident_span(toks, pos).fragment@),
        ident_span(toks, pos).fragment@ != "new"@,
        !sym_at(toks, pos + 1, '('),
        !is_name_chain(parent),
    ensures
        spec_dot_body(toks, pos, parent) == Err::<(int, ExprView), int>(pos + 1),
{
    lemma_conversion_gating(parent);
}

/// Reserved-qualifier gating, succeeding side: after a dotted-name chain, a
/// reserved qualifier resolves through the converted class type, whose
/// prefix chain carries the same identifiers in the same order.
pub proof fn lemma_reserved_gating_success(toks: Seq<Token>, pos: int, parent: ExprView)
    requires
        ident_at(toks, pos),
        ident_span(toks, pos).fragment@ == "this"@ || ident_span(toks, pos).fragment@ == "super"@
            || ident_span(toks, pos).fragment@ == "class"@,
        !sym_at(toks, pos + 1, '('),
        is_name_chain(parent),
    ensures
        match chain_of(parent) {
            Some(c) => {
                &&& class_chain_idents(c) == expr_chain_idents(parent)
                &&& spec_dot_body(toks, pos, parent) == spec_reserved_tail(
                    toks,
                    pos + 1,
                    TypeView::Class(c),
                    span_view(ident_span(toks, pos)),
                )
            },
            None => false,
        },
{
    lemma_conversion_gating(parent);
    reveal_strlit("this");
    reveal_strlit("super");
    reveal_strlit("class");
    reveal_strlit("new");
    reveal_with_fuel(spec_dot_body, 2);
    assert("this"@.len() == 4);
    assert("super"@.len() == 5);
    assert("class"@.len() == 5);
    assert("new"@.len() == 3);
    assert(ident_span(toks, pos).fragment@ != "new"@);
}

/// Priority of explicit type arguments: a `<` after the dot always resolves
/// through the invocation alternative, and any node it classifies is an
/// invocation carrying the parent as prefix and explicit type arguments —
/// never a field access.
pub proof fn lemma_type_args_priority(toks: Seq<Token>, pos: int, parent: ExprView)
    requires
        sym_at(toks, pos, '<'),
    ensures
        spec_dot_body(toks, pos, parent) == spec_invocation(toks, pos, Some(parent)),
        match spec_dot_body(toks, pos, parent) {
            Ok((q, e)) => match e {
                ExprView::MethodCall { prefix_opt, type_args_opt, name: _, args: _ } => {
                    &&& prefix_opt == Some(Box::new(parent))
                    &&& type_args_opt is Some
                },
                ExprView::SuperConstructorCall { prefix_opt, type_args_opt, name: _, args: _ } => {
                    &&& prefix_opt == Some(Box::new(parent))
                    &&& type_args_opt is Some
                },
                _ => false,
            },
            Err(_) => true,
        },
{
    reveal_with_fuel(spec_dot_body, 4);
    reveal_with_fuel(spec_invocation, 4);
    reveal_with_fuel(spec_invocation_tail, 4);
}

} // verus!
