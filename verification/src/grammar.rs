//! The grammar of postfix chains, as recursive functions over token
//! sequences.
//!
//! Each function returns `Ok((next cursor, node))` on a match and
//! `Err(resume cursor)` on failure, exactly as the executable parser does;
//! the parser's contracts state equality with these functions. A failure
//! cursor names the position at which the enclosing alternation should
//! retry.
//!
//! Every cursor handed back by a sub-parse is at or beyond the cursor it was
//! started from. Where a recursive call uses such a returned cursor, it is
//! passed through `resume`, which keeps that lower bound syntactic so the
//! recursion measure is evident; the executable parser proves the bound, so
//! `resume` never changes a cursor that the parser actually produces.

use vstd::prelude::*;
use crate::ast::{ClassTypeView, ExprView, NameView, SpanView, TypeView, boxed, span_view};
use crate::convert::chain_of;
use crate::token::{Token, ident_at, ident_span, is_keyword, is_primitive_name, sym_at};

verus! {

/// The number of tokens that remain at `pos`: the recursion measure.
pub open spec fn rem(toks: Seq<Token>, pos: int) -> nat {
    if pos <= toks.len() {
        (toks.len() - pos) as nat
    } else {
        0
    }
}

/// A cursor returned by a sub-parse, bounded below by the cursor the
/// sub-parse was started from.
pub open spec fn resume(lo: int, p: int) -> int {
    if p < lo {
        lo
    } else {
        p
    }
}

/// Primary expressions as far as this layer sees them: a plain name, or an
/// unqualified `this`/`super`. Every other keyword refuses to start an
/// expression, which is what lets the type-name alternative run.
pub open spec fn spec_atom(toks: Seq<Token>, pos: int) -> Result<(int, ExprView), int> {
    if ident_at(toks, pos) {
        let sp = span_view(ident_span(toks, pos));
        if is_keyword(sp.fragment) {
            if sp.fragment == "this"@ {
                Ok((pos + 1, ExprView::This { tpe_opt: None, span: sp }))
            } else if sp.fragment == "super"@ {
                Ok((pos + 1, ExprView::Super { tpe_opt: None, span: sp }))
            } else {
                Err(pos)
            }
        } else {
            Ok((pos + 1, ExprView::Name(NameView { name: sp })))
        }
    } else {
        Err(pos)
    }
}

/// The number of consecutive `[` `]` pairs standing at `pos`.
pub open spec fn dims_at(toks: Seq<Token>, pos: int) -> nat
    decreases rem(toks, pos),
{
    if sym_at(toks, pos, '[') && sym_at(toks, pos + 1, ']') {
        1 + dims_at(toks, pos + 2)
    } else {
        0
    }
}

/// `t` wrapped in `d` array layers.
pub open spec fn wrap_array(t: TypeView, d: nat) -> TypeView
    decreases d,
{
    if d == 0 {
        t
    } else {
        wrap_array(TypeView::Array { tpe: Box::new(t), size_opt: None }, (d - 1) as nat)
    }
}

/// Type names as far as this layer sees them: a primitive type name,
/// followed by any number of `[` `]` pairs. This alternative is reached only
/// where no primary expression can start.
pub open spec fn spec_type_name(toks: Seq<Token>, pos: int) -> Result<(int, TypeView), int> {
    if ident_at(toks, pos) && is_primitive_name(ident_span(toks, pos).fragment@) {
        let d = dims_at(toks, pos + 1);
        Ok(
            (
                pos + 1 + 2 * d,
                wrap_array(TypeView::Primitive { name: span_view(ident_span(toks, pos)) }, d),
            ),
        )
    } else {
        Err(pos)
    }
}

/// Explicit type arguments `T`, `T, U`, ... up to the closing `>`; each
/// argument is a plain class name. The cursor stands just after `<`.
pub open spec fn spec_type_args(toks: Seq<Token>, pos: int) -> Result<(int, Seq<TypeView>), int>
    decreases rem(toks, pos),
{
    if ident_at(toks, pos) && !is_keyword(ident_span(toks, pos).fragment@) {
        let tv = TypeView::Class(
            ClassTypeView {
                prefix_opt: None,
                name: span_view(ident_span(toks, pos)),
                type_args_opt: None,
            },
        );
        if sym_at(toks, pos + 1, ',') {
            match spec_type_args(toks, pos + 2) {
                Ok((q, rest)) => Ok((q, seq![tv] + rest)),
                Err(e) => Err(e),
            }
        } else if sym_at(toks, pos + 1, '>') {
            Ok((pos + 2, seq![tv]))
        } else {
            Err(pos + 1)
        }
    } else {
        Err(pos)
    }
}

/// The entry point: a primary expression followed by its tail, or — where no
/// expression can start — a type name, which must then be followed by a
/// reserved-qualifier access.
pub open spec fn spec_parse(toks: Seq<Token>, pos: int) -> Result<(int, ExprView), int>
    decreases rem(toks, pos), 0int,
{
    match spec_atom(toks, pos) {
        Ok((p, left)) => spec_parse_tail(toks, p, left),
        Err(_) => match spec_type_name(toks, pos) {
            Ok((p, t)) => spec_reserved_access(toks, p, t),
            Err(_) => Err(pos),
        },
    }
}

/// The tail loop: after `left`, either a bracket pair promotes the
/// expression to an array type that must carry a reserved qualifier, or
/// index accesses are consumed, or a `.` hands over to the dot resolver, or
/// nothing follows and `left` is final.
pub open spec fn spec_parse_tail(toks: Seq<Token>, pos: int, left: ExprView) -> Result<
    (int, ExprView),
    int,
>
    decreases rem(toks, pos), 1int,
{
    if sym_at(toks, pos, '[') && sym_at(toks, pos + 1, ']') {
        match chain_of(left) {
            Some(ct) => {
                let d = dims_at(toks, pos);
                spec_reserved_access(toks, pos + 2 * d, wrap_array(TypeView::Class(ct), d))
            },
            None => Err(pos),
        }
    } else {
        match spec_array_access(toks, pos, left) {
            Ok((p, l)) => {
                let q = resume(pos, p);
                if sym_at(toks, q, '.') {
                    spec_parse_dot(toks, q + 1, l)
                } else {
                    Ok((q, l))
                }
            },
            Err(e) => Err(e),
        }
    }
}

/// Zero or more index accesses `[` index `]` applied to `left`.
pub open spec fn spec_array_access(toks: Seq<Token>, pos: int, left: ExprView) -> Result<
    (int, ExprView),
    int,
>
    decreases rem(toks, pos), 0int,
{
    if sym_at(toks, pos, '[') {
        match spec_parse(toks, pos + 1) {
            Ok((p, idx)) => {
                let q = resume(pos + 2, p);
                if sym_at(toks, q, ']') {
                    spec_array_access(
                        toks,
                        q + 1,
                        ExprView::ArrayAccess { expr: Box::new(left), index: Box::new(idx) },
                    )
                } else {
                    Err(q)
                }
            },
            Err(e) => Err(e),
        }
    } else {
        Ok((pos, left))
    }
}

/// The dot resolver: both the classification of what follows the `.` and
/// the re-entry into the tail loop on the node it builds.
pub open spec fn spec_parse_dot(toks: Seq<Token>, pos: int, parent: ExprView) -> Result<
    (int, ExprView),
    int,
>
    decreases rem(toks, pos), 3int,
{
    match spec_dot_body(toks, pos, parent) {
        Ok((p, e)) => spec_parse_tail(toks, resume(pos + 1, p), e),
        Err(e) => Err(e),
    }
}

/// The classification a `.` forces, in fixed priority: explicit type
/// arguments, invocation, qualified object creation, reserved-qualifier
/// access, plain field access.
pub open spec fn spec_dot_body(toks: Seq<Token>, pos: int, parent: ExprView) -> Result<
    (int, ExprView),
    int,
>
    decreases rem(toks, pos), 2int,
{
    if sym_at(toks, pos, '<') {
        spec_invocation(toks, pos, Some(parent))
    } else if ident_at(toks, pos) {
        let sp = span_view(ident_span(toks, pos));
        if sym_at(toks, pos + 1, '(') {
            spec_invocation_tail(toks, pos + 1, Some(parent), sp, None)
        } else if is_keyword(sp.fragment) {
            if sp.fragment == "new"@ {
                spec_new_object(toks, pos + 1, Some(parent))
            } else {
                match chain_of(parent) {
                    Some(ct) => spec_reserved_tail(toks, pos + 1, TypeView::Class(ct), sp),
                    None => Err(pos + 1),
                }
            }
        } else {
            Ok(
                (
                    pos + 1,
                    ExprView::FieldAccess {
                        expr: Box::new(parent),
                        field: NameView { name: sp },
                    },
                ),
            )
        }
    } else {
        Err(pos)
    }
}

/// A reserved-qualifier access `.this`/`.super`/`.class` required after a
/// type: the dot, a keyword, then the qualifier node and its tail.
pub open spec fn spec_reserved_access(toks: Seq<Token>, pos: int, t: TypeView) -> Result<
    (int, ExprView),
    int,
>
    decreases rem(toks, pos), 0int,
{
    if sym_at(toks, pos, '.') {
        if ident_at(toks, pos + 1) {
            let sp = span_view(ident_span(toks, pos + 1));
            if is_keyword(sp.fragment) {
                spec_reserved_tail(toks, pos + 2, t, sp)
            } else {
                Err(pos + 2)
            }
        } else {
            Err(pos + 1)
        }
    } else {
        Err(pos)
    }
}

/// The reserved-qualifier node for a classified keyword, re-entered into
/// the tail loop; any keyword other than `this`, `super` or `class` fails.
pub open spec fn spec_reserved_tail(
    toks: Seq<Token>,
    pos: int,
    t: TypeView,
    kw: SpanView,
) -> Result<(int, ExprView), int>
    decreases rem(toks, pos), 4int,
{
    if kw.fragment == "this"@ {
        spec_parse_tail(toks, pos, ExprView::This { tpe_opt: Some(t), span: kw })
    } else if kw.fragment == "super"@ {
        spec_parse_tail(toks, pos, ExprView::Super { tpe_opt: Some(t), span: kw })
    } else if kw.fragment == "class"@ {
        spec_parse_tail(toks, pos, ExprView::Class { tpe: t, span: kw })
    } else {
        Err(pos)
    }
}

/// An invocation with explicit type arguments: `<` arguments `>` name, then
/// the argument list.
pub open spec fn spec_invocation(toks: Seq<Token>, pos: int, prefix: Option<ExprView>) -> Result<
    (int, ExprView),
    int,
>
    decreases rem(toks, pos), 1int,
{
    if sym_at(toks, pos, '<') {
        match spec_type_args(toks, pos + 1) {
            Ok((p, tys)) => {
                let q = resume(pos + 1, p);
                if ident_at(toks, q) {
                    spec_invocation_tail(
                        toks,
                        q + 1,
                        prefix,
                        span_view(ident_span(toks, q)),
                        Some(tys),
                    )
                } else {
                    Err(q)
                }
            },
            Err(e) => Err(e),
        }
    } else {
        Err(pos)
    }
}

/// The argument list of an invocation whose name is already classified; a
/// name that reads `super` builds a qualified superconstructor call, every
/// other a method call.
pub open spec fn spec_invocation_tail(
    toks: Seq<Token>,
    pos: int,
    prefix: Option<ExprView>,
    name: SpanView,
    type_args: Option<Seq<TypeView>>,
) -> Result<(int, ExprView), int>
    decreases rem(toks, pos), 0int,
{
    if sym_at(toks, pos, '(') {
        match spec_args(toks, pos + 1) {
            Ok((q, args)) => {
                if name.fragment == "super"@ {
                    Ok(
                        (
                            q,
                            ExprView::SuperConstructorCall {
                                prefix_opt: boxed(prefix),
                                type_args_opt: type_args,
                                name,
                                args,
                            },
                        ),
                    )
                } else {
                    Ok(
                        (
                            q,
                            ExprView::MethodCall {
                                prefix_opt: boxed(prefix),
                                type_args_opt: type_args,
                                name,
                                args,
                            },
                        ),
                    )
                }
            },
            Err(e) => Err(e),
        }
    } else {
        Err(pos)
    }
}

/// Qualified object creation `prefix.new Inner(args)`: the class name, then
/// the constructor arguments. The cursor stands just after `new`.
pub open spec fn spec_new_object(toks: Seq<Token>, pos: int, prefix: Option<ExprView>) -> Result<
    (int, ExprView),
    int,
>
    decreases rem(toks, pos), 0int,
{
    if ident_at(toks, pos) && !is_keyword(ident_span(toks, pos).fragment@) {
        let ct = ClassTypeView {
            prefix_opt: None,
            name: span_view(ident_span(toks, pos)),
            type_args_opt: None,
        };
        if sym_at(toks, pos + 1, '(') {
            match spec_args(toks, pos + 2) {
                Ok((q, args)) => Ok(
                    (
                        q,
                        ExprView::NewObject {
                            prefix_opt: boxed(prefix),
                            tpe: ct,
                            constructor_type_args_opt: None,
                            args,
                            body_opt: None,
                        },
                    ),
                ),
                Err(e) => Err(e),
            }
        } else {
            Err(pos + 1)
        }
    } else {
        Err(pos)
    }
}

/// An argument list after its opening `(`: empty, or expressions separated
/// by commas, up to the closing `)`.
pub open spec fn spec_args(toks: Seq<Token>, pos: int) -> Result<(int, Seq<ExprView>), int>
    decreases rem(toks, pos), 5int,
{
    if sym_at(toks, pos, ')') {
        Ok((pos + 1, Seq::<ExprView>::empty()))
    } else {
        match spec_parse(toks, pos) {
            Ok((p, e)) => match spec_args_rest(toks, resume(pos + 1, p)) {
                Ok((q, rest)) => Ok((q, seq![e] + rest)),
                Err(err) => Err(err),
            },
            Err(err) => Err(err),
        }
    }
}

/// What may follow an argument: `,` and a further argument, or `)`.
pub open spec fn spec_args_rest(toks: Seq<Token>, pos: int) -> Result<(int, Seq<ExprView>), int>
    decreases rem(toks, pos), 4int,
{
    if sym_at(toks, pos, ',') {
        match spec_parse(toks, pos + 1) {
            Ok((p, e)) => match spec_args_rest(toks, resume(pos + 2, p)) {
                Ok((q, rest)) => Ok((q, seq![e] + rest)),
                Err(err) => Err(err),
            },
            Err(err) => Err(err),
        }
    } else if sym_at(toks, pos, ')') {
        Ok((pos + 1, Seq::<ExprView>::empty()))
    } else {
        Err(pos)
    }
}

} // verus!
