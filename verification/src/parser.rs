//! The executable parser. Every function returns exactly what the grammar
//! in `crate::grammar` assigns to its input, and never moves the cursor
//! before the position it was given.

use vstd::prelude::*;
use crate::ast::{
    ArrayAccess, ArrayType, ClassExpr, ClassType, Expr, ExprView, FieldAccess, Keyword, MethodCall,
    Name, NewObject, PrimitiveType, Super, SuperConstructorCall, This, Type, TypeView, expr_view,
    exprs_view, opt_expr_view, opt_types_view, span_view, type_view, types_view,
};
use crate::convert::convert_to_type;
use crate::grammar::{
    dims_at, rem, spec_args, spec_args_rest, spec_array_access, spec_atom, spec_invocation,
    spec_invocation_tail, spec_new_object, spec_parse, spec_parse_dot, spec_parse_tail,
    spec_reserved_access, spec_reserved_tail, spec_type_args, spec_type_name, wrap_array,
};
use crate::token::{Span, Token, is_keyword_str, is_primitive_name_str, symbol, sym_at, text_is};

verus! {

/// The executable result agrees with the grammar's: same cursor on failure,
/// same cursor and the same node (up to the view) on success.
pub open spec fn parsed_matches(
    r: Result<(usize, Expr), usize>,
    s: Result<(int, ExprView), int>,
) -> bool {
    match (r, s) {
        (Ok((p, e)), Ok((sp, se))) => p as int == sp && expr_view(e) == se,
        (Err(p), Err(sp)) => p as int == sp,
        _ => false,
    }
}

pub open spec fn typed_matches(
    r: Result<(usize, Type), usize>,
    s: Result<(int, TypeView), int>,
) -> bool {
    match (r, s) {
        (Ok((p, t)), Ok((sp, st))) => p as int == sp && type_view(t) == st,
        (Err(p), Err(sp)) => p as int == sp,
        _ => false,
    }
}

pub open spec fn args_match(
    r: Result<(usize, Vec<Expr>), usize>,
    s: Result<(int, Seq<ExprView>), int>,
) -> bool {
    match (r, s) {
        (Ok((p, v)), Ok((sp, sv))) => p as int == sp && exprs_view(v) == sv,
        (Err(p), Err(sp)) => p as int == sp,
        _ => false,
    }
}

pub open spec fn tyargs_match(
    r: Result<(usize, Vec<Type>), usize>,
    s: Result<(int, Seq<TypeView>), int>,
) -> bool {
    match (r, s) {
        (Ok((p, v)), Ok((sp, sv))) => p as int == sp && types_view(v) == sv,
        (Err(p), Err(sp)) => p as int == sp,
        _ => false,
    }
}

/// On success the cursor moved no earlier than `lo`.
pub open spec fn ok_from<T>(r: Result<(usize, T), usize>, lo: int) -> bool {
    match r {
        Ok((p, _)) => lo <= p as int,
        Err(_) => true,
    }
}

/// The span carried by a classified identifier, keyword or plain.
pub open spec fn either_span(e: either::Either<Keyword, Name>) -> Span {
    match e {
        either::Either::Left(k) => k.name,
        either::Either::Right(n) => n.name,
    }
}

/// Declares `either::Either`, the two-variant union the classifier hands
/// back: `Left` a keyword, `Right` a plain name. Its variants and fields are
/// public, so this declaration exposes the whole type to verification and
/// nothing about it is taken on trust beyond the shape of its definition.
#[verifier::external_type_specification]
#[verifier::reject_recursive_types(L)]
#[verifier::reject_recursive_types(R)]
pub struct ExEither<L, R>(either::Either<L, R>);

/// The identifier classifier: consumes one identifier token and reports it
/// as a keyword or a plain name, with its span; fails on punctuation and at
/// the end of input.
pub fn parse_name(toks: &Vec<Token>, pos: usize) -> (r: Result<
    (usize, either::Either<Keyword, Name>),
    usize,
>)
    ensures
        crate::token::ident_at(toks@, pos as int) ==> {
            let sp = crate::token::ident_span(toks@, pos as int);
            if crate::token::is_keyword(sp.fragment@) {
                r == Ok::<(usize, either::Either<Keyword, Name>), usize>(
                    ((pos + 1) as usize, either::Either::Left(Keyword { name: sp })),
                )
            } else {
                r == Ok::<(usize, either::Either<Keyword, Name>), usize>(
                    ((pos + 1) as usize, either::Either::Right(Name { name: sp })),
                )
            }
        },
        !crate::token::ident_at(toks@, pos as int) ==> r == Err::<
            (usize, either::Either<Keyword, Name>),
            usize,
        >(pos),
        toks@.len() <= usize::MAX,
{
    if pos < toks.len() {
        match &toks[pos] {
            Token::Ident(sp) => {
                let s = sp.clone();
                if is_keyword_str(&s.fragment) {
                    Ok((pos + 1, either::Either::Left(Keyword { name: s })))
                } else {
                    Ok((pos + 1, either::Either::Right(Name { name: s })))
                }
            },
            Token::Symbol(_) => Err(pos),
        }
    } else {
        Err(pos)
    }
}

/// The primary-expression parser this layer starts from: a plain name or an
/// unqualified `this`/`super`.
pub fn parse_atom(toks: &Vec<Token>, pos: usize) -> (r: Result<(usize, Expr), usize>)
    ensures
        parsed_matches(r, spec_atom(toks@, pos as int)),
        ok_from(r, pos as int + 1),
{
    if pos < toks.len() {
        match &toks[pos] {
            Token::Ident(sp) => {
                let s = sp.clone();
                if is_keyword_str(&s.fragment) {
                    if text_is(&s.fragment, "this") {
                        Ok((pos + 1, Expr::This(This { tpe_opt: None, span: s })))
                    } else if text_is(&s.fragment, "super") {
                        Ok((pos + 1, Expr::Super(Super { tpe_opt: None, span: s })))
                    } else {
                        Err(pos)
                    }
                } else {
                    Ok((pos + 1, Expr::Name(Name { name: s })))
                }
            },
            Token::Symbol(_) => Err(pos),
        }
    } else {
        Err(pos)
    }
}

/// Consumes every `[` `]` pair standing at `pos`, wrapping `t` in one array
/// layer per pair.
pub fn parse_array_tail(toks: &Vec<Token>, pos: usize, t: Type) -> (r: (usize, Type))
    ensures
        r.0 as int == pos + 2 * dims_at(toks@, pos as int),
        type_view(r.1) == wrap_array(type_view(t), dims_at(toks@, pos as int)),
        dims_at(toks@, pos as int) > 0 ==> r.0 as int <= toks@.len(),
    decreases rem(toks@, pos as int),
{
    if symbol(toks, pos, '[') && symbol(toks, pos + 1, ']') {
        parse_array_tail(toks, pos + 2, Type::Array(ArrayType { tpe: Box::new(t), size_opt: None }))
    } else {
        (pos, t)
    }
}

/// The type-name parser this layer falls back to: a primitive type name
/// with any number of `[` `]` pairs.
pub fn parse_type_name(toks: &Vec<Token>, pos: usize) -> (r: Result<(usize, Type), usize>)
    ensures
        typed_matches(r, spec_type_name(toks@, pos as int)),
        ok_from(r, pos as int + 1),
{
    if pos < toks.len() {
        match &toks[pos] {
            Token::Ident(sp) => {
                let s = sp.clone();
                if is_primitive_name_str(&s.fragment) {
                    let (q, t) = parse_array_tail(
                        toks,
                        pos + 1,
                        Type::Primitive(PrimitiveType { name: s }),
                    );
                    Ok((q, t))
                } else {
                    Err(pos)
                }
            },
            Token::Symbol(_) => Err(pos),
        }
    } else {
        Err(pos)
    }
}

/// Recognises a `[` `]` pair, the mark of an array class literal.
pub fn array_type_tail(toks: &Vec<Token>, pos: usize) -> (r: Result<(usize, ()), usize>)
    ensures
        sym_at(toks@, pos as int, '[') && sym_at(toks@, pos as int + 1, ']') ==> r == Ok::<
            (usize, ()),
            usize,
        >(((pos + 2) as usize, ())),
        sym_at(toks@, pos as int, '[') && !sym_at(toks@, pos as int + 1, ']') ==> r == Err::<
            (usize, ()),
            usize,
        >((pos + 1) as usize),
        !sym_at(toks@, pos as int, '[') ==> r == Err::<(usize, ()), usize>(pos),
{
    if symbol(toks, pos, '[') {
        if symbol(toks, pos + 1, ']') {
            Ok((pos + 2, ()))
        } else {
            Err(pos + 1)
        }
    } else {
        Err(pos)
    }
}

/// Explicit type arguments up to the closing `>`.
fn parse_type_args(toks: &Vec<Token>, pos: usize) -> (r: Result<(usize, Vec<Type>), usize>)
    ensures
        tyargs_match(r, spec_type_args(toks@, pos as int)),
        ok_from(r, pos as int + 1),
    decreases rem(toks@, pos as int),
{
    if pos < toks.len() {
        match &toks[pos] {
            Token::Ident(sp) => {
                let s = sp.clone();
                if is_keyword_str(&s.fragment) {
                    Err(pos)
                } else {
                    let t = Type::Class(
                        ClassType { prefix_opt: None, name: s, type_args_opt: None },
                    );
                    if symbol(toks, pos + 1, ',') {
                        let ghost t0 = t;
                        match parse_type_args(toks, pos + 2) {
                            Ok((q, mut rest)) => {
                                let ghost rest0 = rest;
                                rest.insert(0, t);
                                proof {
                                    reveal_with_fuel(type_view, 3);
                                    assert(types_view(rest) =~= seq![type_view(t0)] + types_view(
                                        rest0,
                                    ));
                                }
                                Ok((q, rest))
                            },
                            Err(e) => Err(e),
                        }
                    } else if symbol(toks, pos + 1, '>') {
                        let ghost t0 = t;
                        let mut v: Vec<Type> = Vec::new();
                        v.push(t);
                        proof {
                            reveal_with_fuel(type_view, 3);
                            assert(types_view(v) =~= seq![type_view(t0)]);
                        }
                        Ok((pos + 2, v))
                    } else {
                        Err(pos + 1)
                    }
                }
            },
            Token::Symbol(_) => Err(pos),
        }
    } else {
        Err(pos)
    }
}

/// The entry point: a primary expression and its tail, or a type name that
/// must be followed by a reserved-qualifier access.
pub fn parse(toks: &Vec<Token>, pos: usize) -> (r: Result<(usize, Expr), usize>)
    ensures
        parsed_matches(r, spec_parse(toks@, pos as int)),
        ok_from(r, pos as int + 1),
    decreases rem(toks@, pos as int), 0int,
{
    match parse_atom(toks, pos) {
        Ok((p, left)) => parse_tail(left, toks, p),
        Err(_) => match parse_type_name(toks, pos) {
            Ok((p, t)) => parse_reserved_field_access(t, toks, p),
            Err(_) => Err(pos),
        },
    }
}

/// The tail loop on an already-built expression.
pub fn parse_tail(left: Expr, toks: &Vec<Token>, pos: usize) -> (r: Result<(usize, Expr), usize>)
    ensures
        parsed_matches(r, spec_parse_tail(toks@, pos as int, expr_view(left))),
        ok_from(r, pos as int),
    decreases rem(toks@, pos as int), 1int,
{
    if let Ok(_) = array_type_tail(toks, pos) {
        match convert_to_type(left) {
            Some(ct) => {
                let (q, t) = parse_array_tail(toks, pos, Type::Class(ct));
                parse_reserved_field_access(t, toks, q)
            },
            None => Err(pos),
        }
    } else {
        match parse_array_access_tail(toks, pos, left) {
            Ok((p, l)) => {
                if symbol(toks, p, '.') {
                    parse_dot(l, toks, p + 1)
                } else {
                    Ok((p, l))
                }
            },
            Err(e) => Err(e),
        }
    }
}

/// Zero or more index accesses applied to `left`.
fn parse_array_access_tail(toks: &Vec<Token>, pos: usize, left: Expr) -> (r: Result<
    (usize, Expr),
    usize,
>)
    ensures
        parsed_matches(r, spec_array_access(toks@, pos as int, expr_view(left))),
        ok_from(r, pos as int),
    decreases rem(toks@, pos as int), 0int,
{
    if symbol(toks, pos, '[') {
        match parse(toks, pos + 1) {
            Ok((p, idx)) => {
                if symbol(toks, p, ']') {
                    parse_array_access_tail(
                        toks,
                        p + 1,
                        Expr::ArrayAccess(
                            ArrayAccess { expr: Box::new(left), index: Box::new(idx) },
                        ),
                    )
                } else {
                    Err(p)
                }
            },
            Err(e) => Err(e),
        }
    } else {
        Ok((pos, left))
    }
}

/// The dot resolver; `pos` stands just after the consumed `.`.
fn parse_dot(parent: Expr, toks: &Vec<Token>, pos: usize) -> (r: Result<(usize, Expr), usize>)
    ensures
        parsed_matches(r, spec_parse_dot(toks@, pos as int, expr_view(parent))),
        ok_from(r, pos as int + 1),
    decreases rem(toks@, pos as int), 3int,
{
    let step: Result<(usize, Expr), usize> = if symbol(toks, pos, '<') {
        parse_invocation(toks, pos, Some(parent))
    } else {
        match parse_name(toks, pos) {
            Ok((p, keyword_or_name)) => {
                if symbol(toks, p, '(') {
                    parse_invocation_tail(toks, p, Some(parent), keyword_or_name, None)
                } else {
                    match keyword_or_name {
                        either::Either::Left(keyword) => {
                            if text_is(&keyword.name.fragment, "new") {
                                parse_new_object_tail(Some(parent), toks, p)
                            } else {
                                match convert_to_type(parent) {
                                    Some(ct) => parse_reserved_field_access_tail(
                                        Type::Class(ct),
                                        keyword,
                                        toks,
                                        p,
                                    ),
                                    None => Err(p),
                                }
                            }
                        },
                        either::Either::Right(name) => Ok(
                            (
                                p,
                                Expr::FieldAccess(
                                    FieldAccess { expr: Box::new(parent), field: name },
                                ),
                            ),
                        ),
                    }
                }
            },
            Err(e) => Err(e),
        }
    };
    match step {
        Ok((q, e)) => parse_tail(e, toks, q),
        Err(e) => Err(e),
    }
}

/// A reserved-qualifier access required after a type: `.` then a keyword.
fn parse_reserved_field_access(tpe: Type, toks: &Vec<Token>, pos: usize) -> (r: Result<
    (usize, Expr),
    usize,
>)
    ensures
        parsed_matches(r, spec_reserved_access(toks@, pos as int, type_view(tpe))),
        ok_from(r, pos as int),
    decreases rem(toks@, pos as int), 0int,
{
    if symbol(toks, pos, '.') {
        match parse_name(toks, pos + 1) {
            Ok((p, keyword_or_name)) => match keyword_or_name {
                either::Either::Left(keyword) => parse_reserved_field_access_tail(
                    tpe,
                    keyword,
                    toks,
                    p,
                ),
                either::Either::Right(_) => Err(p),
            },
            Err(e) => Err(e),
        }
    } else {
        Err(pos)
    }
}

/// Builds the `this`/`super`/`class` node for a classified keyword and
/// re-enters the tail loop; any other keyword fails.
pub fn parse_reserved_field_access_tail(
    tpe: Type,
    keyword: Keyword,
    toks: &Vec<Token>,
    pos: usize,
) -> (r: Result<(usize, Expr), usize>)
    ensures
        parsed_matches(
            r,
            spec_reserved_tail(toks@, pos as int, type_view(tpe), span_view(keyword.name)),
        ),
        ok_from(r, pos as int),
    decreases rem(toks@, pos as int), 4int,
{
    if text_is(&keyword.name.fragment, "this") {
        parse_tail(Expr::This(This { tpe_opt: Some(tpe), span: keyword.name }), toks, pos)
    } else if text_is(&keyword.name.fragment, "super") {
        parse_tail(Expr::Super(Super { tpe_opt: Some(tpe), span: keyword.name }), toks, pos)
    } else if text_is(&keyword.name.fragment, "class") {
        parse_tail(Expr::Class(ClassExpr { tpe, span: keyword.name }), toks, pos)
    } else {
        Err(pos)
    }
}

/// An invocation with explicit type arguments `<T, ...>name(args)`; `pos`
/// stands at the `<`.
fn parse_invocation(toks: &Vec<Token>, pos: usize, prefix_opt: Option<Expr>) -> (r: Result<
    (usize, Expr),
    usize,
>)
    ensures
        parsed_matches(r, spec_invocation(toks@, pos as int, opt_expr_view(prefix_opt))),
        ok_from(r, pos as int + 1),
    decreases rem(toks@, pos as int), 1int,
{
    if symbol(toks, pos, '<') {
        match parse_type_args(toks, pos + 1) {
            Ok((p, tys)) => match parse_name(toks, p) {
                Ok((p2, keyword_or_name)) => parse_invocation_tail(
                    toks,
                    p2,
                    prefix_opt,
                    keyword_or_name,
                    Some(tys),
                ),
                Err(e) => Err(e),
            },
            Err(e) => Err(e),
        }
    } else {
        Err(pos)
    }
}

/// The argument list of an invocation whose name is already classified; a
/// name reading `super` builds a qualified superconstructor call.
fn parse_invocation_tail(
    toks: &Vec<Token>,
    pos: usize,
    prefix_opt: Option<Expr>,
    name: either::Either<Keyword, Name>,
    type_args_opt: Option<Vec<Type>>,
) -> (r: Result<(usize, Expr), usize>)
    ensures
        parsed_matches(
            r,
            spec_invocation_tail(
                toks@,
                pos as int,
                opt_expr_view(prefix_opt),
                span_view(either_span(name)),
                opt_types_view(type_args_opt),
            ),
        ),
        ok_from(r, pos as int + 1),
    decreases rem(toks@, pos as int), 0int,
{
    if symbol(toks, pos, '(') {
        match parse_args(toks, pos + 1) {
            Ok((q, args)) => {
                let name_span = match name {
                    either::Either::Left(k) => k.name,
                    either::Either::Right(n) => n.name,
                };
                let prefix_box = match prefix_opt {
                    Some(e) => Some(Box::new(e)),
                    None => None,
                };
                proof {
                    reveal_with_fuel(expr_view, 3);
                }
                if text_is(&name_span.fragment, "super") {
                    Ok(
                        (
                            q,
                            Expr::SuperConstructorCall(
                                SuperConstructorCall {
                                    prefix_opt: prefix_box,
                                    type_args_opt,
                                    name: name_span,
                                    args,
                                },
                            ),
                        ),
                    )
                } else {
                    Ok(
                        (
                            q,
                            Expr::MethodCall(
                                MethodCall {
                                    prefix_opt: prefix_box,
                                    type_args_opt,
                                    name: name_span,
                                    args,
                                },
                            ),
                        ),
                    )
                }
            },
            Err(e) => Err(e),
        }
    } else {
        Err(pos)
    }
}

/// Qualified object creation; `pos` stands just after the consumed `new`.
fn parse_new_object_tail(prefix_opt: Option<Expr>, toks: &Vec<Token>, pos: usize) -> (r: Result<
    (usize, Expr),
    usize,
>)
    ensures
        parsed_matches(r, spec_new_object(toks@, pos as int, opt_expr_view(prefix_opt))),
        ok_from(r, pos as int + 1),
    decreases rem(toks@, pos as int), 0int,
{
    if pos < toks.len() {
        match &toks[pos] {
            Token::Ident(sp) => {
                let s = sp.clone();
                if is_keyword_str(&s.fragment) {
                    Err(pos)
                } else {
                    if symbol(toks, pos + 1, '(') {
                        match parse_args(toks, pos + 2) {
                            Ok((q, args)) => {
                                let prefix_box = match prefix_opt {
                                    Some(e) => Some(Box::new(e)),
                                    None => None,
                                };
                                proof {
                                    reveal_with_fuel(expr_view, 3);
                                }
                                Ok(
                                    (
                                        q,
                                        Expr::NewObject(
                                            NewObject {
                                                prefix_opt: prefix_box,
                                                tpe: ClassType {
                                                    prefix_opt: None,
                                                    name: s,
                                                    type_args_opt: None,
                                                },
                                                constructor_type_args_opt: None,
                                                args,
                                                body_opt: None,
                                            },
                                        ),
                                    ),
                                )
                            },
                            Err(e) => Err(e),
                        }
                    } else {
                        Err(pos + 1)
                    }
                }
            },
            Token::Symbol(_) => Err(pos),
        }
    } else {
        Err(pos)
    }
}

/// An argument list after its opening parenthesis.
fn parse_args(toks: &Vec<Token>, pos: usize) -> (r: Result<(usize, Vec<Expr>), usize>)
    ensures
        args_match(r, spec_args(toks@, pos as int)),
        ok_from(r, pos as int + 1),
    decreases rem(toks@, pos as int), 5int,
{
    if symbol(toks, pos, ')') {
        let v: Vec<Expr> = Vec::new();
        proof {
            assert(exprs_view(v) =~= Seq::<ExprView>::empty());
        }
        Ok((pos + 1, v))
    } else {
        match parse(toks, pos) {
            Ok((p, e)) => match parse_args_rest(toks, p) {
                Ok((q, mut rest)) => {
                    let ghost rest0 = rest;
                    rest.insert(0, e);
                    proof {
                        assert(exprs_view(rest) =~= seq![expr_view(e)] + exprs_view(rest0));
                    }
                    Ok((q, rest))
                },
                Err(err) => Err(err),
            },
            Err(err) => Err(err),
        }
    }
}

/// What may follow an argument: `,` and a further argument, or `)`.
fn parse_args_rest(toks: &Vec<Token>, pos: usize) -> (r: Result<(usize, Vec<Expr>), usize>)
    ensures
        args_match(r, spec_args_rest(toks@, pos as int)),
        ok_from(r, pos as int + 1),
    decreases rem(toks@, pos as int), 4int,
{
    if symbol(toks, pos, ',') {
        match parse(toks, pos + 1) {
            Ok((p, e)) => match parse_args_rest(toks, p) {
                Ok((q, mut rest)) => {
                    let ghost rest0 = rest;
                    rest.insert(0, e);
                    proof {
                        assert(exprs_view(rest) =~= seq![expr_view(e)] + exprs_view(rest0));
                    }
                    Ok((q, rest))
                },
                Err(err) => Err(err),
            },
            Err(err) => Err(err),
        }
    } else if symbol(toks, pos, ')') {
        let v: Vec<Expr> = Vec::new();
        proof {
            assert(exprs_view(v) =~= Seq::<ExprView>::empty());
        }
        Ok((pos + 1, v))
    } else {
        Err(pos)
    }
}

} // verus!
