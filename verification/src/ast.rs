//! The syntax tree this layer produces, and its mathematical view.
//!
//! Every node is an immutable value, built once and owned by its parent.
//! Each executable type has a view type whose strings are `Seq<char>` and
//! whose lists are `Seq`; the grammar and all contracts speak of the views.

use vstd::prelude::*;
use crate::token::Span;

verus! {

broadcast use vstd::std_specs::vec::axiom_vec_index_decreases;

/// A plain (non-keyword) identifier.
#[derive(Debug, PartialEq, Eq)]
pub struct Name {
    pub name: Span,
}

/// A reserved word together with its span.
#[derive(Debug, PartialEq, Eq)]
pub struct Keyword {
    pub name: Span,
}

/// The body of an anonymous class. Tails resolved by this layer never carry
/// one; the field that holds it is always left empty here.
#[derive(Debug, PartialEq, Eq)]
pub struct ClassBody {}

#[derive(Debug, PartialEq, Eq)]
pub enum Type {
    Primitive(PrimitiveType),
    Class(ClassType),
    Array(ArrayType),
}

#[derive(Debug, PartialEq, Eq)]
pub struct PrimitiveType {
    pub name: Span,
}

/// A class type; `prefix_opt` chains the qualifying types in source order,
/// outermost first.
#[derive(Debug, PartialEq, Eq)]
pub struct ClassType {
    pub prefix_opt: Option<Box<ClassType>>,
    pub name: Span,
    pub type_args_opt: Option<Vec<Type>>,
}

/// An array type; the size is populated only by array-creation contexts,
/// never on the class-literal path resolved here.
#[derive(Debug, PartialEq, Eq)]
pub struct ArrayType {
    pub tpe: Box<Type>,
    pub size_opt: Option<Box<Expr>>,
}

#[derive(Debug, PartialEq, Eq)]
pub enum Expr {
    Name(Name),
    FieldAccess(FieldAccess),
    This(This),
    Super(Super),
    Class(ClassExpr),
    MethodCall(MethodCall),
    SuperConstructorCall(SuperConstructorCall),
    NewObject(NewObject),
    ArrayAccess(ArrayAccess),
}

#[derive(Debug, PartialEq, Eq)]
pub struct FieldAccess {
    pub expr: Box<Expr>,
    pub field: Name,
}

/// `this`, qualified by a type only when written `Outer.this`.
#[derive(Debug, PartialEq, Eq)]
pub struct This {
    pub tpe_opt: Option<Type>,
    pub span: Span,
}

/// `super`, qualified by a type only when written `Outer.super`.
#[derive(Debug, PartialEq, Eq)]
pub struct Super {
    pub tpe_opt: Option<Type>,
    pub span: Span,
}

/// A class literal `T.class`; unlike `this`/`super` the type is mandatory.
#[derive(Debug, PartialEq, Eq)]
pub struct ClassExpr {
    pub tpe: Type,
    pub span: Span,
}

#[derive(Debug, PartialEq, Eq)]
pub struct MethodCall {
    pub prefix_opt: Option<Box<Expr>>,
    pub type_args_opt: Option<Vec<Type>>,
    pub name: Span,
    pub args: Vec<Expr>,
}

#[derive(Debug, PartialEq, Eq)]
pub struct SuperConstructorCall {
    pub prefix_opt: Option<Box<Expr>>,
    pub type_args_opt: Option<Vec<Type>>,
    pub name: Span,
    pub args: Vec<Expr>,
}

#[derive(Debug, PartialEq, Eq)]
pub struct NewObject {
    pub prefix_opt: Option<Box<Expr>>,
    pub tpe: ClassType,
    pub constructor_type_args_opt: Option<Vec<Type>>,
    pub args: Vec<Expr>,
    pub body_opt: Option<ClassBody>,
}

#[derive(Debug, PartialEq, Eq)]
pub struct ArrayAccess {
    pub expr: Box<Expr>,
    pub index: Box<Expr>,
}

// ---------------------------------------------------------------------------
// Views
// ---------------------------------------------------------------------------

pub struct SpanView {
    pub line: nat,
    pub col: nat,
    pub fragment: Seq<char>,
}

pub struct NameView {
    pub name: SpanView,
}

pub struct ClassBodyView {}

pub enum TypeView {
    Primitive { name: SpanView },
    Class(ClassTypeView),
    Array { tpe: Box<TypeView>, size_opt: Option<Box<ExprView>> },
}

pub struct ClassTypeView {
    pub prefix_opt: Option<Box<ClassTypeView>>,
    pub name: SpanView,
    pub type_args_opt: Option<Seq<TypeView>>,
}

pub enum ExprView {
    Name(NameView),
    FieldAccess { expr: Box<ExprView>, field: NameView },
    This { tpe_opt: Option<TypeView>, span: SpanView },
    Super { tpe_opt: Option<TypeView>, span: SpanView },
    Class { tpe: TypeView, span: SpanView },
    MethodCall {
        prefix_opt: Option<Box<ExprView>>,
        type_args_opt: Option<Seq<TypeView>>,
        name: SpanView,
        args: Seq<ExprView>,
    },
    SuperConstructorCall {
        prefix_opt: Option<Box<ExprView>>,
        type_args_opt: Option<Seq<TypeView>>,
        name: SpanView,
        args: Seq<ExprView>,
    },
    NewObject {
        prefix_opt: Option<Box<ExprView>>,
        tpe: ClassTypeView,
        constructor_type_args_opt: Option<Seq<TypeView>>,
        args: Seq<ExprView>,
        body_opt: Option<ClassBodyView>,
    },
    ArrayAccess { expr: Box<ExprView>, index: Box<ExprView> },
}

pub open spec fn span_view(s: Span) -> SpanView {
    SpanView { line: s.line as nat, col: s.col as nat, fragment: s.fragment@ }
}

pub open spec fn name_view(n: Name) -> NameView {
    NameView { name: span_view(n.name) }
}

pub open spec fn body_view(b: Option<ClassBody>) -> Option<ClassBodyView> {
    match b {
        Some(_) => Some(ClassBodyView {}),
        None => None,
    }
}

pub open spec fn type_view(t: Type) -> TypeView
    decreases t,
{
    match t {
        Type::Primitive(p) => TypeView::Primitive { name: span_view(p.name) },
        Type::Class(c) => TypeView::Class(class_type_view(c)),
        Type::Array(a) => TypeView::Array {
            tpe: Box::new(type_view(*a.tpe)),
            size_opt: match a.size_opt {
                Some(e) => Some(Box::new(expr_view(*e))),
                None => None,
            },
        },
    }
}

pub open spec fn class_type_view(c: ClassType) -> ClassTypeView
    decreases c,
{
    ClassTypeView {
        prefix_opt: match c.prefix_opt {
            Some(p) => Some(Box::new(class_type_view(*p))),
            None => None,
        },
        name: span_view(c.name),
        type_args_opt: match c.type_args_opt {
            Some(ts) => Some(types_view(ts)),
            None => None,
        },
    }
}

pub open spec fn types_view(v: Vec<Type>) -> Seq<TypeView>
    decreases v,
{
    Seq::new(
        v@.len(),
        |i: int|
            if 0 <= i < v@.len() {
                type_view(v@[i])
            } else {
                TypeView::Primitive { name: SpanView { line: 0, col: 0, fragment: Seq::empty() } }
            },
    )
}

pub open spec fn exprs_view(v: Vec<Expr>) -> Seq<ExprView>
    decreases v,
{
    Seq::new(
        v@.len(),
        |i: int|
            if 0 <= i < v@.len() {
                expr_view(v@[i])
            } else {
                ExprView::Name(NameView { name: SpanView { line: 0, col: 0, fragment: Seq::empty() } })
            },
    )
}

pub open spec fn opt_prefix_view(o: Option<Box<Expr>>) -> Option<Box<ExprView>>
    decreases o,
{
    match o {
        Some(e) => Some(Box::new(expr_view(*e))),
        None => None,
    }
}

pub open spec fn opt_types_view(o: Option<Vec<Type>>) -> Option<Seq<TypeView>>
    decreases o,
{
    match o {
        Some(ts) => Some(types_view(ts)),
        None => None,
    }
}

pub open spec fn expr_view(e: Expr) -> ExprView
    decreases e,
{
    match e {
        Expr::Name(n) => ExprView::Name(name_view(n)),
        Expr::FieldAccess(f) => ExprView::FieldAccess {
            expr: Box::new(expr_view(*f.expr)),
            field: name_view(f.field),
        },
        Expr::This(t) => ExprView::This {
            tpe_opt: match t.tpe_opt {
                Some(tp) => Some(type_view(tp)),
                None => None,
            },
            span: span_view(t.span),
        },
        Expr::Super(s) => ExprView::Super {
            tpe_opt: match s.tpe_opt {
                Some(tp) => Some(type_view(tp)),
                None => None,
            },
            span: span_view(s.span),
        },
        Expr::Class(c) => ExprView::Class { tpe: type_view(c.tpe), span: span_view(c.span) },
        Expr::MethodCall(m) => ExprView::MethodCall {
            prefix_opt: opt_prefix_view(m.prefix_opt),
            type_args_opt: opt_types_view(m.type_args_opt),
            name: span_view(m.name),
            args: exprs_view(m.args),
        },
        Expr::SuperConstructorCall(s) => ExprView::SuperConstructorCall {
            prefix_opt: opt_prefix_view(s.prefix_opt),
            type_args_opt: opt_types_view(s.type_args_opt),
            name: span_view(s.name),
            args: exprs_view(s.args),
        },
        Expr::NewObject(n) => ExprView::NewObject {
            prefix_opt: opt_prefix_view(n.prefix_opt),
            tpe: class_type_view(n.tpe),
            constructor_type_args_opt: opt_types_view(n.constructor_type_args_opt),
            args: exprs_view(n.args),
            body_opt: body_view(n.body_opt),
        },
        Expr::ArrayAccess(a) => ExprView::ArrayAccess {
            expr: Box::new(expr_view(*a.expr)),
            index: Box::new(expr_view(*a.index)),
        },
    }
}

pub open spec fn opt_expr_view(o: Option<Expr>) -> Option<ExprView> {
    match o {
        Some(e) => Some(expr_view(e)),
        None => None,
    }
}

pub open spec fn boxed(o: Option<ExprView>) -> Option<Box<ExprView>> {
    match o {
        Some(e) => Some(Box::new(e)),
        None => None,
    }
}

} // verus!
