use javatail::ast::{
    ArrayAccess, ArrayType, ClassExpr, ClassType, Expr, MethodCall, Name, PrimitiveType, Type,
};
use javatail::parser::{parse, parse_tail};
use javatail::token::{Span, Token};

fn span(line: usize, col: usize, s: &str) -> Span {
    Span { line, col, fragment: s.to_string() }
}

fn code(src: &str) -> Vec<Token> {
    let line = src.trim();
    let chars: Vec<char> = line.chars().collect();
    let mut toks: Vec<Token> = Vec::new();
    let mut i: usize = 0;
    while i < chars.len() {
        let c = chars[i];
        if c.is_whitespace() {
            i += 1;
        } else if c.is_alphanumeric() || c == '_' {
            let start: usize = i;
            while i < chars.len() && (chars[i].is_alphanumeric() || chars[i] == '_') {
                i += 1;
            }
            let text: String = chars[start..i].iter().collect();
            toks.push(Token::Ident(span(1, start + 1, &text)));
        } else {
            toks.push(Token::Symbol(c));
            i += 1;
        }
    }
    toks
}

#[test]
fn test_tail_without_postfix_is_identity() {
    // No bracket and no dot after the expression: the tail loop hands the
    // expression and the cursor back unchanged.
    let toks = code("x)");
    let left = Expr::Name(Name { name: span(1, 1, "x") });
    let expected = Expr::Name(Name { name: span(1, 1, "x") });
    assert_eq!(parse_tail(left, &toks, 1), Ok((1, expected)));
}

#[test]
fn test_tail_at_end_of_input_is_identity() {
    let toks: Vec<Token> = Vec::new();
    let left = Expr::Name(Name { name: span(1, 1, "x") });
    let expected = Expr::Name(Name { name: span(1, 1, "x") });
    assert_eq!(parse_tail(left, &toks, 0), Ok((0, expected)));
}

#[test]
fn test_explicit_type_args_invocation() {
    // `<` directly after the dot is an explicit-type-argument invocation,
    // never a field access.
    let toks = code("x.<T>foo()");
    assert_eq!(
        parse(&toks, 0),
        Ok((
            toks.len(),
            Expr::MethodCall(MethodCall {
                prefix_opt: Some(Box::new(Expr::Name(Name { name: span(1, 1, "x") }))),
                type_args_opt: Some(vec![Type::Class(ClassType {
                    prefix_opt: None,
                    name: span(1, 4, "T"),
                    type_args_opt: None
                })]),
                name: span(1, 6, "foo"),
                args: vec![]
            })
        ))
    );
}

#[test]
fn test_reserved_after_call_result_fails() {
    // `.class` after a method-call result: the prefix is not a dotted-name
    // chain, so conversion fails and the parse fails with it.
    let toks = code("a.b().class");
    assert_eq!(parse(&toks, 0), Err(7));
}

#[test]
fn test_bracket_pair_after_non_chain_fails() {
    // A `[` `]` pair after `this`, which no conversion can reinterpret.
    let toks = code("this[].class");
    assert_eq!(parse(&toks, 0), Err(1));
}

#[test]
fn test_dot_with_unusable_keyword_fails() {
    // A keyword after the dot that is none of this/super/class/new and has
    // no argument list.
    let toks = code("a.static");
    assert_eq!(parse(&toks, 0), Err(3));
}

#[test]
fn test_no_expression_and_no_type_fails() {
    let toks = code("]");
    assert_eq!(parse(&toks, 0), Err(0));
}

#[test]
fn test_bare_type_name_fails() {
    // A type name alone is not an expression: the reserved qualifier after
    // it is mandatory.
    let toks = code("char");
    assert_eq!(parse(&toks, 0), Err(1));
}

#[test]
fn test_method_call_arguments() {
    let toks = code("x.f(a,b)");
    assert_eq!(
        parse(&toks, 0),
        Ok((
            toks.len(),
            Expr::MethodCall(MethodCall {
                prefix_opt: Some(Box::new(Expr::Name(Name { name: span(1, 1, "x") }))),
                type_args_opt: None,
                name: span(1, 3, "f"),
                args: vec![
                    Expr::Name(Name { name: span(1, 5, "a") }),
                    Expr::Name(Name { name: span(1, 7, "b") }),
                ]
            })
        ))
    );
}

#[test]
fn test_index_access() {
    let toks = code("a[b]");
    assert_eq!(
        parse(&toks, 0),
        Ok((
            toks.len(),
            Expr::ArrayAccess(ArrayAccess {
                expr: Box::new(Expr::Name(Name { name: span(1, 1, "a") })),
                index: Box::new(Expr::Name(Name { name: span(1, 3, "b") })),
            })
        ))
    );
}

#[test]
fn test_multi_dimensional_array_class() {
    let toks = code("byte[][].class");
    assert_eq!(
        parse(&toks, 0),
        Ok((
            toks.len(),
            Expr::Class(ClassExpr {
                tpe: Type::Array(ArrayType {
                    tpe: Box::new(Type::Array(ArrayType {
                        tpe: Box::new(Type::Primitive(PrimitiveType {
                            name: span(1, 1, "byte")
                        })),
                        size_opt: None
                    })),
                    size_opt: None
                }),
                span: span(1, 10, "class")
            })
        ))
    );
}

#[test]
fn test_chained_qualifier_calls() {
    // A chain through a qualifier, a superconstructor call, and a method
    // call, resolved by repeated re-entry into the tail loop.
    let toks = code("test.super().field");
    assert_eq!(
        parse(&toks, 0),
        Ok((
            toks.len(),
            Expr::FieldAccess(javatail::ast::FieldAccess {
                expr: Box::new(Expr::SuperConstructorCall(
                    javatail::ast::SuperConstructorCall {
                        prefix_opt: Some(Box::new(Expr::Name(Name {
                            name: span(1, 1, "test")
                        }))),
                        type_args_opt: None,
                        name: span(1, 6, "super"),
                        args: vec![]
                    }
                )),
                field: Name { name: span(1, 14, "field") }
            })
        ))
    );
}

#[test]
fn test_reserved_tail_builds_class_literal() {
    let toks: Vec<Token> = Vec::new();
    let tpe = Type::Primitive(PrimitiveType { name: span(1, 1, "char") });
    let kw = javatail::ast::Keyword { name: span(1, 6, "class") };
    assert_eq!(
        javatail::parser::parse_reserved_field_access_tail(tpe, kw, &toks, 0),
        Ok((
            0,
            Expr::Class(ClassExpr {
                tpe: Type::Primitive(PrimitiveType { name: span(1, 1, "char") }),
                span: span(1, 6, "class")
            })
        ))
    );
}

#[test]
fn test_reserved_tail_refuses_other_keyword() {
    let toks: Vec<Token> = Vec::new();
    let tpe = Type::Primitive(PrimitiveType { name: span(1, 1, "char") });
    let kw = javatail::ast::Keyword { name: span(1, 6, "while") };
    assert_eq!(javatail::parser::parse_reserved_field_access_tail(tpe, kw, &toks, 0), Err(0));
}

#[test]
fn test_array_type_tail_matches_bracket_pair() {
    let toks = code("[]a");
    assert_eq!(javatail::parser::array_type_tail(&toks, 0), Ok((2, ())));
    assert_eq!(javatail::parser::array_type_tail(&toks, 2), Err(2));
}
