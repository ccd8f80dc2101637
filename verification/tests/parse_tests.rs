use javatail::ast::{
    ArrayType, ClassExpr, ClassType, Expr, FieldAccess, MethodCall, Name, NewObject, PrimitiveType,
    Super, SuperConstructorCall, This, Type,
};
use javatail::parser::parse;
use javatail::token::{Span, Token};

fn span(line: usize, col: usize, s: &str) -> Span {
    Span { line, col, fragment: s.to_string() }
}

fn code(src: &str) -> Vec<Token> {
    let line = src.trim();
    let chars: Vec<char> = line.chars().collect();
    let mut toks: Vec<Token> = Vec::new();
    let mut i: usize = 0;
    while i < chars.len() {
        let c = chars[i];
        if c.is_whitespace() {
            i += 1;
        } else if c.is_alphanumeric() || c == '_' {
            let start: usize = i;
            while i < chars.len() && (chars[i].is_alphanumeric() || chars[i] == '_') {
                i += 1;
            }
            let text: String = chars[start..i].iter().collect();
            toks.push(Token::Ident(span(1, start + 1, &text)));
        } else {
            toks.push(Token::Symbol(c));
            i += 1;
        }
    }
    toks
}

#[test]
fn test_dot_new_member() {
    let toks = code(
        r#"
a.new Test()
            "#,
    );
    assert_eq!(
        parse(&toks, 0),
        Ok((
            toks.len(),
            Expr::NewObject(NewObject {
                prefix_opt: Some(Box::new(Expr::Name(Name { name: span(1, 1, "a") }))),
                tpe: ClassType {
                    prefix_opt: None,
                    name: span(1, 7, "Test"),
                    type_args_opt: None
                },
                constructor_type_args_opt: None,
                args: vec![],
                body_opt: None
            })
        ))
    );
}

#[test]
fn test_name_super_constructor_call() {
    let toks = code(
        r#"
test.super()
            "#,
    );
    assert_eq!(
        parse(&toks, 0),
        Ok((
            toks.len(),
            Expr::SuperConstructorCall(SuperConstructorCall {
                prefix_opt: Some(Box::new(Expr::Name(Name { name: span(1, 1, "test") }))),
                type_args_opt: None,
                name: span(1, 6, "super"),
                args: vec![]
            })
        ))
    );
}

#[test]
fn test_super_constructor_call() {
    let toks = code(
        r#"
Parent.Test.this.super()
            "#,
    );
    assert_eq!(
        parse(&toks, 0),
        Ok((
            toks.len(),
            Expr::SuperConstructorCall(SuperConstructorCall {
                prefix_opt: Some(Box::new(Expr::This(This {
                    tpe_opt: Some(Type::Class(ClassType {
                        prefix_opt: Some(Box::new(ClassType {
                            prefix_opt: None,
                            name: span(1, 1, "Parent"),
                            type_args_opt: None
                        })),
                        name: span(1, 8, "Test"),
                        type_args_opt: None
                    })),
                    span: span(1, 13, "this")
                }))),
                type_args_opt: None,
                name: span(1, 18, "super"),
                args: vec![]
            })
        ))
    );
}

#[test]
fn test_super_with_parent() {
    let toks = code(
        r#"
Parent.Test.super.hashCode()
            "#,
    );
    assert_eq!(
        parse(&toks, 0),
        Ok((
            toks.len(),
            Expr::MethodCall(MethodCall {
                prefix_opt: Some(Box::new(Expr::Super(Super {
                    tpe_opt: Some(Type::Class(ClassType {
                        prefix_opt: Some(Box::new(ClassType {
                            prefix_opt: None,
                            name: span(1, 1, "Parent"),
                            type_args_opt: None
                        })),
                        name: span(1, 8, "Test"),
                        type_args_opt: None
                    })),
                    span: span(1, 13, "super")
                }))),
                name: span(1, 19, "hashCode"),
                type_args_opt: None,
                args: vec![]
            })
        ))
    );
}

#[test]
fn test_this_with_parent() {
    let toks = code(
        r#"
Parent.Test.this.hashCode()
            "#,
    );
    assert_eq!(
        parse(&toks, 0),
        Ok((
            toks.len(),
            Expr::MethodCall(MethodCall {
                prefix_opt: Some(Box::new(Expr::This(This {
                    tpe_opt: Some(Type::Class(ClassType {
                        prefix_opt: Some(Box::new(ClassType {
                            prefix_opt: None,
                            name: span(1, 1, "Parent"),
                            type_args_opt: None
                        })),
                        name: span(1, 8, "Test"),
                        type_args_opt: None
                    })),
                    span: span(1, 13, "this")
                }))),
                name: span(1, 18, "hashCode"),
                type_args_opt: None,
                args: vec![]
            })
        ))
    );
}

#[test]
fn test_class_with_parent() {
    let toks = code(
        r#"
Parent.Test.class.hashCode()
            "#,
    );
    assert_eq!(
        parse(&toks, 0),
        Ok((
            toks.len(),
            Expr::MethodCall(MethodCall {
                prefix_opt: Some(Box::new(Expr::Class(ClassExpr {
                    tpe: Type::Class(ClassType {
                        prefix_opt: Some(Box::new(ClassType {
                            prefix_opt: None,
                            name: span(1, 1, "Parent"),
                            type_args_opt: None
                        })),
                        name: span(1, 8, "Test"),
                        type_args_opt: None
                    }),
                    span: span(1, 13, "class")
                }))),
                name: span(1, 19, "hashCode"),
                type_args_opt: None,
                args: vec![]
            })
        ))
    );
}

#[test]
fn test_class() {
    let toks = code(
        r#"
Test.class.hashCode()
            "#,
    );
    assert_eq!(
        parse(&toks, 0),
        Ok((
            toks.len(),
            Expr::MethodCall(MethodCall {
                prefix_opt: Some(Box::new(Expr::Class(ClassExpr {
                    tpe: Type::Class(ClassType {
                        prefix_opt: None,
                        name: span(1, 1, "Test"),
                        type_args_opt: None
                    }),
                    span: span(1, 6, "class")
                }))),
                name: span(1, 12, "hashCode"),
                type_args_opt: None,
                args: vec![]
            })
        ))
    );
}

#[test]
fn test_primitive_class() {
    let toks = code(
        r#"
char.class.hashCode()
            "#,
    );
    assert_eq!(
        parse(&toks, 0),
        Ok((
            toks.len(),
            Expr::MethodCall(MethodCall {
                prefix_opt: Some(Box::new(Expr::Class(ClassExpr {
                    tpe: Type::Primitive(PrimitiveType { name: span(1, 1, "char") }),
                    span: span(1, 6, "class")
                }))),
                type_args_opt: None,
                name: span(1, 12, "hashCode"),
                args: vec![]
            })
        ))
    );
}

#[test]
fn test_primitive_array_class() {
    let toks = code(
        r#"
byte[].class.hashCode()
            "#,
    );
    assert_eq!(
        parse(&toks, 0),
        Ok((
            toks.len(),
            Expr::MethodCall(MethodCall {
                prefix_opt: Some(Box::new(Expr::Class(ClassExpr {
                    tpe: Type::Array(ArrayType {
                        tpe: Box::new(Type::Primitive(PrimitiveType {
                            name: span(1, 1, "byte")
                        })),
                        size_opt: None
                    }),
                    span: span(1, 8, "class")
                }))),
                type_args_opt: None,
                name: span(1, 14, "hashCode"),
                args: vec![]
            })
        ))
    );
}

#[test]
fn test_array_class_with_parent() {
    let toks = code(
        r#"
Parent.Test[].class.hashCode()
            "#,
    );
    assert_eq!(
        parse(&toks, 0),
        Ok((
            toks.len(),
            Expr::MethodCall(MethodCall {
                prefix_opt: Some(Box::new(Expr::Class(ClassExpr {
                    tpe: Type::Array(ArrayType {
                        tpe: Box::new(Type::Class(ClassType {
                            prefix_opt: Some(Box::new(ClassType {
                                prefix_opt: None,
                                name: span(1, 1, "Parent"),
                                type_args_opt: None
                            })),
                            name: span(1, 8, "Test"),
                            type_args_opt: None
                        })),
                        size_opt: None
                    }),
                    span: span(1, 15, "class")
                }))),
                type_args_opt: None,
                name: span(1, 21, "hashCode"),
                args: vec![]
            })
        ))
    );
}

#[test]
fn test_array_class() {
    let toks = code(
        r#"
Test[].class
            "#,
    );
    assert_eq!(
        parse(&toks, 0),
        Ok((
            toks.len(),
            Expr::Class(ClassExpr {
                tpe: Type::Array(ArrayType {
                    tpe: Box::new(Type::Class(ClassType {
                        prefix_opt: None,
                        name: span(1, 1, "Test"),
                        type_args_opt: None
                    })),
                    size_opt: None
                }),
                span: span(1, 8, "class")
            })
        ))
    );
}

#[test]
fn test_this_field_access() {
    let toks = code(
        r#"
this.field
            "#,
    );
    assert_eq!(
        parse(&toks, 0),
        Ok((
            toks.len(),
            Expr::FieldAccess(FieldAccess {
                expr: Box::new(Expr::This(This { tpe_opt: None, span: span(1, 1, "this") })),
                field: Name { name: span(1, 6, "field") }
            })
        ))
    );
}

#[test]
fn test_super_field_access() {
    let toks = code(
        r#"
super.field
            "#,
    );
    assert_eq!(
        parse(&toks, 0),
        Ok((
            toks.len(),
            Expr::FieldAccess(FieldAccess {
                expr: Box::new(Expr::Super(Super { tpe_opt: None, span: span(1, 1, "super") })),
                field: Name { name: span(1, 7, "field") }
            })
        ))
    );
}
