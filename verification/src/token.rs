//! Tokens and the identifier classification the parser dispatches on.
//!
//! The token stream is a plain vector; a cursor into it is an index, and a
//! parsing function that fails reports the index at which its caller should
//! resume, so backtracking is explicit and free.

use vstd::prelude::*;

verus! {

/// A source position together with the text it covers.
#[derive(Debug, PartialEq, Eq)]
pub struct Span {
    pub line: usize,
    pub col: usize,
    pub fragment: String,
}

impl Clone for Span {
    fn clone(&self) -> (r: Span)
        ensures
            r == *self,
    {
        Span { line: self.line, col: self.col, fragment: self.fragment.clone() }
    }
}

/// A lexed token: an identifier word (keyword or plain name) or a single
/// punctuation character.
#[derive(Debug, PartialEq, Eq)]
pub enum Token {
    Ident(Span),
    Symbol(char),
}

/// The punctuation token `c` stands at `pos`.
pub open spec fn sym_at(toks: Seq<Token>, pos: int, c: char) -> bool {
    &&& 0 <= pos < toks.len()
    &&& match toks[pos] {
        Token::Symbol(s) => s == c,
        Token::Ident(_) => false,
    }
}

/// An identifier word stands at `pos`.
pub open spec fn ident_at(toks: Seq<Token>, pos: int) -> bool {
    &&& 0 <= pos < toks.len()
    &&& match toks[pos] {
        Token::Ident(_) => true,
        Token::Symbol(_) => false,
    }
}

/// The span of the identifier at `pos`; meaningful only under `ident_at`.
pub open spec fn ident_span(toks: Seq<Token>, pos: int) -> Span {
    match toks[pos] {
        Token::Ident(sp) => sp,
        Token::Symbol(_) => arbitrary(),
    }
}

/// The reserved words of the source language: an identifier with one of
/// these texts is classified as a keyword, every other as a plain name.
pub open spec fn is_keyword(s: Seq<char>) -> bool {
    ||| s == "abstract"@
    ||| s == "assert"@
    ||| s == "boolean"@
    ||| s == "break"@
    ||| s == "byte"@
    ||| s == "case"@
    ||| s == "catch"@
    ||| s == "char"@
    ||| s == "class"@
    ||| s == "const"@
    ||| s == "continue"@
    ||| s == "default"@
    ||| s == "do"@
    ||| s == "double"@
    ||| s == "else"@
    ||| s == "enum"@
    ||| s == "extends"@
    ||| s == "final"@
    ||| s == "finally"@
    ||| s == "float"@
    ||| s == "for"@
    ||| s == "goto"@
    ||| s == "if"@
    ||| s == "implements"@
    ||| s == "import"@
    ||| s == "instanceof"@
    ||| s == "int"@
    ||| s == "interface"@
    ||| s == "long"@
    ||| s == "native"@
    ||| s == "new"@
    ||| s == "package"@
    ||| s == "private"@
    ||| s == "protected"@
    ||| s == "public"@
    ||| s == "return"@
    ||| s == "short"@
    ||| s == "static"@
    ||| s == "strictfp"@
    ||| s == "super"@
    ||| s == "switch"@
    ||| s == "synchronized"@
    ||| s == "this"@
    ||| s == "throw"@
    ||| s == "throws"@
    ||| s == "transient"@
    ||| s == "try"@
    ||| s == "void"@
    ||| s == "volatile"@
    ||| s == "while"@
}

/// The keywords that name a primitive type, which the type-name parser
/// accepts where no expression can start.
pub open spec fn is_primitive_name(s: Seq<char>) -> bool {
    ||| s == "boolean"@
    ||| s == "byte"@
    ||| s == "char"@
    ||| s == "short"@
    ||| s == "int"@
    ||| s == "long"@
    ||| s == "float"@
    ||| s == "double"@
    ||| s == "void"@
}

/// Whether the owned text equals the given word.
pub fn text_is(s: &String, w: &str) -> (b: bool)
    ensures
        b == (s@ == w@),
{
    let o: String = w.to_owned();
    *s == o
}

pub fn is_keyword_str(s: &String) -> (b: bool)
    ensures
        b == is_keyword(s@),
{
    text_is(s, "abstract") || text_is(s, "assert") || text_is(s, "boolean") || text_is(s, "break")
        || text_is(s, "byte") || text_is(s, "case") || text_is(s, "catch") || text_is(s, "char")
        || text_is(s, "class") || text_is(s, "const") || text_is(s, "continue") || text_is(
        s,
        "default",
    ) || text_is(s, "do") || text_is(s, "double") || text_is(s, "else") || text_is(s, "enum")
        || text_is(s, "extends") || text_is(s, "final") || text_is(s, "finally") || text_is(
        s,
        "float",
    ) || text_is(s, "for") || text_is(s, "goto") || text_is(s, "if") || text_is(s, "implements")
        || text_is(s, "import") || text_is(s, "instanceof") || text_is(s, "int") || text_is(
        s,
        "interface",
    ) || text_is(s, "long") || text_is(s, "native") || text_is(s, "new") || text_is(s, "package")
        || text_is(s, "private") || text_is(s, "protected") || text_is(s, "public") || text_is(
        s,
        "return",
    ) || text_is(s, "short") || text_is(s, "static") || text_is(s, "strictfp") || text_is(
        s,
        "super",
    ) || text_is(s, "switch") || text_is(s, "synchronized") || text_is(s, "this") || text_is(
        s,
        "throw",
    ) || text_is(s, "throws") || text_is(s, "transient") || text_is(s, "try") || text_is(s, "void")
        || text_is(s, "volatile") || text_is(s, "while")
}

pub fn is_primitive_name_str(s: &String) -> (b: bool)
    ensures
        b == is_primitive_name(s@),
{
    text_is(s, "boolean") || text_is(s, "byte") || text_is(s, "char") || text_is(s, "short")
        || text_is(s, "int") || text_is(s, "long") || text_is(s, "float") || text_is(s, "double")
        || text_is(s, "void")
}

/// Whether the punctuation token `c` stands at `pos`; the cursor itself is
/// never advanced here, callers step past the symbol explicitly.
pub fn symbol(toks: &Vec<Token>, pos: usize, c: char) -> (b: bool)
    ensures
        b == sym_at(toks@, pos as int, c),
        toks@.len() <= usize::MAX,
{
    if pos < toks.len() {
        match &toks[pos] {
            Token::Symbol(s) => *s == c,
            Token::Ident(_) => false,
        }
    } else {
        false
    }
}

} // verus!
