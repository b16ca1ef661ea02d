//! The token model: the closed set of lexical categories that the scanner
//! produces and the parser consumes, together with the keyword table and
//! the text each token prints as.

use vstd::prelude::*;
use vstd::string::StringExecFns;

verus! {

/// A classified lexical unit. Literal-bearing tokens carry their payload:
/// an identifier its spelled name, a string literal its unescaped contents,
/// and a number literal its digit text (digits with at most one decimal
/// point), exactly as it stood in the source.
#[derive(Debug, PartialEq)]
pub enum TokenType {
    // single character
    LeftParan,
    RightParan,
    LeftBrace,
    RightBrace,
    Comma,
    Dot,
    Semicolon,
    Minus,
    Plus,
    Slash,
    Star,
    // one or two characters
    Gt,
    GtEq,
    Lt,
    LtEq,
    Eq,
    EqEq,
    Bang,
    BangEq,
    // identifier / literal
    Identifier(String),
    TkString(String),
    Number(String),
    // keyword
    If,
    Else,
    For,
    While,
    Fun,
    Return,
    Class,
    Var,
    This,
    Super,
    True,
    False,
    And,
    Or,
    Nil,
    // end-of-input marker
    EOF,
}

/// The mathematical value of a token: the same categories, with each
/// payload abstracted to its character sequence.
pub enum Tok {
    LeftParan,
    RightParan,
    LeftBrace,
    RightBrace,
    Comma,
    Dot,
    Semicolon,
    Minus,
    Plus,
    Slash,
    Star,
    Gt,
    GtEq,
    Lt,
    LtEq,
    Eq,
    EqEq,
    Bang,
    BangEq,
    Identifier(Seq<char>),
    TkString(Seq<char>),
    Number(Seq<char>),
    If,
    Else,
    For,
    While,
    Fun,
    Return,
    Class,
    Var,
    This,
    Super,
    True,
    False,
    And,
    Or,
    Nil,
    EOF,
}

impl View for TokenType {
    type V = Tok;

    open spec fn view(&self) -> Tok {
        match self {
            TokenType::LeftParan => Tok::LeftParan,
            TokenType::RightParan => Tok::RightParan,
            TokenType::LeftBrace => Tok::LeftBrace,
            TokenType::RightBrace => Tok::RightBrace,
            TokenType::Comma => Tok::Comma,
            TokenType::Dot => Tok::Dot,
            TokenType::Semicolon => Tok::Semicolon,
            TokenType::Minus => Tok::Minus,
            TokenType::Plus => Tok::Plus,
            TokenType::Slash => Tok::Slash,
            TokenType::Star => Tok::Star,
            TokenType::Gt => Tok::Gt,
            TokenType::GtEq => Tok::GtEq,
            TokenType::Lt => Tok::Lt,
            TokenType::LtEq => Tok::LtEq,
            TokenType::Eq => Tok::Eq,
            TokenType::EqEq => Tok::EqEq,
            TokenType::Bang => Tok::Bang,
            TokenType::BangEq => Tok::BangEq,
            TokenType::Identifier(s) => Tok::Identifier(s@),
            TokenType::TkString(s) => Tok::TkString(s@),
            TokenType::Number(s) => Tok::Number(s@),
            TokenType::If => Tok::If,
            TokenType::Else => Tok::Else,
            TokenType::For => Tok::For,
            TokenType::While => Tok::While,
            TokenType::Fun => Tok::Fun,
            TokenType::Return => Tok::Return,
            TokenType::Class => Tok::Class,
            TokenType::Var => Tok::Var,
            TokenType::This => Tok::This,
            TokenType::Super => Tok::Super,
            TokenType::True => Tok::True,
            TokenType::False => Tok::False,
            TokenType::And => Tok::And,
            TokenType::Or => Tok::Or,
            TokenType::Nil => Tok::Nil,
            TokenType::EOF => Tok::EOF,
        }
    }
}

/// The view of an optional token.
pub open spec fn opt_tok_view(o: Option<TokenType>) -> Option<Tok> {
    match o {
        Option::Some(t) => Option::Some(t@),
        Option::None => Option::None,
    }
}

/// Whether `c` is a decimal digit.
pub open spec fn is_digit(c: char) -> bool {
    48 <= c as u32 && c as u32 <= 57
}

/// Decides whether `c` is a decimal digit.
pub fn digit(c: char) -> (b: bool)
    ensures
        b == is_digit(c),
{
    let u = c as u32;
    48 <= u && u <= 57
}

impl TokenType {
    /// An exact copy of this token, payload included.
    pub fn dup(&self) -> (r: TokenType)
        ensures
            r@ == self@,
    {
        match self {
            TokenType::LeftParan => TokenType::LeftParan,
            TokenType::RightParan => TokenType::RightParan,
            TokenType::LeftBrace => TokenType::LeftBrace,
            TokenType::RightBrace => TokenType::RightBrace,
            TokenType::Comma => TokenType::Comma,
            TokenType::Dot => TokenType::Dot,
            TokenType::Semicolon => TokenType::Semicolon,
            TokenType::Minus => TokenType::Minus,
            TokenType::Plus => TokenType::Plus,
            TokenType::Slash => TokenType::Slash,
            TokenType::Star => TokenType::Star,
            TokenType::Gt => TokenType::Gt,
            TokenType::GtEq => TokenType::GtEq,
            TokenType::Lt => TokenType::Lt,
            TokenType::LtEq => TokenType::LtEq,
            TokenType::Eq => TokenType::Eq,
            TokenType::EqEq => TokenType::EqEq,
            TokenType::Bang => TokenType::Bang,
            TokenType::BangEq => TokenType::BangEq,
            TokenType::Identifier(s) => TokenType::Identifier(s.clone()),
            TokenType::TkString(s) => TokenType::TkString(s.clone()),
            TokenType::Number(s) => TokenType::Number(s.clone()),
            TokenType::If => TokenType::If,
            TokenType::Else => TokenType::Else,
            TokenType::For => TokenType::For,
            TokenType::While => TokenType::While,
            TokenType::Fun => TokenType::Fun,
            TokenType::Return => TokenType::Return,
            TokenType::Class => TokenType::Class,
            TokenType::Var => TokenType::Var,
            TokenType::This => TokenType::This,
            TokenType::Super => TokenType::Super,
            TokenType::True => TokenType::True,
            TokenType::False => TokenType::False,
            TokenType::And => TokenType::And,
            TokenType::Or => TokenType::Or,
            TokenType::Nil => TokenType::Nil,
            TokenType::EOF => TokenType::EOF,
        }
    }
}

/// The token a reserved word resolves to, or `None` for a plain identifier.
pub open spec fn spec_keyword(n: Seq<char>) -> Option<Tok> {
    if n == "var"@ {
        Option::Some(Tok::Var)
    } else if n == "if"@ {
        Option::Some(Tok::If)
    } else if n == "else"@ {
        Option::Some(Tok::Else)
    } else if n == "for"@ {
        Option::Some(Tok::For)
    } else if n == "while"@ {
        Option::Some(Tok::While)
    } else if n == "fun"@ {
        Option::Some(Tok::Fun)
    } else if n == "return"@ {
        Option::Some(Tok::Return)
    } else if n == "class"@ {
        Option::Some(Tok::Class)
    } else if n == "this"@ {
        Option::Some(Tok::This)
    } else if n == "super"@ {
        Option::Some(Tok::Super)
    } else if n == "true"@ {
        Option::Some(Tok::True)
    } else if n == "false"@ {
        Option::Some(Tok::False)
    } else if n == "and"@ {
        Option::Some(Tok::And)
    } else if n == "or"@ {
        Option::Some(Tok::Or)
    } else if n == "nil"@ {
        Option::Some(Tok::Nil)
    } else {
        Option::None
    }
}

/// Looks a spelled name up in the keyword table.
pub fn keyword_of(name: &String) -> (r: Option<TokenType>)
    ensures
        opt_tok_view(r) == spec_keyword(name@),
{
    if *name == String::from_str("var") {
        Option::Some(TokenType::Var)
    } else if *name == String::from_str("if") {
        Option::Some(TokenType::If)
    } else if *name == String::from_str("else") {
        Option::Some(TokenType::Else)
    } else if *name == String::from_str("for") {
        Option::Some(TokenType::For)
    } else if *name == String::from_str("while") {
        Option::Some(TokenType::While)
    } else if *name == String::from_str("fun") {
        Option::Some(TokenType::Fun)
    } else if *name == String::from_str("return") {
        Option::Some(TokenType::Return)
    } else if *name == String::from_str("class") {
        Option::Some(TokenType::Class)
    } else if *name == String::from_str("this") {
        Option::Some(TokenType::This)
    } else if *name == String::from_str("super") {
        Option::Some(TokenType::Super)
    } else if *name == String::from_str("true") {
        Option::Some(TokenType::True)
    } else if *name == String::from_str("false") {
        Option::Some(TokenType::False)
    } else if *name == String::from_str("and") {
        Option::Some(TokenType::And)
    } else if *name == String::from_str("or") {
        Option::Some(TokenType::Or)
    } else if *name == String::from_str("nil") {
        Option::Some(TokenType::Nil)
    } else {
        Option::None
    }
}


/// The text a token prints as: its punctuation or operator characters,
/// its keyword spelling, or its payload for a literal-bearing token. The
/// end-of-input marker prints as nothing.
pub open spec fn tok_text(t: Tok) -> Seq<char> {
    match t {
        Tok::LeftParan => "("@,
        Tok::RightParan => ")"@,
        Tok::LeftBrace => "{"@,
        Tok::RightBrace => "}"@,
        Tok::Comma => ","@,
        Tok::Dot => "."@,
        Tok::Semicolon => ";"@,
        Tok::Minus => "-"@,
        Tok::Plus => "+"@,
        Tok::Slash => "/"@,
        Tok::Star => "*"@,
        Tok::Gt => ">"@,
        Tok::GtEq => ">="@,
        Tok::Lt => "<"@,
        Tok::LtEq => "<="@,
        Tok::Eq => "="@,
        Tok::EqEq => "=="@,
        Tok::Bang => "!"@,
        Tok::BangEq => "!="@,
        Tok::Identifier(s) => s,
        Tok::TkString(s) => s,
        Tok::Number(s) => s,
        Tok::If => "if"@,
        Tok::Else => "else"@,
        Tok::For => "for"@,
        Tok::While => "while"@,
        Tok::Fun => "fun"@,
        Tok::Return => "return"@,
        Tok::Class => "class"@,
        Tok::Var => "var"@,
        Tok::This => "this"@,
        Tok::Super => "super"@,
        Tok::True => "true"@,
        Tok::False => "false"@,
        Tok::And => "and"@,
        Tok::Or => "or"@,
        Tok::Nil => "nil"@,
        Tok::EOF => Seq::empty(),
    }
}

impl TokenType {
    /// The text this token prints as.
    pub fn text(&self) -> (r: String)
        ensures
            r@ == tok_text(self@),
    {
        match self {
            TokenType::LeftParan => String::from_str("("),
            TokenType::RightParan => String::from_str(")"),
            TokenType::LeftBrace => String::from_str("{"),
            TokenType::RightBrace => String::from_str("}"),
            TokenType::Comma => String::from_str(","),
            TokenType::Dot => String::from_str("."),
            TokenType::Semicolon => String::from_str(";"),
            TokenType::Minus => String::from_str("-"),
            TokenType::Plus => String::from_str("+"),
            TokenType::Slash => String::from_str("/"),
            TokenType::Star => String::from_str("*"),
            TokenType::Gt => String::from_str(">"),
            TokenType::GtEq => String::from_str(">="),
            TokenType::Lt => String::from_str("<"),
            TokenType::LtEq => String::from_str("<="),
            TokenType::Eq => String::from_str("="),
            TokenType::EqEq => String::from_str("=="),
            TokenType::Bang => String::from_str("!"),
            TokenType::BangEq => String::from_str("!="),
            TokenType::Identifier(s) => s.clone(),
            TokenType::TkString(s) => s.clone(),
            TokenType::Number(s) => s.clone(),
            TokenType::If => String::from_str("if"),
            TokenType::Else => String::from_str("else"),
            TokenType::For => String::from_str("for"),
            TokenType::While => String::from_str("while"),
            TokenType::Fun => String::from_str("fun"),
            TokenType::Return => String::from_str("return"),
            TokenType::Class => String::from_str("class"),
            TokenType::Var => String::from_str("var"),
            TokenType::This => String::from_str("this"),
            TokenType::Super => String::from_str("super"),
            TokenType::True => String::from_str("true"),
            TokenType::False => String::from_str("false"),
            TokenType::And => String::from_str("and"),
            TokenType::Or => String::from_str("or"),
            TokenType::Nil => String::from_str("nil"),
            TokenType::EOF => String::new(),
        }
    }
}

} // verus!
