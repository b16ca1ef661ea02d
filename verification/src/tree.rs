//! The expression tree the parser builds: a small closed set of node
//! shapes, each exclusively owning its children, together with the
//! structural pretty-printer.

use vstd::prelude::*;
use vstd::string::StringExecFns;
use crate::token::{TokenType, Tok, tok_text};

verus! {

/// An expression: a terminal literal token, a prefix operator applied to
/// an operand, an infix operator with two operands, or a parenthesized
/// sub-expression.
#[derive(Debug, PartialEq)]
pub enum Expr {
    Unary { op: TokenType, expr: Box<Expr> },
    Literal(TokenType),
    Binary { left: Box<Expr>, right: Box<Expr>, op: TokenType },
    Grouping { expr: Box<Expr> },
}

/// The mathematical value of an expression tree.
pub enum ExprV {
    Unary { op: Tok, expr: Box<ExprV> },
    Literal(Tok),
    Binary { left: Box<ExprV>, right: Box<ExprV>, op: Tok },
    Grouping { expr: Box<ExprV> },
}

/// The mathematical value of an expression tree, node by node.
pub open spec fn expr_view(e: Expr) -> ExprV
    decreases e,
{
    match e {
        Expr::Literal(t) => ExprV::Literal(t@),
        Expr::Unary { op, expr } => ExprV::Unary { op: op@, expr: Box::new(expr_view(*expr)) },
        Expr::Binary { left, right, op } => ExprV::Binary {
            left: Box::new(expr_view(*left)),
            right: Box::new(expr_view(*right)),
            op: op@,
        },
        Expr::Grouping { expr } => ExprV::Grouping { expr: Box::new(expr_view(*expr)) },
    }
}

impl View for Expr {
    type V = ExprV;

    open spec fn view(&self) -> ExprV {
        expr_view(*self)
    }
}

/// The fully parenthesized text of a tree: operands before their
/// operator inside parentheses, and grouping nodes wrapped in braces.
pub open spec fn sp_print(e: ExprV) -> Seq<char>
    decreases e,
{
    match e {
        ExprV::Literal(t) => tok_text(t),
        ExprV::Unary { op, expr } => "("@ + sp_print(*expr) + " "@ + tok_text(op) + ")"@,
        ExprV::Binary { left, right, op } => "("@ + sp_print(*left) + " "@ + sp_print(*right)
            + " "@ + tok_text(op) + ")"@,
        ExprV::Grouping { expr } => "{"@ + sp_print(*expr) + "}"@,
    }
}

impl Expr {
    /// Renders the tree as fully parenthesized text: unary and binary
    /// nodes as `(<operands> <operator>)`, grouping nodes with brace
    /// delimiters, literals as their own text.
    pub fn print(&self) -> (r: String)
        ensures
            r@ == sp_print(self@),
        decreases self,
    {
        match self {
            Expr::Literal(t) => t.text(),
            Expr::Unary { op, expr } => {
                let mut out = String::from_str("(");
                out.append(expr.print().as_str());
                out.append(" ");
                out.append(op.text().as_str());
                out.append(")");
                out
            },
            Expr::Binary { left, right, op } => {
                let mut out = String::from_str("(");
                out.append(left.print().as_str());
                out.append(" ");
                out.append(right.print().as_str());
                out.append(" ");
                out.append(op.text().as_str());
                out.append(")");
                out
            },
            Expr::Grouping { expr } => {
                let mut out = String::from_str("{");
                out.append(expr.print().as_str());
                out.append("}");
                out
            },
        }
    }
}

} // verus!
