//! The recursive-descent expression parser: a single forward cursor over
//! a finished token sequence, one procedure per precedence tier, building
//! the tree bottom-up.
//!
//! The grammar, lowest precedence first and left-associative throughout
//! (unary is right-associative by construction):
//!
//! ```text
//! equality   := comparison ( ("!=" | "==") comparison )*
//! comparison := term ( (">" | ">=" | "<" | "<=") term )*
//! term       := factor ( ("-" | "+") factor )*
//! factor     := unary ( ("*" | "/") unary )*
//! unary      := ("!" | "-") unary | primary
//! primary    := NUMBER | STRING | "true" | "false" | "nil" | "(" expression ")"
//! ```
//!
//! Each tier is specified by a spec function over the token sequence
//! ([`sp_equality`] and downward), and every parsing method is proved to
//! return exactly what its spec function describes: the same tree, the
//! same cursor motion, and the same error at the same token.

use vstd::prelude::*;
use crate::token::{TokenType, Tok};
use crate::tree::{Expr, ExprV};
use crate::scanner::toks_view;

verus! {

/// The ways a parse can fail: no alternative of `primary` matched, or a
/// grouped sub-expression was not closed.
#[derive(Debug, Clone, Copy, PartialEq, Eq, Structural)]
pub enum SyntaxErrorKind {
    /// The token at the failure point can begin no expression.
    ExpectedExpression,
    /// A parenthesized sub-expression ended without its `)`.
    ExpectedRightParen,
}

/// A syntax error: the offending token, its position in the token
/// sequence, and the construct that was expected instead.
#[derive(Debug)]
pub struct SyntaxError {
    pub at: usize,
    pub token: TokenType,
    pub kind: SyntaxErrorKind,
}

/// What a parse of one grammar tier yields: a tree and the cursor
/// position after it, or the position and kind of the first failure.
pub enum SpParse {
    Parsed { e: ExprV, next: nat },
    Failed { at: nat, kind: SyntaxErrorKind },
}

/// Whether `t` is an operator of the given binary precedence tier
/// (2 factor, 3 term, 4 comparison, 5 equality).
pub open spec fn tier_ops(lvl: int, t: Tok) -> bool {
    if lvl == 2 {
        t is Star || t is Slash
    } else if lvl == 3 {
        t is Minus || t is Plus
    } else if lvl == 4 {
        t is Gt || t is GtEq || t is Lt || t is LtEq
    } else if lvl == 5 {
        t is BangEq || t is EqEq
    } else {
        false
    }
}

/// Whether `t` may stand alone as a `primary` expression.
pub open spec fn is_literal_tok(t: Tok) -> bool {
    t is Number || t is TkString || t is True || t is False || t is Nil
}

/// Tokens left from position `i` on; the measure the descent decreases.
pub open spec fn srem(toks: Seq<Tok>, i: nat) -> nat {
    if i <= toks.len() {
        (toks.len() - i) as nat
    } else {
        0
    }
}

/// `primary`: a literal token, or a parenthesized expression that must be
/// closed by `)`.
pub open spec fn sp_primary(toks: Seq<Tok>, i: nat) -> SpParse
    decreases srem(toks, i), 0int,
{
    if i >= toks.len() {
        SpParse::Failed { at: i, kind: SyntaxErrorKind::ExpectedExpression }
    } else {
        let t = toks[i as int];
        if is_literal_tok(t) {
            SpParse::Parsed { e: ExprV::Literal(t), next: (i + 1) as nat }
        } else if t is LeftParan {
            match sp_equality(toks, (i + 1) as nat) {
                SpParse::Failed { at, kind } => SpParse::Failed { at, kind },
                SpParse::Parsed { e, next } => {
                    if next < toks.len() && toks[next as int] is RightParan {
                        SpParse::Parsed {
                            e: ExprV::Grouping { expr: Box::new(e) },
                            next: (next + 1) as nat,
                        }
                    } else {
                        SpParse::Failed { at: next, kind: SyntaxErrorKind::ExpectedRightParen }
                    }
                },
            }
        } else {
            SpParse::Failed { at: i, kind: SyntaxErrorKind::ExpectedExpression }
        }
    }
}

/// `unary`: a chain of prefix `!` or `-` applied to a `primary`.
pub open spec fn sp_unary(toks: Seq<Tok>, i: nat) -> SpParse
    decreases srem(toks, i), 1int,
{
    if i >= toks.len() {
        SpParse::Failed { at: i, kind: SyntaxErrorKind::ExpectedExpression }
    } else if toks[i as int] is Bang || toks[i as int] is Minus {
        match sp_unary(toks, (i + 1) as nat) {
            SpParse::Failed { at, kind } => SpParse::Failed { at, kind },
            SpParse::Parsed { e, next } => SpParse::Parsed {
                e: ExprV::Unary { op: toks[i as int], expr: Box::new(e) },
                next,
            },
        }
    } else {
        sp_primary(toks, i)
    }
}

/// `factor`: a `unary`, then a left-fold of `*` and `/` operators.
pub open spec fn sp_factor(toks: Seq<Tok>, i: nat) -> SpParse
    decreases srem(toks, i), 2int,
{
    if i >= toks.len() {
        SpParse::Failed { at: i, kind: SyntaxErrorKind::ExpectedExpression }
    } else {
        match sp_unary(toks, i) {
            SpParse::Failed { at, kind } => SpParse::Failed { at, kind },
            SpParse::Parsed { e, next } => sp_factor_more(
                toks,
                e,
                if next > i { next } else { (i + 1) as nat },
            ),
        }
    }
}

/// The left-fold of `factor`: while the cursor stands on a `*` or `/`,
/// parse one more `unary` and fold it in on the left.
pub open spec fn sp_factor_more(toks: Seq<Tok>, e: ExprV, j: nat) -> SpParse
    decreases srem(toks, j), 3int,
{
    if j >= toks.len() {
        SpParse::Parsed { e, next: j }
    } else if tier_ops(2, toks[j as int]) {
        match sp_unary(toks, (j + 1) as nat) {
            SpParse::Failed { at, kind } => SpParse::Failed { at, kind },
            SpParse::Parsed { e: r, next } => sp_factor_more(
                toks,
                ExprV::Binary { left: Box::new(e), right: Box::new(r), op: toks[j as int] },
                if next > j { next } else { (j + 1) as nat },
            ),
        }
    } else {
        SpParse::Parsed { e, next: j }
    }
}

/// `term`: a `factor`, then a left-fold of `-` and `+` operators.
pub open spec fn sp_term(toks: Seq<Tok>, i: nat) -> SpParse
    decreases srem(toks, i), 4int,
{
    if i >= toks.len() {
        SpParse::Failed { at: i, kind: SyntaxErrorKind::ExpectedExpression }
    } else {
        match sp_factor(toks, i) {
            SpParse::Failed { at, kind } => SpParse::Failed { at, kind },
            SpParse::Parsed { e, next } => sp_term_more(
                toks,
                e,
                if next > i { next } else { (i + 1) as nat },
            ),
        }
    }
}

/// The left-fold of `term`.
pub open spec fn sp_term_more(toks: Seq<Tok>, e: ExprV, j: nat) -> SpParse
    decreases srem(toks, j), 5int,
{
    if j >= toks.len() {
        SpParse::Parsed { e, next: j }
    } else if tier_ops(3, toks[j as int]) {
        match sp_factor(toks, (j + 1) as nat) {
            SpParse::Failed { at, kind } => SpParse::Failed { at, kind },
            SpParse::Parsed { e: r, next } => sp_term_more(
                toks,
                ExprV::Binary { left: Box::new(e), right: Box::new(r), op: toks[j as int] },
                if next > j { next } else { (j + 1) as nat },
            ),
        }
    } else {
        SpParse::Parsed { e, next: j }
    }
}

/// `comparison`: a `term`, then a left-fold of the four ordering operators.
pub open spec fn sp_comparison(toks: Seq<Tok>, i: nat) -> SpParse
    decreases srem(toks, i), 6int,
{
    if i >= toks.len() {
        SpParse::Failed { at: i, kind: SyntaxErrorKind::ExpectedExpression }
    } else {
        match sp_term(toks, i) {
            SpParse::Failed { at, kind } => SpParse::Failed { at, kind },
            SpParse::Parsed { e, next } => sp_comparison_more(
                toks,
                e,
                if next > i { next } else { (i + 1) as nat },
            ),
        }
    }
}

/// The left-fold of `comparison`.
pub open spec fn sp_comparison_more(toks: Seq<Tok>, e: ExprV, j: nat) -> SpParse
    decreases srem(toks, j), 7int,
{
    if j >= toks.len() {
        SpParse::Parsed { e, next: j }
    } else if tier_ops(4, toks[j as int]) {
        match sp_term(toks, (j + 1) as nat) {
            SpParse::Failed { at, kind } => SpParse::Failed { at, kind },
            SpParse::Parsed { e: r, next } => sp_comparison_more(
                toks,
                ExprV::Binary { left: Box::new(e), right: Box::new(r), op: toks[j as int] },
                if next > j { next } else { (j + 1) as nat },
            ),
        }
    } else {
        SpParse::Parsed { e, next: j }
    }
}

/// `equality`: a `comparison`, then a left-fold of `!=` and `==`.
pub open spec fn sp_equality(toks: Seq<Tok>, i: nat) -> SpParse
    decreases srem(toks, i), 8int,
{
    if i >= toks.len() {
        SpParse::Failed { at: i, kind: SyntaxErrorKind::ExpectedExpression }
    } else {
        match sp_comparison(toks, i) {
            SpParse::Failed { at, kind } => SpParse::Failed { at, kind },
            SpParse::Parsed { e, next } => sp_equality_more(
                toks,
                e,
                if next > i { next } else { (i + 1) as nat },
            ),
        }
    }
}

/// The left-fold of `equality`.
pub open spec fn sp_equality_more(toks: Seq<Tok>, e: ExprV, j: nat) -> SpParse
    decreases srem(toks, j), 9int,
{
    if j >= toks.len() {
        SpParse::Parsed { e, next: j }
    } else if tier_ops(5, toks[j as int]) {
        match sp_comparison(toks, (j + 1) as nat) {
            SpParse::Failed { at, kind } => SpParse::Failed { at, kind },
            SpParse::Parsed { e: r, next } => sp_equality_more(
                toks,
                ExprV::Binary { left: Box::new(e), right: Box::new(r), op: toks[j as int] },
                if next > j { next } else { (j + 1) as nat },
            ),
        }
    } else {
        SpParse::Parsed { e, next: j }
    }
}

/// The whole expression grammar, from its lowest tier.
pub open spec fn sp_expression(toks: Seq<Tok>, i: nat) -> SpParse {
    sp_equality(toks, i)
}

/// The parser: a single forward cursor over a finished token sequence.
#[derive(Debug)]
pub struct Parser {
    pub tokens: Vec<TokenType>,
    pub index: usize,
}

impl Parser {
    /// The token sequence as mathematical values.
    pub open spec fn toks(&self) -> Seq<Tok> {
        toks_view(self.tokens@)
    }

    /// Well-formed: the sequence ends with the end-of-input marker and
    /// the cursor stands on a token.
    pub open spec fn wf(&self) -> bool {
        &&& self.tokens@.len() > 0
        &&& self.toks().last() is EOF
        &&& self.index < self.tokens@.len()
    }

    /// A parser over `tokens`, with the cursor at the start.
    pub fn new(tokens: Vec<TokenType>) -> (p: Parser)
        ensures
            p.tokens@ == tokens@,
            p.index == 0,
    {
        Parser { tokens, index: 0 }
    }

    /// The token under the cursor.
    fn peek(&self) -> (t: &TokenType)
        requires
            self.wf(),
        ensures
            t@ == self.toks()[self.index as int],
    {
        &self.tokens[self.index]
    }

    /// Moves the cursor past the current token; never past the
    /// end-of-input marker.
    fn advance(&mut self)
        requires
            old(self).wf(),
            !(old(self).toks()[old(self).index as int] is EOF),
        ensures
            final(self).tokens@ == old(self).tokens@,
            final(self).index == old(self).index + 1,
            final(self).wf(),
    {
        proof {
            broadcast use vstd::std_specs::vec::axiom_spec_len;
            assert(self.tokens.len() == self.tokens@.len());
        }
        self.index = self.index + 1;
    }

    /// Whether the cursor stands on an operator of the given binary tier.
    fn check(&self, lvl: u8) -> (b: bool)
        requires
            self.wf(),
        ensures
            b == tier_ops(lvl as int, self.toks()[self.index as int]),
    {
        match self.peek() {
            TokenType::Star | TokenType::Slash => lvl == 2,
            TokenType::Minus | TokenType::Plus => lvl == 3,
            TokenType::Gt | TokenType::GtEq | TokenType::Lt | TokenType::LtEq => lvl == 4,
            TokenType::BangEq | TokenType::EqEq => lvl == 5,
            _ => false,
        }
    }
}

/// What every parsing method guarantees: the token sequence is untouched,
/// the parser stays well-formed, and the result is exactly what the
/// tier's spec function describes — on success the same tree with the
/// cursor moved past it, on failure the same kind of error at the same
/// token, which the error carries.
pub open spec fn parse_post(
    pre: Parser,
    post: Parser,
    r: Result<Expr, SyntaxError>,
    sp: SpParse,
) -> bool {
    &&& post.toks() == pre.toks()
    &&& post.wf()
    &&& (match r {
        Result::Ok(e) => {
            &&& (sp matches SpParse::Parsed { e: ev, next } && ev == e@ && next
                == post.index as nat)
            &&& pre.index < post.index
        },
        Result::Err(er) => {
            &&& (sp matches SpParse::Failed { at, kind } && at == er.at as nat && kind == er.kind)
            &&& er.at < pre.toks().len()
            &&& er.token@ == pre.toks()[er.at as int]
        },
    })
}

impl Parser {
    /// Parses one expression starting at the cursor, per the whole
    /// grammar; exactly [`sp_expression`].
    pub fn parse_expression(&mut self) -> (r: Result<Expr, SyntaxError>)
        requires
            old(self).wf(),
        ensures
            parse_post(*old(self), *final(self), r, sp_expression(old(self).toks(), old(self).index as nat)),
    {
        self.equality()
    }

    /// The `equality` tier.
    fn equality(&mut self) -> (r: Result<Expr, SyntaxError>)
        requires
            old(self).wf(),
        ensures
            parse_post(*old(self), *final(self), r, sp_equality(old(self).toks(), old(self).index as nat)),
        decreases old(self).tokens@.len() - old(self).index, 8int,
    {
        let mut e = match self.comparison() {
            Result::Err(x) => {
                return Result::Err(x);
            },
            Result::Ok(e0) => e0,
        };
        while self.check(5)
            invariant
                self.wf(),
                self.toks() == old(self).toks(),
                old(self).index < self.index,
                sp_equality(old(self).toks(), old(self).index as nat) == sp_equality_more(
                    old(self).toks(),
                    e@,
                    self.index as nat,
                ),
            decreases self.tokens@.len() - self.index,
        {
            let op = self.peek().dup();
            self.advance();
            let right = match self.comparison() {
                Result::Err(x) => {
                    return Result::Err(x);
                },
                Result::Ok(r0) => r0,
            };
            e = Expr::Binary { left: Box::new(e), right: Box::new(right), op };
        }
        Result::Ok(e)
    }

    /// The `comparison` tier.
    fn comparison(&mut self) -> (r: Result<Expr, SyntaxError>)
        requires
            old(self).wf(),
        ensures
            parse_post(
                *old(self),
                *final(self),
                r,
                sp_comparison(old(self).toks(), old(self).index as nat),
            ),
        decreases old(self).tokens@.len() - old(self).index, 6int,
    {
        let mut e = match self.term() {
            Result::Err(x) => {
                return Result::Err(x);
            },
            Result::Ok(e0) => e0,
        };
        while self.check(4)
            invariant
                self.wf(),
                self.toks() == old(self).toks(),
                old(self).index < self.index,
                sp_comparison(old(self).toks(), old(self).index as nat) == sp_comparison_more(
                    old(self).toks(),
                    e@,
                    self.index as nat,
                ),
            decreases self.tokens@.len() - self.index,
        {
            let op = self.peek().dup();
            self.advance();
            let right = match self.term() {
                Result::Err(x) => {
                    return Result::Err(x);
                },
                Result::Ok(r0) => r0,
            };
            e = Expr::Binary { left: Box::new(e), right: Box::new(right), op };
        }
        Result::Ok(e)
    }

    /// The `term` tier.
    fn term(&mut self) -> (r: Result<Expr, SyntaxError>)
        requires
            old(self).wf(),
        ensures
            parse_post(*old(self), *final(self), r, sp_term(old(self).toks(), old(self).index as nat)),
        decreases old(self).tokens@.len() - old(self).index, 4int,
    {
        let mut e = match self.factor() {
            Result::Err(x) => {
                return Result::Err(x);
            },
            Result::Ok(e0) => e0,
        };
        while self.check(3)
            invariant
                self.wf(),
                self.toks() == old(self).toks(),
                old(self).index < self.index,
                sp_term(old(self).toks(), old(self).index as nat) == sp_term_more(
                    old(self).toks(),
                    e@,
                    self.index as nat,
                ),
            decreases self.tokens@.len() - self.index,
        {
            let op = self.peek().dup();
            self.advance();
            let right = match self.factor() {
                Result::Err(x) => {
                    return Result::Err(x);
                },
                Result::Ok(r0) => r0,
            };
            e = Expr::Binary { left: Box::new(e), right: Box::new(right), op };
        }
        Result::Ok(e)
    }

    /// The `factor` tier.
    fn factor(&mut self) -> (r: Result<Expr, SyntaxError>)
        requires
            old(self).wf(),
        ensures
            parse_post(*old(self), *final(self), r, sp_factor(old(self).toks(), old(self).index as nat)),
        decreases old(self).tokens@.len() - old(self).index, 2int,
    {
        let mut e = match self.unary() {
            Result::Err(x) => {
                return Result::Err(x);
            },
            Result::Ok(e0) => e0,
        };
        while self.check(2)
            invariant
                self.wf(),
                self.toks() == old(self).toks(),
                old(self).index < self.index,
                sp_factor(old(self).toks(), old(self).index as nat) == sp_factor_more(
                    old(self).toks(),
                    e@,
                    self.index as nat,
                ),
            decreases self.tokens@.len() - self.index,
        {
            let op = self.peek().dup();
            self.advance();
            let right = match self.unary() {
                Result::Err(x) => {
                    return Result::Err(x);
                },
                Result::Ok(r0) => r0,
            };
            e = Expr::Binary { left: Box::new(e), right: Box::new(right), op };
        }
        Result::Ok(e)
    }

    /// The `unary` tier: prefix `!` or `-`, right-associative.
    fn unary(&mut self) -> (r: Result<Expr, SyntaxError>)
        requires
            old(self).wf(),
        ensures
            parse_post(*old(self), *final(self), r, sp_unary(old(self).toks(), old(self).index as nat)),
        decreases old(self).tokens@.len() - old(self).index, 1int,
    {
        let t = self.peek().dup();
        if matches!(&t, TokenType::Bang | TokenType::Minus) {
            self.advance();
            match self.unary() {
                Result::Err(x) => Result::Err(x),
                Result::Ok(sub) => Result::Ok(Expr::Unary { op: t, expr: Box::new(sub) }),
            }
        } else {
            self.primary()
        }
    }

    /// The `primary` tier: a literal token or a parenthesized expression.
    fn primary(&mut self) -> (r: Result<Expr, SyntaxError>)
        requires
            old(self).wf(),
        ensures
            parse_post(*old(self), *final(self), r, sp_primary(old(self).toks(), old(self).index as nat)),
        decreases old(self).tokens@.len() - old(self).index, 0int,
    {
        let t = self.peek().dup();
        if matches!(
            &t,
            TokenType::False | TokenType::True | TokenType::Nil | TokenType::Number(_)
                | TokenType::TkString(_)
        ) {
            self.advance();
            Result::Ok(Expr::Literal(t))
        } else if matches!(&t, TokenType::LeftParan) {
            self.advance();
            let inner = match self.equality() {
                Result::Err(x) => {
                    return Result::Err(x);
                },
                Result::Ok(e0) => e0,
            };
            let closing = self.peek().dup();
            if matches!(&closing, TokenType::RightParan) {
                self.advance();
                Result::Ok(Expr::Grouping { expr: Box::new(inner) })
            } else {
                Result::Err(
                    SyntaxError {
                        at: self.index,
                        token: closing,
                        kind: SyntaxErrorKind::ExpectedRightParen,
                    },
                )
            }
        } else {
            Result::Err(
                SyntaxError { at: self.index, token: t, kind: SyntaxErrorKind::ExpectedExpression },
            )
        }
    }
}


/// The tokens a tree reads back as, in source order: prefix operators
/// before their operand, infix operators between theirs, grouping nodes
/// wrapped in the parenthesis tokens.
pub open spec fn tok_yield(e: ExprV) -> Seq<Tok>
    decreases e,
{
    match e {
        ExprV::Literal(t) => seq![t],
        ExprV::Unary { op, expr } => seq![op] + tok_yield(*expr),
        ExprV::Binary { left, right, op } => tok_yield(*left) + seq![op] + tok_yield(*right),
        ExprV::Grouping { expr } => seq![Tok::LeftParan] + tok_yield(*expr) + seq![
            Tok::RightParan,
        ],
    }
}

/// Whether a tree is grammar-correct at a precedence tier (0 primary,
/// 1 unary, 2 factor, 3 term, 4 comparison, 5 equality): each binary node
/// carries an operator of its own tier, its left operand sits at the same
/// tier (the left-leaning fold) and its right operand at the tier above.
pub open spec fn wf_at(e: ExprV, lvl: nat) -> bool
    decreases e, lvl,
{
    if lvl == 0 {
        match e {
            ExprV::Literal(t) => is_literal_tok(t),
            ExprV::Grouping { expr } => wf_at(*expr, 5),
            _ => false,
        }
    } else if lvl == 1 {
        (e matches ExprV::Unary { op, expr } && (op is Bang || op is Minus) && wf_at(*expr, 1))
            || wf_at(e, 0)
    } else {
        (e matches ExprV::Binary { left, right, op } && tier_ops(lvl as int, op) && wf_at(
            *left,
            lvl,
        ) && wf_at(*right, (lvl - 1) as nat)) || wf_at(e, (lvl - 1) as nat)
    }
}

/// The operand tier of a binary tier: what stands between its operators.
pub open spec fn sp_binary_sub(toks: Seq<Tok>, i: nat, lvl: nat) -> SpParse {
    if lvl == 2 {
        sp_unary(toks, i)
    } else if lvl == 3 {
        sp_factor(toks, i)
    } else if lvl == 4 {
        sp_term(toks, i)
    } else {
        sp_comparison(toks, i)
    }
}

/// The left-fold of a binary tier, by tier number.
pub open spec fn sp_binary_more(toks: Seq<Tok>, e: ExprV, j: nat, lvl: nat) -> SpParse {
    if lvl == 2 {
        sp_factor_more(toks, e, j)
    } else if lvl == 3 {
        sp_term_more(toks, e, j)
    } else if lvl == 4 {
        sp_comparison_more(toks, e, j)
    } else {
        sp_equality_more(toks, e, j)
    }
}

/// Soundness of `primary`: a parsed tree is grammar-correct at tier 0 and
/// reads back as exactly the tokens consumed.
pub proof fn lemma_primary_sound(toks: Seq<Tok>, i: nat)
    ensures
        (sp_primary(toks, i) matches SpParse::Parsed { e, next } ==> {
            &&& i < next <= toks.len()
            &&& wf_at(e, 0)
            &&& tok_yield(e) == toks.subrange(i as int, next as int)
        }),
    decreases srem(toks, i), 0int,
{
    if i < toks.len() {
        let t = toks[i as int];
        if is_literal_tok(t) {
            assert(seq![t] =~= toks.subrange(i as int, i as int + 1));
        } else if t is LeftParan {
            lemma_equality_sound(toks, (i + 1) as nat);
            if let SpParse::Parsed { e, next } = sp_equality(toks, (i + 1) as nat) {
                if next < toks.len() && toks[next as int] is RightParan {
                    assert(seq![Tok::LeftParan] + tok_yield(e) + seq![Tok::RightParan]
                        =~= toks.subrange(i as int, next as int + 1));
                }
            }
        }
    }
}

/// Soundness of `unary`.
pub proof fn lemma_unary_sound(toks: Seq<Tok>, i: nat)
    ensures
        (sp_unary(toks, i) matches SpParse::Parsed { e, next } ==> {
            &&& i < next <= toks.len()
            &&& wf_at(e, 1)
            &&& tok_yield(e) == toks.subrange(i as int, next as int)
        }),
    decreases srem(toks, i), 1int,
{
    if i < toks.len() {
        if toks[i as int] is Bang || toks[i as int] is Minus {
            lemma_unary_sound(toks, (i + 1) as nat);
            if let SpParse::Parsed { e, next } = sp_unary(toks, (i + 1) as nat) {
                assert(seq![toks[i as int]] + tok_yield(e) =~= toks.subrange(
                    i as int,
                    next as int,
                ));
            }
        } else {
            lemma_primary_sound(toks, i);
        }
    }
}

/// Soundness of the operand tier of a binary tier.
pub proof fn lemma_binary_sub_sound(toks: Seq<Tok>, i: nat, lvl: nat)
    requires
        2 <= lvl <= 5,
    ensures
        (sp_binary_sub(toks, i, lvl) matches SpParse::Parsed { e, next } ==> {
            &&& i < next <= toks.len()
            &&& wf_at(e, (lvl - 1) as nat)
            &&& tok_yield(e) == toks.subrange(i as int, next as int)
        }),
    decreases srem(toks, i), (2 * lvl + 1) as int,
{
    if lvl == 2 {
        lemma_unary_sound(toks, i);
    } else if lvl == 3 {
        lemma_factor_sound(toks, i);
    } else if lvl == 4 {
        lemma_term_sound(toks, i);
    } else {
        lemma_comparison_sound(toks, i);
    }
}

/// Soundness of the left-fold of a binary tier: folding further operands
/// into a grammar-correct tree keeps it grammar-correct and appends
/// exactly the consumed tokens to what the tree reads back as.
pub proof fn lemma_binary_more_sound(toks: Seq<Tok>, e: ExprV, j: nat, lvl: nat)
    requires
        2 <= lvl <= 5,
        j <= toks.len(),
        wf_at(e, lvl),
    ensures
        (sp_binary_more(toks, e, j, lvl) matches SpParse::Parsed { e: e2, next } ==> {
            &&& j <= next <= toks.len()
            &&& wf_at(e2, lvl)
            &&& tok_yield(e2) == tok_yield(e) + toks.subrange(j as int, next as int)
        }),
    decreases srem(toks, j), 12int,
{
    if j >= toks.len() || !tier_ops(lvl as int, toks[j as int]) {
        assert(tok_yield(e) + toks.subrange(j as int, j as int) =~= tok_yield(e));
    } else {
        lemma_binary_sub_sound(toks, (j + 1) as nat, lvl);
        if let SpParse::Parsed { e: r, next: k } = sp_binary_sub(toks, (j + 1) as nat, lvl) {
            let folded = ExprV::Binary {
                left: Box::new(e),
                right: Box::new(r),
                op: toks[j as int],
            };
            assert(wf_at(folded, lvl));
            lemma_binary_more_sound(toks, folded, k, lvl);
            if let SpParse::Parsed { e: e2, next } = sp_binary_more(toks, folded, k, lvl) {
                assert(tok_yield(folded) =~= tok_yield(e) + toks.subrange(j as int, k as int));
                assert((tok_yield(e) + toks.subrange(j as int, k as int)) + toks.subrange(
                    k as int,
                    next as int,
                ) =~= tok_yield(e) + toks.subrange(j as int, next as int));
            }
        }
    }
}

/// Soundness of `factor`.
pub proof fn lemma_factor_sound(toks: Seq<Tok>, i: nat)
    ensures
        (sp_factor(toks, i) matches SpParse::Parsed { e, next } ==> {
            &&& i < next <= toks.len()
            &&& wf_at(e, 2)
            &&& tok_yield(e) == toks.subrange(i as int, next as int)
        }),
    decreases srem(toks, i), 4int,
{
    if i < toks.len() {
        lemma_unary_sound(toks, i);
        if let SpParse::Parsed { e, next } = sp_unary(toks, i) {
            lemma_binary_more_sound(toks, e, next, 2);
            if let SpParse::Parsed { e: e2, next: n2 } = sp_factor_more(toks, e, next) {
                assert(toks.subrange(i as int, next as int) + toks.subrange(
                    next as int,
                    n2 as int,
                ) =~= toks.subrange(i as int, n2 as int));
            }
        }
    }
}

/// Soundness of `term`.
pub proof fn lemma_term_sound(toks: Seq<Tok>, i: nat)
    ensures
        (sp_term(toks, i) matches SpParse::Parsed { e, next } ==> {
            &&& i < next <= toks.len()
            &&& wf_at(e, 3)
            &&& tok_yield(e) == toks.subrange(i as int, next as int)
        }),
    decreases srem(toks, i), 6int,
{
    if i < toks.len() {
        lemma_factor_sound(toks, i);
        if let SpParse::Parsed { e, next } = sp_factor(toks, i) {
            lemma_binary_more_sound(toks, e, next, 3);
            if let SpParse::Parsed { e: e2, next: n2 } = sp_term_more(toks, e, next) {
                assert(toks.subrange(i as int, next as int) + toks.subrange(
                    next as int,
                    n2 as int,
                ) =~= toks.subrange(i as int, n2 as int));
            }
        }
    }
}

/// Soundness of `comparison`.
pub proof fn lemma_comparison_sound(toks: Seq<Tok>, i: nat)
    ensures
        (sp_comparison(toks, i) matches SpParse::Parsed { e, next } ==> {
            &&& i < next <= toks.len()
            &&& wf_at(e, 4)
            &&& tok_yield(e) == toks.subrange(i as int, next as int)
        }),
    decreases srem(toks, i), 8int,
{
    if i < toks.len() {
        lemma_term_sound(toks, i);
        if let SpParse::Parsed { e, next } = sp_term(toks, i) {
            lemma_binary_more_sound(toks, e, next, 4);
            if let SpParse::Parsed { e: e2, next: n2 } = sp_comparison_more(toks, e, next) {
                assert(toks.subrange(i as int, next as int) + toks.subrange(
                    next as int,
                    n2 as int,
                ) =~= toks.subrange(i as int, n2 as int));
            }
        }
    }
}

/// Soundness of `equality`.
pub proof fn lemma_equality_sound(toks: Seq<Tok>, i: nat)
    ensures
        (sp_equality(toks, i) matches SpParse::Parsed { e, next } ==> {
            &&& i < next <= toks.len()
            &&& wf_at(e, 5)
            &&& tok_yield(e) == toks.subrange(i as int, next as int)
        }),
    decreases srem(toks, i), 10int,
{
    if i < toks.len() {
        lemma_comparison_sound(toks, i);
        if let SpParse::Parsed { e, next } = sp_comparison(toks, i) {
            lemma_binary_more_sound(toks, e, next, 5);
            if let SpParse::Parsed { e: e2, next: n2 } = sp_equality_more(toks, e, next) {
                assert(toks.subrange(i as int, next as int) + toks.subrange(
                    next as int,
                    n2 as int,
                ) =~= toks.subrange(i as int, n2 as int));
            }
        }
    }
}

/// Law: precedence is reflected in every parse. A tree the parser returns
/// is grammar-correct at the lowest tier — tighter-binding operators sit
/// deeper, same-tier chains lean left — and reads back as exactly the
/// tokens that were consumed for it.
pub proof fn lemma_parse_respects_grammar(toks: Seq<Tok>, i: nat)
    ensures
        (sp_expression(toks, i) matches SpParse::Parsed { e, next } ==> {
            &&& i < next <= toks.len()
            &&& wf_at(e, 5)
            &&& tok_yield(e) == toks.subrange(i as int, next as int)
        }),
{
    lemma_equality_sound(toks, i);
}


} // verus!
