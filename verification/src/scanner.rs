//! The lexical scanner: a finite-state machine that consumes one character
//! at a time, classifies and accumulates characters into tokens, tracks
//! line and column position, and resolves spelled names against the
//! keyword table.
//!
//! The machine is specified by the pure transition function [`spec_step`]
//! (one character against one state) and by [`spec_scan`], which folds the
//! transition over a whole character sequence. [`Scanner::scan_line`] is
//! proved to produce exactly the tokens, state, position and error that
//! [`spec_scan_line`] describes.

use vstd::prelude::*;
use vstd::std_specs::iter::IteratorSpec;
use crate::token::{TokenType, Tok, is_digit, digit, spec_keyword, keyword_of, opt_tok_view};

verus! {

/// The classes of lexical error the scanner can report.
#[derive(Debug, Clone, Copy, PartialEq, Eq, Structural)]
pub enum LexErrorKind {
    /// A character that cannot seed a one-or-two-character operator
    /// reached the double-character state (unreachable from `scan_line`).
    UnmatchedDouble,
    /// An accumulated number with more than one decimal point.
    MalformedNumber,
    /// A number followed directly by a character that can neither extend
    /// it nor terminate it (a letter straight after the digits).
    MalformedNumberTerminator,
}

/// A lexical error, carrying the line and column at which scanning stopped.
#[derive(Debug, Clone, Copy, PartialEq, Eq)]
pub struct LexError {
    pub kind: LexErrorKind,
    pub line: u64,
    pub col: u64,
}

/// Whether the character under examination was consumed by the transition
/// or must be re-examined against the next state.
#[derive(Debug, PartialEq, Eq, Structural)]
pub enum ShouldConsume {
    Consume,
    Stay,
}

/// One active machine state: ready to classify, or mid-way through a
/// one-or-two-character operator, an identifier, a string, a number, or a
/// line comment.
#[derive(Debug, PartialEq)]
pub enum ScannerState {
    Blank,
    ExpectingDouble(char),
    ExpectingIdentifier(Vec<char>),
    ExpectingString(Vec<char>),
    ExpectingNumber(Vec<char>),
    Comment,
}

/// The mathematical value of a scanner state.
pub enum StateV {
    Blank,
    ExpectingDouble(char),
    ExpectingIdentifier(Seq<char>),
    ExpectingString(Seq<char>),
    ExpectingNumber(Seq<char>),
    Comment,
}

impl View for ScannerState {
    type V = StateV;

    open spec fn view(&self) -> StateV {
        match self {
            ScannerState::Blank => StateV::Blank,
            ScannerState::ExpectingDouble(c) => StateV::ExpectingDouble(*c),
            ScannerState::ExpectingIdentifier(s) => StateV::ExpectingIdentifier(s@),
            ScannerState::ExpectingString(s) => StateV::ExpectingString(s@),
            ScannerState::ExpectingNumber(s) => StateV::ExpectingNumber(s@),
            ScannerState::Comment => StateV::Comment,
        }
    }
}

/// What one transition of the machine does: whether the character was
/// consumed, the token emitted or the error raised, and the next state.
pub struct MachineOutput {
    consume: ShouldConsume,
    output: Result<Option<TokenType>, LexErrorKind>,
    state: ScannerState,
}

/// The mathematical value of a machine transition.
pub struct MachineOutputV {
    pub consume: bool,
    pub output: Result<Option<Tok>, LexErrorKind>,
    pub state: StateV,
}

impl View for MachineOutput {
    type V = MachineOutputV;

    closed spec fn view(&self) -> MachineOutputV {
        MachineOutputV {
            consume: self.consume is Consume,
            output: match self.output {
                Result::Ok(o) => Result::Ok(opt_tok_view(o)),
                Result::Err(k) => Result::Err(k),
            },
            state: self.state@,
        }
    }
}

/// A transition that consumes its character and emits a token.
pub open spec fn sv_cons_out(token: Tok, state: StateV) -> MachineOutputV {
    MachineOutputV { consume: true, output: Result::Ok(Option::Some(token)), state }
}

/// A transition that consumes its character and emits nothing.
pub open spec fn sv_cons_none(state: StateV) -> MachineOutputV {
    MachineOutputV { consume: true, output: Result::Ok(Option::None), state }
}

/// A failed transition: the machine collapses to `Blank`.
pub open spec fn sv_err(kind: LexErrorKind) -> MachineOutputV {
    MachineOutputV { consume: false, output: Result::Err(kind), state: StateV::Blank }
}

/// A transition that emits a token but leaves its character to be
/// re-examined against the next state.
pub open spec fn sv_stay_out(token: Tok, state: StateV) -> MachineOutputV {
    MachineOutputV { consume: false, output: Result::Ok(Option::Some(token)), state }
}

impl MachineOutput {
    /// Consume the character and emit `token`.
    pub fn cons_out(token: TokenType, state: ScannerState) -> (r: Self)
        ensures
            r@ == sv_cons_out(token@, state@),
    {
        MachineOutput {
            consume: ShouldConsume::Consume,
            output: Result::Ok(Option::Some(token)),
            state,
        }
    }

    /// Consume the character and emit nothing.
    pub fn cons_none(state: ScannerState) -> (r: Self)
        ensures
            r@ == sv_cons_none(state@),
    {
        MachineOutput { consume: ShouldConsume::Consume, output: Result::Ok(Option::None), state }
    }

    /// Fail with `error`; the machine collapses to `Blank`.
    pub fn err(error: LexErrorKind) -> (r: Self)
        ensures
            r@ == sv_err(error),
    {
        MachineOutput {
            consume: ShouldConsume::Stay,
            output: Result::Err(error),
            state: ScannerState::Blank,
        }
    }

    /// Emit `token` but leave the character to be re-examined.
    pub fn stay_out(token: TokenType, state: ScannerState) -> (r: Self)
        ensures
            r@ == sv_stay_out(token@, state@),
    {
        MachineOutput {
            consume: ShouldConsume::Stay,
            output: Result::Ok(Option::Some(token)),
            state,
        }
    }
}

/// How many decimal points a number's accumulated text holds.
pub open spec fn dot_count(s: Seq<char>) -> nat
    decreases s.len(),
{
    if s.len() == 0 {
        0
    } else {
        dot_count(s.drop_last()) + (if s.last() == '.' { 1nat } else { 0nat })
    }
}

/// Whether `c` is one of the characters that may open a one-or-two
/// character operator or a comment.
pub open spec fn is_double_seed(c: char) -> bool {
    c == '>' || c == '<' || c == '=' || c == '!' || c == '/'
}

/// The transition function of the scanner: one state against one
/// character, per the rules of the machine.
pub open spec fn spec_step(st: StateV, x: char) -> MachineOutputV {
    match st {
        StateV::Blank => {
            if x == '{' {
                sv_cons_out(Tok::LeftBrace, StateV::Blank)
            } else if x == '}' {
                sv_cons_out(Tok::RightBrace, StateV::Blank)
            } else if x == '(' {
                sv_cons_out(Tok::LeftParan, StateV::Blank)
            } else if x == ')' {
                sv_cons_out(Tok::RightParan, StateV::Blank)
            } else if x == ',' {
                sv_cons_out(Tok::Comma, StateV::Blank)
            } else if x == '.' {
                sv_cons_out(Tok::Dot, StateV::Blank)
            } else if x == ';' {
                sv_cons_out(Tok::Semicolon, StateV::Blank)
            } else if x == '-' {
                sv_cons_out(Tok::Minus, StateV::Blank)
            } else if x == '+' {
                sv_cons_out(Tok::Plus, StateV::Blank)
            } else if x == '*' {
                sv_cons_out(Tok::Star, StateV::Blank)
            } else if is_double_seed(x) {
                sv_cons_none(StateV::ExpectingDouble(x))
            } else if is_digit(x) {
                sv_cons_none(StateV::ExpectingNumber(seq![x]))
            } else if x == '"' {
                sv_cons_none(StateV::ExpectingString(Seq::empty()))
            } else if x == '\n' || x == ' ' {
                sv_cons_none(StateV::Blank)
            } else {
                sv_cons_none(StateV::ExpectingIdentifier(seq![x]))
            }
        },
        StateV::ExpectingDouble(prev) => {
            if prev == '/' {
                if x == '/' {
                    sv_cons_none(StateV::Comment)
                } else {
                    sv_stay_out(Tok::Slash, StateV::Blank)
                }
            } else if x == '=' {
                if prev == '>' {
                    sv_cons_out(Tok::GtEq, StateV::Blank)
                } else if prev == '<' {
                    sv_cons_out(Tok::LtEq, StateV::Blank)
                } else if prev == '=' {
                    sv_cons_out(Tok::EqEq, StateV::Blank)
                } else if prev == '!' {
                    sv_cons_out(Tok::BangEq, StateV::Blank)
                } else {
                    sv_err(LexErrorKind::UnmatchedDouble)
                }
            } else {
                if prev == '>' {
                    sv_stay_out(Tok::Gt, StateV::Blank)
                } else if prev == '<' {
                    sv_stay_out(Tok::Lt, StateV::Blank)
                } else if prev == '!' {
                    sv_stay_out(Tok::Bang, StateV::Blank)
                } else if prev == '=' {
                    sv_stay_out(Tok::Eq, StateV::Blank)
                } else {
                    sv_err(LexErrorKind::UnmatchedDouble)
                }
            }
        },
        StateV::ExpectingIdentifier(name) => {
            if x == ' ' || x == '\n' {
                match spec_keyword(name) {
                    Option::Some(k) => sv_cons_out(k, StateV::Blank),
                    Option::None => sv_cons_out(Tok::Identifier(name), StateV::Blank),
                }
            } else {
                sv_cons_none(StateV::ExpectingIdentifier(name.push(x)))
            }
        },
        StateV::ExpectingString(text) => {
            if x == '"' {
                sv_cons_out(Tok::TkString(text), StateV::Blank)
            } else {
                sv_cons_none(StateV::ExpectingString(text.push(x)))
            }
        },
        StateV::ExpectingNumber(num) => {
            if x == ' ' || x == '\n' {
                if dot_count(num) <= 1 {
                    sv_cons_out(Tok::Number(num), StateV::Blank)
                } else {
                    sv_err(LexErrorKind::MalformedNumber)
                }
            } else if is_digit(x) || x == '.' {
                sv_cons_none(StateV::ExpectingNumber(num.push(x)))
            } else {
                sv_err(LexErrorKind::MalformedNumberTerminator)
            }
        },
        StateV::Comment => {
            if x == '\n' {
                sv_cons_none(StateV::Blank)
            } else {
                sv_cons_none(StateV::Comment)
            }
        },
    }
}

/// Relies on `String`'s `FromIterator` over characters: collecting the
/// characters of `cs` yields the string whose characters are exactly `cs`.
#[verifier::external_body]
fn string_of(cs: &Vec<char>) -> (r: String)
    ensures
        r@ == cs@,
{
    cs.iter().collect()
}

/// Counts the decimal points in a number's accumulated text.
fn dots_in(v: &Vec<char>) -> (n: usize)
    ensures
        n == dot_count(v@),
{
    let mut n: usize = 0;
    let mut i: usize = 0;
    while i < v.len()
        invariant
            i <= v@.len(),
            n <= i,
            n == dot_count(v@.take(i as int)),
        decreases v@.len() - i,
    {
        proof {
            assert(v@.take(i as int + 1).drop_last() =~= v@.take(i as int));
            assert(v@.take(i as int + 1).last() == v@[i as int]);
        }
        if v[i] == '.' {
            n = n + 1;
        }
        i = i + 1;
    }
    proof {
        assert(v@.take(v@.len() as int) =~= v@);
    }
    n
}

/// Runs one character through the machine.
fn use_char(st: ScannerState, x: char) -> (r: MachineOutput)
    ensures
        r@ == spec_step(st@, x),
{
    match st {
        ScannerState::Blank => {
            if x == '{' {
                MachineOutput::cons_out(TokenType::LeftBrace, ScannerState::Blank)
            } else if x == '}' {
                MachineOutput::cons_out(TokenType::RightBrace, ScannerState::Blank)
            } else if x == '(' {
                MachineOutput::cons_out(TokenType::LeftParan, ScannerState::Blank)
            } else if x == ')' {
                MachineOutput::cons_out(TokenType::RightParan, ScannerState::Blank)
            } else if x == ',' {
                MachineOutput::cons_out(TokenType::Comma, ScannerState::Blank)
            } else if x == '.' {
                MachineOutput::cons_out(TokenType::Dot, ScannerState::Blank)
            } else if x == ';' {
                MachineOutput::cons_out(TokenType::Semicolon, ScannerState::Blank)
            } else if x == '-' {
                MachineOutput::cons_out(TokenType::Minus, ScannerState::Blank)
            } else if x == '+' {
                MachineOutput::cons_out(TokenType::Plus, ScannerState::Blank)
            } else if x == '*' {
                MachineOutput::cons_out(TokenType::Star, ScannerState::Blank)
            } else if x == '>' || x == '<' || x == '=' || x == '!' || x == '/' {
                MachineOutput::cons_none(ScannerState::ExpectingDouble(x))
            } else if digit(x) {
                let acc = vec![x];
                proof {
                    assert(acc@ =~= seq![x]);
                }
                MachineOutput::cons_none(ScannerState::ExpectingNumber(acc))
            } else if x == '"' {
                MachineOutput::cons_none(ScannerState::ExpectingString(Vec::new()))
            } else if x == '\n' || x == ' ' {
                MachineOutput::cons_none(ScannerState::Blank)
            } else {
                let acc = vec![x];
                proof {
                    assert(acc@ =~= seq![x]);
                }
                MachineOutput::cons_none(ScannerState::ExpectingIdentifier(acc))
            }
        },
        ScannerState::ExpectingDouble(prev) => {
            if prev == '/' {
                if x == '/' {
                    MachineOutput::cons_none(ScannerState::Comment)
                } else {
                    MachineOutput::stay_out(TokenType::Slash, ScannerState::Blank)
                }
            } else if x == '=' {
                if prev == '>' {
                    MachineOutput::cons_out(TokenType::GtEq, ScannerState::Blank)
                } else if prev == '<' {
                    MachineOutput::cons_out(TokenType::LtEq, ScannerState::Blank)
                } else if prev == '=' {
                    MachineOutput::cons_out(TokenType::EqEq, ScannerState::Blank)
                } else if prev == '!' {
                    MachineOutput::cons_out(TokenType::BangEq, ScannerState::Blank)
                } else {
                    MachineOutput::err(LexErrorKind::UnmatchedDouble)
                }
            } else {
                if prev == '>' {
                    MachineOutput::stay_out(TokenType::Gt, ScannerState::Blank)
                } else if prev == '<' {
                    MachineOutput::stay_out(TokenType::Lt, ScannerState::Blank)
                } else if prev == '!' {
                    MachineOutput::stay_out(TokenType::Bang, ScannerState::Blank)
                } else if prev == '=' {
                    MachineOutput::stay_out(TokenType::Eq, ScannerState::Blank)
                } else {
                    MachineOutput::err(LexErrorKind::UnmatchedDouble)
                }
            }
        },
        ScannerState::ExpectingIdentifier(mut name) => {
            if x == ' ' || x == '\n' {
                let spelled = string_of(&name);
                match keyword_of(&spelled) {
                    Option::Some(k) => MachineOutput::cons_out(k, ScannerState::Blank),
                    Option::None => MachineOutput::cons_out(
                        TokenType::Identifier(spelled),
                        ScannerState::Blank,
                    ),
                }
            } else {
                name.push(x);
                MachineOutput::cons_none(ScannerState::ExpectingIdentifier(name))
            }
        },
        ScannerState::ExpectingString(mut text) => {
            if x == '"' {
                MachineOutput::cons_out(TokenType::TkString(string_of(&text)), ScannerState::Blank)
            } else {
                text.push(x);
                MachineOutput::cons_none(ScannerState::ExpectingString(text))
            }
        },
        ScannerState::ExpectingNumber(mut num) => {
            if x == ' ' || x == '\n' {
                if dots_in(&num) <= 1 {
                    MachineOutput::cons_out(
                        TokenType::Number(string_of(&num)),
                        ScannerState::Blank,
                    )
                } else {
                    MachineOutput::err(LexErrorKind::MalformedNumber)
                }
            } else if digit(x) || x == '.' {
                num.push(x);
                MachineOutput::cons_none(ScannerState::ExpectingNumber(num))
            } else {
                MachineOutput::err(LexErrorKind::MalformedNumberTerminator)
            }
        },
        ScannerState::Comment => {
            if x == '\n' {
                MachineOutput::cons_none(ScannerState::Blank)
            } else {
                MachineOutput::cons_none(ScannerState::Comment)
            }
        },
    }
}

/// The characters of `s`, in order, collected through the character
/// iterator of `str`.
fn chars_of(s: &str) -> (r: Vec<char>)
    ensures
        r@ == s@,
{
    broadcast use vstd::string::axiom_spec_iter;
    broadcast use vstd::string::next_postcondition;

    let mut it = s.chars();
    let mut r: Vec<char> = Vec::new();
    let mut done = false;
    while !done
        invariant
            it.obeys_prophetic_iter_laws(),
            it.decrease() is Some,
            r@ + it.remaining() == s@,
            done ==> it.remaining().len() == 0,
        decreases (if done { 0int } else { 1int }), it.decrease()->0,
    {
        match it.next() {
            Option::Some(c) => {
                r.push(c);
            },
            Option::None => {
                done = true;
            },
        }
    }
    proof {
        assert(r@ =~= s@);
    }
    r
}

/// The tokens of a sequence, as mathematical values.
pub open spec fn toks_view(s: Seq<TokenType>) -> Seq<Tok> {
    s.map_values(|t: TokenType| t@)
}

/// The sequence a token emission contributes: empty or a singleton.
pub open spec fn opt_seq(o: Option<Tok>) -> Seq<Tok> {
    match o {
        Option::Some(t) => seq![t],
        Option::None => Seq::empty(),
    }
}

/// What scanning a character sequence from a given state and position
/// produces: the tokens emitted, the machine state, the position reached,
/// and the first lexical error if one arose (scanning stops there).
pub struct ScanOutcome {
    pub tokens: Seq<Tok>,
    pub state: StateV,
    pub line: nat,
    pub col: nat,
    pub error: Option<LexErrorKind>,
}

/// Folds the transition function over a character sequence. A character
/// the transition does not consume is re-examined once against `Blank`
/// (the only state a transition leaves a character to). The column count
/// rises by one for each consumed character; a consumed newline instead
/// resets it to zero and moves to the next line.
pub open spec fn spec_scan(st: StateV, line: nat, col: nat, cs: Seq<char>) -> ScanOutcome
    decreases cs.len(), (if st is Blank { 0int } else { 1int }),
{
    if cs.len() == 0 {
        ScanOutcome { tokens: Seq::empty(), state: st, line, col, error: Option::None }
    } else {
        let step = spec_step(st, cs[0]);
        match step.output {
            Result::Err(k) => ScanOutcome {
                tokens: Seq::empty(),
                state: StateV::Blank,
                line,
                col,
                error: Option::Some(k),
            },
            Result::Ok(em) => {
                if step.consume {
                    let l2: nat = if cs[0] == '\n' { line + 1 } else { line };
                    let c2: nat = if cs[0] == '\n' { 0 } else { col + 1 };
                    let rest = spec_scan(step.state, l2, c2, cs.drop_first());
                    ScanOutcome { tokens: opt_seq(em) + rest.tokens, ..rest }
                } else {
                    let rest = spec_scan(StateV::Blank, line, col, cs);
                    ScanOutcome { tokens: opt_seq(em) + rest.tokens, ..rest }
                }
            },
        }
    }
}

/// What one `scan_line` call produces: `spec_scan` on the line, with a
/// comment still open at the end of the line discarded (a line comment
/// never outlives its line).
pub open spec fn spec_scan_line(st: StateV, line: nat, col: nat, cs: Seq<char>) -> ScanOutcome {
    let o = spec_scan(st, line, col, cs);
    ScanOutcome { state: if o.state is Comment { StateV::Blank } else { o.state }, ..o }
}

/// The scanner: the running token sequence, the position counters, and the
/// machine state carried from one line to the next.
#[derive(Debug)]
pub struct Scanner {
    pub tokens: Vec<TokenType>,
    pub char_index: u64,
    pub line_no: u64,
    pub state: ScannerState,
}

impl Default for Scanner {
    /// A scanner with no tokens, at the origin, ready to classify.
    fn default() -> (s: Scanner)
        ensures
            s.tokens@.len() == 0,
            s.char_index == 0,
            s.line_no == 0,
            s.state_v() is Blank,
    {
        Scanner { tokens: Vec::new(), char_index: 0, line_no: 0, state: ScannerState::Blank }
    }
}

impl Scanner {
    /// The mathematical value of the machine state.
    pub open spec fn state_v(&self) -> StateV {
        self.state@
    }

    /// Scans one line of source text, appending the tokens found to the
    /// running sequence and advancing the position counters; the machine
    /// state survives the call, so a token left open continues on the
    /// next line. Produces exactly what `spec_scan_line` describes; on a
    /// lexical error the tokens already produced are kept and the error
    /// carries the position at which scanning stopped.
    pub fn scan_line(&mut self, line: String) -> (r: Result<(), LexError>)
        requires
            old(self).char_index + line@.len() <= u64::MAX,
            old(self).line_no + line@.len() <= u64::MAX,
        ensures
            ({
                let o = spec_scan_line(
                    old(self).state_v(),
                    old(self).line_no as nat,
                    old(self).char_index as nat,
                    line@,
                );
                &&& toks_view(final(self).tokens@) == toks_view(old(self).tokens@) + o.tokens
                &&& final(self).state_v() == o.state
                &&& final(self).line_no == o.line
                &&& final(self).char_index == o.col
                &&& (match r {
                    Result::Ok(u) => o.error is None,
                    Result::Err(e) => {
                        &&& o.error == Option::Some(e.kind)
                        &&& e.line == o.line
                        &&& e.col == o.col
                    },
                })
            }),
    {
        let cs = chars_of(line.as_str());
        let mut st = ScannerState::Blank;
        core::mem::swap(&mut st, &mut self.state);
        let ghost mut emitted: Seq<Tok> = Seq::empty();
        proof {
            assert(cs@.skip(0) =~= cs@);
            let o = spec_scan(
                old(self).state_v(),
                old(self).line_no as nat,
                old(self).char_index as nat,
                cs@,
            );
            assert(Seq::<Tok>::empty() + o.tokens =~= o.tokens);
            assert(toks_view(self.tokens@) =~= toks_view(old(self).tokens@) + Seq::<Tok>::empty());
        }
        let mut i: usize = 0;
        while i < cs.len()
            invariant
                i <= cs@.len(),
                cs@ == line@,
                old(self).char_index + line@.len() <= u64::MAX,
                old(self).line_no + line@.len() <= u64::MAX,
                self.char_index <= old(self).char_index + i,
                self.line_no <= old(self).line_no + i,
                toks_view(self.tokens@) == toks_view(old(self).tokens@) + emitted,
                ({
                    let o = spec_scan(
                        old(self).state_v(),
                        old(self).line_no as nat,
                        old(self).char_index as nat,
                        cs@,
                    );
                    let cur = spec_scan(
                        st@,
                        self.line_no as nat,
                        self.char_index as nat,
                        cs@.skip(i as int),
                    );
                    &&& o.tokens == emitted + cur.tokens
                    &&& o.state == cur.state
                    &&& o.line == cur.line
                    &&& o.col == cur.col
                    &&& o.error == cur.error
                }),
            decreases cs@.len() - i, (if st@ is Blank { 0int } else { 1int }),
        {
            let c = cs[i];
            proof {
                assert(cs@.skip(i as int)[0] == cs@[i as int]);
                assert(cs@.skip(i as int).drop_first() =~= cs@.skip(i as int + 1));
            }
            let out = use_char(st, c);
            let MachineOutput { consume, output, state: next } = out;
            match output {
                Result::Err(k) => {
                    self.state = ScannerState::Blank;
                    proof {
                        assert(toks_view(self.tokens@) =~= toks_view(old(self).tokens@) + emitted);
                        assert(emitted + Seq::<Tok>::empty() =~= emitted);
                    }
                    return Result::Err(
                        LexError { kind: k, line: self.line_no, col: self.char_index },
                    );
                },
                Result::Ok(Option::Some(t)) => {
                    proof {
                        assert(toks_view(self.tokens@.push(t)) =~= toks_view(self.tokens@)
                            + seq![t@]);
                        assert((toks_view(old(self).tokens@) + emitted) + seq![t@]
                            =~= toks_view(old(self).tokens@) + (emitted + seq![t@]));
                    }
                    self.tokens.push(t);
                    proof {
                        emitted = emitted + seq![t@];
                    }
                },
                Result::Ok(Option::None) => {},
            }
            st = next;
            if matches!(consume, ShouldConsume::Consume) {
                if c == '\n' {
                    self.line_no = self.line_no + 1;
                    self.char_index = 0;
                } else {
                    self.char_index = self.char_index + 1;
                }
                i = i + 1;
            }
            proof {
                let o = spec_scan(
                    old(self).state_v(),
                    old(self).line_no as nat,
                    old(self).char_index as nat,
                    cs@,
                );
                let cur = spec_scan(
                    st@,
                    self.line_no as nat,
                    self.char_index as nat,
                    cs@.skip(i as int),
                );
                assert(o.tokens =~= emitted + cur.tokens);
            }
        }
        proof {
            assert(cs@.skip(cs@.len() as int) =~= Seq::<char>::empty());
            assert(emitted + Seq::<Tok>::empty() =~= emitted);
        }
        match st {
            ScannerState::Comment => {
                self.state = ScannerState::Blank;
            },
            other => {
                self.state = other;
            },
        }
        Result::Ok(())
    }
}


/// Whether `c` is one of the single-character punctuation or operator
/// characters that emit a token directly from the ready state.
pub open spec fn is_single_punct(c: char) -> bool {
    c == '{' || c == '}' || c == '(' || c == ')' || c == ',' || c == '.' || c == ';' || c == '-'
        || c == '+' || c == '*'
}

/// The token a single-character punctuation or operator character emits.
pub open spec fn single_punct_tok(c: char) -> Tok {
    if c == '{' {
        Tok::LeftBrace
    } else if c == '}' {
        Tok::RightBrace
    } else if c == '(' {
        Tok::LeftParan
    } else if c == ')' {
        Tok::RightParan
    } else if c == ',' {
        Tok::Comma
    } else if c == '.' {
        Tok::Dot
    } else if c == ';' {
        Tok::Semicolon
    } else if c == '-' {
        Tok::Minus
    } else if c == '+' {
        Tok::Plus
    } else {
        Tok::Star
    }
}

/// Law: for every single-character punctuation input, scanning it alone
/// from the ready state emits exactly the corresponding token, raises no
/// error, and returns the machine to the ready state.
pub proof fn lemma_single_char_token(c: char, line: nat, col: nat)
    requires
        is_single_punct(c),
    ensures
        ({
            let o = spec_scan_line(StateV::Blank, line, col, seq![c]);
            &&& o.tokens == seq![single_punct_tok(c)]
            &&& o.state is Blank
            &&& o.error is None
        }),
{
    reveal_with_fuel(spec_scan, 2);
    assert(seq![c].drop_first() =~= Seq::<char>::empty());
    let o = spec_scan_line(StateV::Blank, line, col, seq![c]);
    assert(o.tokens =~= seq![single_punct_tok(c)]);
}

/// Law: a `!` waiting in the double-character state, followed by any
/// character other than `=`, emits a single `!` token and hands that
/// character back to the ready state to be classified on its own.
pub proof fn lemma_bang_then_other(c: char, line: nat, col: nat, cs: Seq<char>)
    requires
        c != '=',
        cs.len() > 0,
        cs[0] == c,
    ensures
        ({
            let o = spec_scan(StateV::ExpectingDouble('!'), line, col, cs);
            let rest = spec_scan(StateV::Blank, line, col, cs);
            &&& o.tokens == seq![Tok::Bang] + rest.tokens
            &&& o.state == rest.state
            &&& o.line == rest.line
            &&& o.col == rest.col
            &&& o.error == rest.error
        }),
{
}

/// The tokens, the final state and the error of a scan depend only on the
/// starting state and the text, never on the position counters.
pub proof fn lemma_scan_position_pure(
    st: StateV,
    l1: nat,
    c1: nat,
    l2: nat,
    c2: nat,
    cs: Seq<char>,
)
    ensures
        ({
            let a = spec_scan(st, l1, c1, cs);
            let b = spec_scan(st, l2, c2, cs);
            &&& a.tokens == b.tokens
            &&& a.state == b.state
            &&& a.error == b.error
        }),
    decreases cs.len(), (if st is Blank { 0int } else { 1int }),
{
    if cs.len() == 0 {
    } else {
        let step = spec_step(st, cs[0]);
        match step.output {
            Result::Err(k) => {},
            Result::Ok(em) => {
                if step.consume {
                    if cs[0] == '\n' {
                        lemma_scan_position_pure(
                            step.state,
                            (l1 + 1) as nat,
                            0,
                            (l2 + 1) as nat,
                            0,
                            cs.drop_first(),
                        );
                    } else {
                        lemma_scan_position_pure(
                            step.state,
                            l1,
                            (c1 + 1) as nat,
                            l2,
                            (c2 + 1) as nat,
                            cs.drop_first(),
                        );
                    }
                } else {
                    lemma_scan_position_pure(StateV::Blank, l1, c1, l2, c2, cs);
                }
            },
        }
    }
}

/// Law: scanning is a pure function of the text and the starting machine
/// state. Re-scanning the same line from the same machine state, at
/// whatever position the counters have reached, produces an identical
/// token sequence, the same final state and the same error.
pub proof fn lemma_rescan_identical(
    st: StateV,
    l1: nat,
    c1: nat,
    l2: nat,
    c2: nat,
    cs: Seq<char>,
)
    ensures
        ({
            let a = spec_scan_line(st, l1, c1, cs);
            let b = spec_scan_line(st, l2, c2, cs);
            &&& a.tokens == b.tokens
            &&& a.state == b.state
            &&& a.error == b.error
        }),
{
    lemma_scan_position_pure(st, l1, c1, l2, c2, cs);
}

/// Law: an input consisting solely of spaces and newlines emits no token,
/// raises no error, and leaves the machine in the ready state.
pub proof fn lemma_whitespace_scans_to_nothing(line: nat, col: nat, cs: Seq<char>)
    requires
        forall|i: int| 0 <= i < cs.len() ==> cs[i] == ' ' || cs[i] == '\n',
    ensures
        ({
            let o = spec_scan_line(StateV::Blank, line, col, cs);
            &&& o.tokens == Seq::<Tok>::empty()
            &&& o.state is Blank
            &&& o.error is None
        }),
    decreases cs.len(),
{
    if cs.len() == 0 {
    } else {
        assert(cs[0] == ' ' || cs[0] == '\n');
        assert(forall|i: int|
            0 <= i < cs.drop_first().len() ==> cs.drop_first()[i] == ' ' || cs.drop_first()[i]
                == '\n');
        if cs[0] == '\n' {
            lemma_whitespace_scans_to_nothing((line + 1) as nat, 0, cs.drop_first());
        } else {
            lemma_whitespace_scans_to_nothing(line, (col + 1) as nat, cs.drop_first());
        }
        let o = spec_scan(StateV::Blank, line, col, cs);
        assert(o.tokens =~= Seq::<Tok>::empty());
    }
}


/// Number text under accumulation: nonempty, opened by a digit, extended
/// only by digits and decimal points.
pub open spec fn number_text_wf(s: Seq<char>) -> bool {
    &&& s.len() > 0
    &&& is_digit(s[0])
    &&& (forall|i: int| 0 <= i < s.len() ==> is_digit(s[i]) || s[i] == '.')
}

/// The text a number token may carry: accumulated number text with at
/// most one decimal point — exactly the texts that parse as a
/// 64-bit float.
pub open spec fn valid_number_text(s: Seq<char>) -> bool {
    number_text_wf(s) && dot_count(s) <= 1
}

/// The states reachable from `Blank`: a double-character state only ever
/// holds a seed character, and a number state only ever holds well-formed
/// number text.
pub open spec fn state_wf(st: StateV) -> bool {
    match st {
        StateV::ExpectingDouble(c) => is_double_seed(c),
        StateV::ExpectingNumber(s) => number_text_wf(s),
        _ => true,
    }
}

/// One transition from a reachable state reaches only reachable states,
/// never raises the unmatched-double error, and emits a number token only
/// with valid number text.
pub proof fn lemma_step_wf(st: StateV, x: char)
    requires
        state_wf(st),
    ensures
        ({
            let r = spec_step(st, x);
            &&& state_wf(r.state)
            &&& r.output != Result::<Option<Tok>, LexErrorKind>::Err(LexErrorKind::UnmatchedDouble)
            &&& (r.output matches Result::Ok(Option::Some(Tok::Number(s)))
                ==> valid_number_text(s))
        }),
{
    match st {
        StateV::ExpectingIdentifier(name) => {},
        StateV::ExpectingString(text) => {},
        StateV::ExpectingNumber(num) => {
            if !(x == ' ' || x == '\n') && (is_digit(x) || x == '.') {
                assert(number_text_wf(num.push(x)));
            }
        },
        _ => {},
    }
}

/// Law: from any reachable machine state — the ready state included — a
/// scan never raises the unmatched-double error, ends in a reachable
/// state, and every number token it emits carries valid number text
/// (digits with at most one decimal point, opened by a digit), which a
/// 64-bit float parse accepts.
pub proof fn lemma_scan_number_tokens_wf(st: StateV, line: nat, col: nat, cs: Seq<char>)
    requires
        state_wf(st),
    ensures
        ({
            let o = spec_scan(st, line, col, cs);
            &&& state_wf(o.state)
            &&& o.error != Option::Some(LexErrorKind::UnmatchedDouble)
            &&& (forall|k: int|
                0 <= k < o.tokens.len() ==> (#[trigger] o.tokens[k] matches Tok::Number(s)
                    ==> valid_number_text(s)))
        }),
    decreases cs.len(), (if st is Blank { 0int } else { 1int }),
{
    if cs.len() == 0 {
    } else {
        lemma_step_wf(st, cs[0]);
        let step = spec_step(st, cs[0]);
        match step.output {
            Result::Err(k) => {},
            Result::Ok(em) => {
                let o = spec_scan(st, line, col, cs);
                if step.consume {
                    let l2: nat = if cs[0] == '\n' { line + 1 } else { line };
                    let c2: nat = if cs[0] == '\n' { 0 } else { col + 1 };
                    lemma_scan_number_tokens_wf(step.state, l2, c2, cs.drop_first());
                    let rest = spec_scan(step.state, l2, c2, cs.drop_first());
                    assert forall|k: int|
                        0 <= k < o.tokens.len() implies (#[trigger] o.tokens[k] matches Tok::Number(
                        s,
                    ) ==> valid_number_text(s)) by {
                        if k >= opt_seq(em).len() {
                            assert(o.tokens[k] == rest.tokens[k - opt_seq(em).len()]);
                        }
                    }
                } else {
                    lemma_scan_number_tokens_wf(StateV::Blank, line, col, cs);
                    let rest = spec_scan(StateV::Blank, line, col, cs);
                    assert forall|k: int|
                        0 <= k < o.tokens.len() implies (#[trigger] o.tokens[k] matches Tok::Number(
                        s,
                    ) ==> valid_number_text(s)) by {
                        if k >= opt_seq(em).len() {
                            assert(o.tokens[k] == rest.tokens[k - opt_seq(em).len()]);
                        }
                    }
                }
            },
        }
    }
}

} // verus!
