//! The scanner: a single-pass, restartable-by-reconstruction tokenizer
//! that turns source text into a finite sequence of fallible tokens.
//!
//! The behaviour of one pull is pinned down by [`next_token_spec`], a
//! mathematical tokenizer over the source character sequence, a cursor
//! position and a line counter; [`Scanner::next_token`] is proved to
//! follow it exactly.

use vstd::prelude::*;
use vstd::string::StrSliceExecFns;
use vstd::string::StringExecFns;
use crate::error::Error;
use crate::error::ErrorModel;

verus! {

/// The classification of a lexical unit.
#[derive(Debug, Clone, Copy, PartialEq, Eq, Structural)]
pub enum TokenType {
    // Single-character tokens.
    LeftParen,
    RightParen,
    LeftBrace,
    RightBrace,
    Comma,
    Dot,
    Minus,
    Plus,
    Semicolon,
    Slash,
    Star,
    // One or two character tokens.
    Bang,
    BangEqual,
    Equal,
    EqualEqual,
    Greater,
    GreaterEqual,
    Less,
    LessEqual,
    // Literals.
    Identifier,
    Str,
    Number,
    // Keywords.
    And,
    Class,
    Else,
    False,
    Fun,
    For,
    If,
    Nil,
    Or,
    Print,
    Return,
    Super,
    This,
    True,
    Var,
    While,
}

/// Mathematical image of a [`Token`].
pub struct TokenModel {
    pub id: TokenType,
    pub lexeme: Seq<char>,
    pub line: int,
}

/// A classified lexical unit: its kind, the exact source substring it
/// captured, and the 1-based source line it lies on. Tokens are
/// immutable and produced in source order.
#[derive(Debug, Clone)]
pub struct Token {
    pub id: TokenType,
    pub lexeme: String,
    pub line: usize,
}

impl View for Token {
    type V = TokenModel;

    open spec fn view(&self) -> TokenModel {
        TokenModel { id: self.id, lexeme: self.lexeme@, line: self.line as int }
    }
}

/// ASCII whitespace other than the newline, which the scanner treats
/// separately because it advances the line counter.
pub open spec fn is_space(c: char) -> bool {
    c == ' ' || c == '\t' || c == '\r' || c == '\x0c'
}

/// An ASCII decimal digit.
pub open spec fn is_digit(c: char) -> bool {
    '0' <= c && c <= '9'
}

/// An ASCII letter.
pub open spec fn is_ascii_letter(c: char) -> bool {
    ('a' <= c && c <= 'z') || ('A' <= c && c <= 'Z')
}

/// Whether `c` is alphabetic in the Unicode sense of
/// `char::is_alphabetic`.
pub uninterp spec fn alphabetic(c: char) -> bool;

/// Whether `c` is alphanumeric in the Unicode sense of
/// `char::is_alphanumeric`.
pub uninterp spec fn alphanumeric(c: char) -> bool;

/// Relies on char::is_alphabetic: true exactly on Unicode letters; among
/// the ASCII characters, exactly the letters a-z and A-Z are alphabetic.
#[verifier::external_body]
fn is_alphabetic_char(c: char) -> (r: bool)
    ensures
        r == alphabetic(c),
        (c as u32) < 128 ==> r == is_ascii_letter(c),
{
    c.is_alphabetic()
}

/// Relies on char::is_alphanumeric: true exactly on Unicode letters and
/// numeric characters; among the ASCII characters, exactly the letters
/// and the digits are alphanumeric.
#[verifier::external_body]
fn is_alphanumeric_char(c: char) -> (r: bool)
    ensures
        r == alphanumeric(c),
        (c as u32) < 128 ==> r == (is_ascii_letter(c) || is_digit(c)),
{
    c.is_alphanumeric()
}

/// The index of the first newline at or after `i`, or the input length
/// if the rest of the line runs to the end of input.
pub open spec fn line_end(src: Seq<char>, i: int) -> int
    decreases src.len() - i
        when 0 <= i <= src.len()
{
    if i >= src.len() {
        src.len() as int
    } else if src[i] == '\n' {
        i
    } else {
        line_end(src, i + 1)
    }
}

/// The index of the first closing quote at or after `i`, or the input
/// length if the string is unterminated.
pub open spec fn quote_end(src: Seq<char>, i: int) -> int
    decreases src.len() - i
        when 0 <= i <= src.len()
{
    if i >= src.len() {
        src.len() as int
    } else if src[i] == '"' {
        i
    } else {
        quote_end(src, i + 1)
    }
}

/// The index of the first non-digit at or after `i`: the end of a
/// maximal digit run.
pub open spec fn digits_end(src: Seq<char>, i: int) -> int
    decreases src.len() - i
        when 0 <= i <= src.len()
{
    if i >= src.len() {
        src.len() as int
    } else if is_digit(src[i]) {
        digits_end(src, i + 1)
    } else {
        i
    }
}

/// The index of the first non-alphanumeric character at or after `i`:
/// the end of a maximal identifier run.
pub open spec fn alnum_end(src: Seq<char>, i: int) -> int
    decreases src.len() - i
        when 0 <= i <= src.len()
{
    if i >= src.len() {
        src.len() as int
    } else if alphanumeric(src[i]) {
        alnum_end(src, i + 1)
    } else {
        i
    }
}

/// How many newlines lie in `src[from..to]`.
pub open spec fn count_newlines(src: Seq<char>, from: int, to: int) -> int
    decreases to - from
        when from <= to
{
    if from >= to {
        0
    } else if 0 <= from < src.len() && src[from] == '\n' {
        1 + count_newlines(src, from + 1, to)
    } else {
        count_newlines(src, from + 1, to)
    }
}

pub proof fn lemma_line_end_bounds(src: Seq<char>, i: int)
    requires
        0 <= i <= src.len(),
    ensures
        i <= line_end(src, i) <= src.len(),
    decreases src.len() - i,
{
    if i < src.len() && src[i] != '\n' {
        lemma_line_end_bounds(src, i + 1);
    }
}

pub proof fn lemma_quote_end_bounds(src: Seq<char>, i: int)
    requires
        0 <= i <= src.len(),
    ensures
        i <= quote_end(src, i) <= src.len(),
        quote_end(src, i) < src.len() ==> src[quote_end(src, i)] == '"',
    decreases src.len() - i,
{
    if i < src.len() && src[i] != '"' {
        lemma_quote_end_bounds(src, i + 1);
    }
}

pub proof fn lemma_digits_end_bounds(src: Seq<char>, i: int)
    requires
        0 <= i <= src.len(),
    ensures
        i <= digits_end(src, i) <= src.len(),
    decreases src.len() - i,
{
    if i < src.len() && is_digit(src[i]) {
        lemma_digits_end_bounds(src, i + 1);
    }
}

pub proof fn lemma_alnum_end_bounds(src: Seq<char>, i: int)
    requires
        0 <= i <= src.len(),
    ensures
        i <= alnum_end(src, i) <= src.len(),
    decreases src.len() - i,
{
    if i < src.len() && alphanumeric(src[i]) {
        lemma_alnum_end_bounds(src, i + 1);
    }
}

pub proof fn lemma_count_newlines_bounds(src: Seq<char>, from: int, to: int)
    requires
        from <= to,
    ensures
        0 <= count_newlines(src, from, to) <= to - from,
    decreases to - from,
{
    if from < to {
        lemma_count_newlines_bounds(src, from + 1, to);
    }
}

/// Extending the counted range by one character on the right adds one
/// exactly when that character is a newline.
pub proof fn lemma_count_newlines_snoc(src: Seq<char>, from: int, to: int)
    requires
        from <= to,
        0 <= to < src.len(),
    ensures
        count_newlines(src, from, to + 1) == count_newlines(src, from, to) + (
        if src[to] == '\n' {
            1int
        } else {
            0int
        }),
    decreases to - from,
{
    if from < to {
        lemma_count_newlines_snoc(src, from + 1, to);
    } else {
        assert(count_newlines(src, to + 1, to + 1) == 0);
    }
}

/// The keyword a lexeme spells, if any; unmatched lexemes are
/// identifiers. The comparison is case-sensitive.
pub open spec fn keyword_type(lex: Seq<char>) -> TokenType {
    if lex == "and"@ {
        TokenType::And
    } else if lex == "class"@ {
        TokenType::Class
    } else if lex == "else"@ {
        TokenType::Else
    } else if lex == "false"@ {
        TokenType::False
    } else if lex == "for"@ {
        TokenType::For
    } else if lex == "fun"@ {
        TokenType::Fun
    } else if lex == "if"@ {
        TokenType::If
    } else if lex == "nil"@ {
        TokenType::Nil
    } else if lex == "or"@ {
        TokenType::Or
    } else if lex == "print"@ {
        TokenType::Print
    } else if lex == "return"@ {
        TokenType::Return
    } else if lex == "super"@ {
        TokenType::Super
    } else if lex == "this"@ {
        TokenType::This
    } else if lex == "true"@ {
        TokenType::True
    } else if lex == "var"@ {
        TokenType::Var
    } else if lex == "while"@ {
        TokenType::While
    } else {
        TokenType::Identifier
    }
}

/// What one pull of the scanner does from a given cursor: the produced
/// item, if any, and the cursor and line counter after the pull.
pub struct ScanStep {
    pub res: Option<Result<TokenModel, ErrorModel>>,
    pub pos: int,
    pub line: int,
}

/// Builds the step for a token spanning `src[start..end]`.
pub open spec fn token_step(src: Seq<char>, start: int, end: int, line: int, id: TokenType) -> ScanStep {
    ScanStep {
        res: Some(Ok(TokenModel { id, lexeme: src.subrange(start, end), line })),
        pos: end,
        line,
    }
}

/// One pull of the scanner from position `pos` on line `line`: skips
/// whitespace and comments (newlines advance the line counter), then
/// classifies the next character. `res` is `None` at end of input, a
/// token on success, and a diagnostic on an unterminated string or an
/// unexpected character. Opaque: proofs unfold it by `reveal` where they
/// need one step of it.
#[verifier::opaque]
pub open spec fn next_token_spec(src: Seq<char>, pos: int, line: int) -> ScanStep
    decreases src.len() - pos
        when 0 <= pos <= src.len()
{
    if pos >= src.len() {
        ScanStep { res: None, pos: src.len() as int, line }
    } else {
        let c = src[pos];
        if c == '\n' {
            next_token_spec(src, pos + 1, line + 1)
        } else if is_space(c) {
            next_token_spec(src, pos + 1, line)
        } else if c == '(' {
            token_step(src, pos, pos + 1, line, TokenType::LeftParen)
        } else if c == ')' {
            token_step(src, pos, pos + 1, line, TokenType::RightParen)
        } else if c == '{' {
            token_step(src, pos, pos + 1, line, TokenType::LeftBrace)
        } else if c == '}' {
            token_step(src, pos, pos + 1, line, TokenType::RightBrace)
        } else if c == ',' {
            token_step(src, pos, pos + 1, line, TokenType::Comma)
        } else if c == '.' {
            token_step(src, pos, pos + 1, line, TokenType::Dot)
        } else if c == '-' {
            token_step(src, pos, pos + 1, line, TokenType::Minus)
        } else if c == '+' {
            token_step(src, pos, pos + 1, line, TokenType::Plus)
        } else if c == ';' {
            token_step(src, pos, pos + 1, line, TokenType::Semicolon)
        } else if c == '*' {
            token_step(src, pos, pos + 1, line, TokenType::Star)
        } else if c == '!' {
            if pos + 1 < src.len() && src[pos + 1] == '=' {
                token_step(src, pos, pos + 2, line, TokenType::BangEqual)
            } else {
                token_step(src, pos, pos + 1, line, TokenType::Bang)
            }
        } else if c == '=' {
            if pos + 1 < src.len() && src[pos + 1] == '=' {
                token_step(src, pos, pos + 2, line, TokenType::EqualEqual)
            } else {
                token_step(src, pos, pos + 1, line, TokenType::Equal)
            }
        } else if c == '<' {
            if pos + 1 < src.len() && src[pos + 1] == '=' {
                token_step(src, pos, pos + 2, line, TokenType::LessEqual)
            } else {
                token_step(src, pos, pos + 1, line, TokenType::Less)
            }
        } else if c == '>' {
            if pos + 1 < src.len() && src[pos + 1] == '=' {
                token_step(src, pos, pos + 2, line, TokenType::GreaterEqual)
            } else {
                token_step(src, pos, pos + 1, line, TokenType::Greater)
            }
        } else if c == '/' {
            if pos + 1 < src.len() && src[pos + 1] == '/' {
                // A line comment runs through, but not including, the
                // next newline; scanning resumes after it.
                proof {
                    lemma_line_end_bounds(src, pos + 2);
                }
                next_token_spec(src, line_end(src, pos + 2), line)
            } else {
                token_step(src, pos, pos + 1, line, TokenType::Slash)
            }
        } else if c == '"' {
            let q = quote_end(src, pos + 1);
            if q < src.len() {
                // Every newline inside the string advances the line
                // counter; the lexeme keeps both quote characters.
                let nl = line + count_newlines(src, pos + 1, q);
                ScanStep {
                    res: Some(
                        Ok(TokenModel { id: TokenType::Str, lexeme: src.subrange(pos, q + 1), line: nl }),
                    ),
                    pos: q + 1,
                    line: nl,
                }
            } else {
                // the diagnostic cites the line the string began on,
                // while the cursor's line counter still advances over
                // the newlines it scanned through
                let nl = line + count_newlines(src, pos + 1, src.len() as int);
                ScanStep {
                    res: Some(
                        Err(ErrorModel { line: line as nat, location: ""@, message: "Unterminated string"@ }),
                    ),
                    pos: src.len() as int,
                    line: nl,
                }
            }
        } else if is_digit(c) {
            let end = number_end(src, pos + 1);
            token_step(src, pos, end, line, TokenType::Number)
        } else if alphabetic(c) {
            let end = alnum_end(src, pos + 1);
            token_step(src, pos, end, line, keyword_type(src.subrange(pos, end)))
        } else {
            ScanStep {
                res: Some(
                    Err(
                        ErrorModel {
                            line: line as nat,
                            location: ""@,
                            message: "Unexpected token: "@ + seq![c] + " "@,
                        },
                    ),
                ),
                pos: pos + 1,
                line,
            }
        }
    }
}

/// Where a number token ends, given the index `i` just after its first
/// digit: a maximal digit run, then a fractional part only when a `.` is
/// directly followed by a digit (a trailing `.` is left to the next
/// token).
pub open spec fn number_end(src: Seq<char>, i: int) -> int {
    let d1 = digits_end(src, i);
    if d1 < src.len() && src[d1] == '.' && d1 + 1 < src.len() && is_digit(src[d1 + 1]) {
        digits_end(src, d1 + 2)
    } else {
        d1
    }
}

/// Every pull lands inside the input, never moves backwards, consumes at
/// least one character whenever it produces an item, and never lowers
/// the line counter.
pub proof fn lemma_next_token_progress(src: Seq<char>, pos: int, line: int)
    requires
        0 <= pos <= src.len(),
    ensures
        pos <= next_token_spec(src, pos, line).pos <= src.len(),
        next_token_spec(src, pos, line).res is Some ==> next_token_spec(src, pos, line).pos > pos,
        next_token_spec(src, pos, line).line >= line,
    decreases src.len() - pos,
{
    reveal(next_token_spec);
    if pos < src.len() {
        let c = src[pos];
        if c == '\n' {
            lemma_next_token_progress(src, pos + 1, line + 1);
        } else if is_space(c) {
            lemma_next_token_progress(src, pos + 1, line);
        } else if c == '/' && pos + 1 < src.len() && src[pos + 1] == '/' {
            lemma_line_end_bounds(src, pos + 2);
            lemma_next_token_progress(src, line_end(src, pos + 2), line);
        } else if c == '"' {
            lemma_quote_end_bounds(src, pos + 1);
            lemma_count_newlines_bounds(src, pos + 1, quote_end(src, pos + 1));
            lemma_count_newlines_bounds(src, pos + 1, src.len() as int);
        } else if is_digit(c) {
            lemma_digits_end_bounds(src, pos + 1);
            let d1 = digits_end(src, pos + 1);
            if d1 < src.len() && src[d1] == '.' && d1 + 1 < src.len() && is_digit(src[d1 + 1]) {
                lemma_digits_end_bounds(src, d1 + 2);
            }
        } else if alphabetic(c) {
            lemma_alnum_end_bounds(src, pos + 1);
        }
    }
}

} // verus!

verus! {

/// Lifts an executable scan result to its mathematical image.
pub open spec fn scan_res_model(r: Option<Result<Token, Error>>) -> Option<
    Result<TokenModel, ErrorModel>,
> {
    match r {
        None => None,
        Some(Ok(t)) => Some(Ok(t@)),
        Some(Err(e)) => Some(Err(e@)),
    }
}

fn is_space_char(c: char) -> (r: bool)
    ensures
        r == is_space(c),
{
    c == ' ' || c == '\t' || c == '\r' || c == '\x0c'
}

fn is_digit_char(c: char) -> (r: bool)
    ensures
        r == is_digit(c),
{
    '0' <= c && c <= '9'
}

/// The cursor of the scanner: where the current lexeme begins and where
/// the next unconsumed character stands. It is a small value type, so
/// saving and restoring it makes lookahead cost-free.
#[derive(Debug, Clone, Copy)]
pub struct Pos {
    start: usize,
    current: usize,
}

impl Pos {
    /// Where the current lexeme begins.
    pub closed spec fn spec_start(&self) -> int {
        self.start as int
    }

    /// The position of the next unconsumed character.
    pub closed spec fn spec_current(&self) -> int {
        self.current as int
    }

    /// A fresh cursor at the beginning of the input.
    pub fn new() -> (p: Pos)
        ensures
            p.spec_start() == 0,
            p.spec_current() == 0,
    {
        Pos { start: 0, current: 0 }
    }

    /// Begins a new lexeme at the current position.
    pub fn sync(&mut self)
        ensures
            final(self).spec_start() == old(self).spec_current(),
            final(self).spec_current() == old(self).spec_current(),
    {
        self.start = self.current;
    }

    /// The half-open bounds of the current lexeme.
    pub fn cur_lexm(&self) -> (r: (usize, usize))
        ensures
            r.0 == self.spec_start(),
            r.1 == self.spec_current(),
    {
        (self.start, self.current)
    }

    /// The position of the next unconsumed character.
    pub fn cur_pos(&self) -> (r: usize)
        ensures
            r == self.spec_current(),
    {
        self.current
    }
}

/// The scanner: cursor and line state over an in-memory source text.
/// Each pull is independent except for cursor advancement; an error does
/// not poison the scanner.
#[derive(Debug)]
pub struct Scanner {
    location: Pos,
    source: String,
    line: usize,
    chars: usize,
}

impl Scanner {
    /// The source text being scanned.
    pub closed spec fn src(&self) -> Seq<char> {
        self.source@
    }

    /// The position of the next unconsumed character.
    pub closed spec fn pos(&self) -> int {
        self.location.spec_current()
    }

    /// Where the current lexeme begins.
    pub closed spec fn lex_start(&self) -> int {
        self.location.spec_start()
    }

    /// The current 1-based line number.
    pub closed spec fn line_no(&self) -> int {
        self.line as int
    }

    /// The cached character count agrees with the input's length.
    pub closed spec fn cache_ok(&self) -> bool {
        self.chars as int == self.src().len()
    }

    /// Internal consistency: the cursor lies inside the input, the
    /// cached character count is the input's length, and the line
    /// counter stays small enough that it can never overflow.
    pub open spec fn wf(&self) -> bool {
        &&& 0 <= self.lex_start() <= self.pos() <= self.src().len()
        &&& self.src().len() < usize::MAX as int
        &&& 1 <= self.line_no() <= self.pos() + 1
        &&& self.cache_ok()
    }

    /// A scanner over `source`, at its beginning, on line 1. The length
    /// bound is a machine limit: it keeps cursor and line counter within
    /// `usize`.
    pub fn new(source: &str) -> (s: Scanner)
        requires
            source@.len() < usize::MAX as int,
        ensures
            s.wf(),
            s.src() == source@,
            s.pos() == 0,
            s.lex_start() == 0,
            s.line_no() == 1,
    {
        let chars = source.unicode_len();
        Scanner { location: Pos::new(), source: String::from_str(source), line: 1, chars }
    }

    /// Whether the whole input has been consumed.
    pub fn is_at_end(&self) -> (r: bool)
        requires
            self.wf(),
        ensures
            r == (self.pos() >= self.src().len()),
    {
        self.location.cur_pos() >= self.chars
    }

    /// Consumes and returns the next character, if any is left.
    pub fn advance(&mut self) -> (r: Option<char>)
        requires
            old(self).wf(),
        ensures
            final(self).wf(),
            final(self).src() == old(self).src(),
            final(self).lex_start() == old(self).lex_start(),
            final(self).line_no() == old(self).line_no(),
            old(self).pos() < old(self).src().len() ==> {
                &&& r == Some(old(self).src()[old(self).pos()])
                &&& final(self).pos() == old(self).pos() + 1
            },
            old(self).pos() >= old(self).src().len() ==> {
                &&& r is None
                &&& final(self).pos() == old(self).pos()
            },
    {
        if self.location.cur_pos() < self.chars {
            let c = self.source.as_str().get_char(self.location.cur_pos());
            self.location.current = self.location.current + 1;
            Some(c)
        } else {
            None
        }
    }

    /// Builds a token of kind `id` out of the current lexeme, on the
    /// current line.
    pub fn make_token(&self, id: TokenType) -> (t: Token)
        requires
            self.wf(),
        ensures
            t@ == (TokenModel {
                id,
                lexeme: self.src().subrange(self.lex_start(), self.pos()),
                line: self.line_no(),
            }),
    {
        let (from, to) = self.location.cur_lexm();
        let lex = self.source.as_str().substring_char(from, to);
        Token { id, lexeme: String::from_str(lex), line: self.line }
    }

    /// Scans the remainder of a string literal, the opening quote
    /// already consumed: runs to the closing quote, counting embedded
    /// newlines into the line counter, and fails with an unterminated
    /// string diagnostic when the input ends first, citing the line the
    /// string began on.
    pub fn string(&mut self) -> (r: Option<Result<Token, Error>>)
        requires
            old(self).wf(),
            old(self).lex_start() == old(self).pos() - 1,
        ensures
            final(self).wf(),
            final(self).src() == old(self).src(),
            ({
                let src = old(self).src();
                let p = old(self).pos();
                let q = quote_end(src, p);
                if q < src.len() {
                    let nl = old(self).line_no() + count_newlines(src, p, q);
                    &&& final(self).pos() == q + 1
                    &&& final(self).line_no() == nl
                    &&& scan_res_model(r) == Some(
                        Ok::<TokenModel, ErrorModel>(
                            TokenModel {
                                id: TokenType::Str,
                                lexeme: src.subrange(p - 1, q + 1),
                                line: nl,
                            },
                        ),
                    )
                } else {
                    let nl = old(self).line_no() + count_newlines(src, p, src.len() as int);
                    &&& final(self).pos() == src.len()
                    &&& final(self).line_no() == nl
                    &&& scan_res_model(r) == Some(
                        Err::<TokenModel, ErrorModel>(
                            ErrorModel {
                                line: old(self).line_no() as nat,
                                location: ""@,
                                message: "Unterminated string"@,
                            },
                        ),
                    )
                }
            }),
    {
        let ghost src = self.source@;
        let ghost p0 = self.pos();
        let ghost l0 = self.line_no();
        let opening_line = self.line;
        loop
            invariant
                self.wf(),
                self.src() == src,
                self.lex_start() == p0 - 1,
                p0 <= self.pos() <= src.len(),
                opening_line as int == l0,
                quote_end(src, p0) == quote_end(src, self.pos()),
                self.line_no() == l0 + count_newlines(src, p0, self.pos()),
            ensures
                self.pos() >= src.len() || src[self.pos()] == '"',
            decreases src.len() - self.pos(),
        {
            if self.location.cur_pos() >= self.chars {
                break;
            }
            let c = self.source.as_str().get_char(self.location.cur_pos());
            if c == '"' {
                break;
            }
            proof {
                lemma_count_newlines_snoc(src, p0, self.pos());
            }
            if c == '\n' {
                proof {
                    lemma_count_newlines_bounds(src, p0, self.pos());
                }
                self.line = self.line + 1;
            }
            self.location.current = self.location.current + 1;
        }
        proof {
            lemma_quote_end_bounds(src, p0);
        }
        if self.is_at_end() {
            let e = Error::new("Unterminated string", "", opening_line);
            return Some(Err(e));
        }
        // the closing '"'
        self.location.current = self.location.current + 1;
        Some(Ok(self.make_token(TokenType::Str)))
    }

    /// Scans the remainder of a number literal, its first digit already
    /// consumed: a maximal digit run, then a fractional part only when a
    /// `.` is directly followed by a digit.
    pub fn number(&mut self) -> (r: Option<Result<Token, Error>>)
        requires
            old(self).wf(),
            old(self).lex_start() == old(self).pos() - 1,
        ensures
            final(self).wf(),
            final(self).src() == old(self).src(),
            final(self).line_no() == old(self).line_no(),
            final(self).pos() == number_end(old(self).src(), old(self).pos()),
            scan_res_model(r) == Some(
                Ok::<TokenModel, ErrorModel>(
                    TokenModel {
                        id: TokenType::Number,
                        lexeme: old(self).src().subrange(
                            old(self).pos() - 1,
                            number_end(old(self).src(), old(self).pos()),
                        ),
                        line: old(self).line_no(),
                    },
                ),
            ),
    {
        let ghost src = self.source@;
        let ghost p0 = self.pos();
        while self.location.cur_pos() < self.chars && is_digit_char(
            self.source.as_str().get_char(self.location.cur_pos()),
        )
            invariant
                self.wf(),
                self.src() == src,
                self.lex_start() == p0 - 1,
                self.line_no() == old(self).line_no(),
                p0 <= self.pos() <= src.len(),
                digits_end(src, p0) == digits_end(src, self.pos()),
            decreases src.len() - self.pos(),
        {
            self.location.current = self.location.current + 1;
        }
        proof {
            assert(digits_end(src, self.pos()) == self.pos());
        }
        let d1 = self.location.cur_pos();
        if d1 < self.chars && self.source.as_str().get_char(d1) == '.' && d1 + 1 < self.chars
            && is_digit_char(self.source.as_str().get_char(d1 + 1)) {
            // consume the '.'
            self.location.current = self.location.current + 1;
            while self.location.cur_pos() < self.chars && is_digit_char(
                self.source.as_str().get_char(self.location.cur_pos()),
            )
                invariant
                    self.wf(),
                    self.src() == src,
                    self.lex_start() == p0 - 1,
                    self.line_no() == old(self).line_no(),
                    d1 + 1 <= self.pos() <= src.len(),
                    digits_end(src, d1 + 1) == digits_end(src, self.pos()),
                decreases src.len() - self.pos(),
            {
                self.location.current = self.location.current + 1;
            }
            proof {
                assert(digits_end(src, self.pos()) == self.pos());
            }
        }
        Some(Ok(self.make_token(TokenType::Number)))
    }
}

} // verus!

verus! {

fn keyword_lookup(lex: &str) -> (t: TokenType)
    ensures
        t == keyword_type(lex@),
{
    let s = String::from_str(lex);
    if s == String::from_str("and") {
        TokenType::And
    } else if s == String::from_str("class") {
        TokenType::Class
    } else if s == String::from_str("else") {
        TokenType::Else
    } else if s == String::from_str("false") {
        TokenType::False
    } else if s == String::from_str("for") {
        TokenType::For
    } else if s == String::from_str("fun") {
        TokenType::Fun
    } else if s == String::from_str("if") {
        TokenType::If
    } else if s == String::from_str("nil") {
        TokenType::Nil
    } else if s == String::from_str("or") {
        TokenType::Or
    } else if s == String::from_str("print") {
        TokenType::Print
    } else if s == String::from_str("return") {
        TokenType::Return
    } else if s == String::from_str("super") {
        TokenType::Super
    } else if s == String::from_str("this") {
        TokenType::This
    } else if s == String::from_str("true") {
        TokenType::True
    } else if s == String::from_str("var") {
        TokenType::Var
    } else if s == String::from_str("while") {
        TokenType::While
    } else {
        TokenType::Identifier
    }
}

impl Scanner {
    /// Scans the remainder of an identifier or keyword, its first
    /// character already consumed: a maximal alphanumeric run, compared
    /// case-sensitively against the fixed keyword set.
    fn identifier(&mut self) -> (r: Option<Result<Token, Error>>)
        requires
            old(self).wf(),
            old(self).lex_start() == old(self).pos() - 1,
        ensures
            final(self).wf(),
            final(self).src() == old(self).src(),
            final(self).line_no() == old(self).line_no(),
            final(self).pos() == alnum_end(old(self).src(), old(self).pos()),
            ({
                let src = old(self).src();
                let lex = src.subrange(old(self).pos() - 1, alnum_end(src, old(self).pos()));
                scan_res_model(r) == Some(
                    Ok::<TokenModel, ErrorModel>(
                        TokenModel { id: keyword_type(lex), lexeme: lex, line: old(self).line_no() },
                    ),
                )
            }),
    {
        let ghost src = self.source@;
        let ghost p0 = self.pos();
        while self.location.cur_pos() < self.chars && is_alphanumeric_char(
            self.source.as_str().get_char(self.location.cur_pos()),
        )
            invariant
                self.wf(),
                self.src() == src,
                self.lex_start() == p0 - 1,
                self.line_no() == old(self).line_no(),
                p0 <= self.pos() <= src.len(),
                alnum_end(src, p0) == alnum_end(src, self.pos()),
            decreases src.len() - self.pos(),
        {
            self.location.current = self.location.current + 1;
        }
        proof {
            assert(alnum_end(src, self.pos()) == self.pos());
        }
        let (from, to) = self.location.cur_lexm();
        let lex = self.source.as_str().substring_char(from, to);
        let id = keyword_lookup(lex);
        Some(Ok(self.make_token(id)))
    }

    /// One pull of the scanner: skips whitespace and comments, then
    /// produces the next token, a diagnostic, or nothing at end of
    /// input, exactly as [`next_token_spec`] says.
    pub fn next_token(&mut self) -> (r: Option<Result<Token, Error>>)
        requires
            old(self).wf(),
        ensures
            final(self).wf(),
            final(self).src() == old(self).src(),
            ({
                let step = next_token_spec(old(self).src(), old(self).pos(), old(self).line_no());
                &&& final(self).pos() == step.pos
                &&& final(self).line_no() == step.line
                &&& scan_res_model(r) == step.res
            }),
    {
        let ghost src = self.source@;
        let ghost p0 = self.pos();
        let ghost l0 = self.line_no();
        loop
            invariant
                self.wf(),
                self.src() == src,
                src == old(self).src(),
                p0 == old(self).pos(),
                l0 == old(self).line_no(),
                next_token_spec(src, self.pos(), self.line_no()) == next_token_spec(src, p0, l0),
            decreases src.len() - self.pos(),
        {
            let ghost head_pos = self.pos();
            proof {
                reveal(next_token_spec);
            }
            // skip whitespace; each newline advances the line counter
            while self.location.cur_pos() < self.chars
                invariant
                    self.wf(),
                    self.src() == src,
                    head_pos <= self.pos(),
                    next_token_spec(src, self.pos(), self.line_no()) == next_token_spec(
                        src,
                        p0,
                        l0,
                    ),
                ensures
                    self.pos() >= src.len() || (src[self.pos()] != '\n' && !is_space(
                        src[self.pos()],
                    )),
                decreases src.len() - self.pos(),
            {
                proof {
                    reveal(next_token_spec);
                }
                let c = self.source.as_str().get_char(self.location.cur_pos());
                if c == '\n' {
                    self.line = self.line + 1;
                    self.location.current = self.location.current + 1;
                } else if is_space_char(c) {
                    self.location.current = self.location.current + 1;
                } else {
                    break;
                }
            }
            proof {
                reveal(next_token_spec);
            }
            if self.is_at_end() {
                return None;
            }
            let ghost dpos = self.pos();
            let ghost dline = self.line_no();
            self.location.sync();
            let c_opt = self.advance();
            let c = match c_opt {
                Some(ch) => ch,
                None => {
                    return None;
                },
            };
            if c == '(' {
                return Some(Ok(self.make_token(TokenType::LeftParen)));
            } else if c == ')' {
                return Some(Ok(self.make_token(TokenType::RightParen)));
            } else if c == '{' {
                return Some(Ok(self.make_token(TokenType::LeftBrace)));
            } else if c == '}' {
                return Some(Ok(self.make_token(TokenType::RightBrace)));
            } else if c == ',' {
                return Some(Ok(self.make_token(TokenType::Comma)));
            } else if c == '.' {
                return Some(Ok(self.make_token(TokenType::Dot)));
            } else if c == '-' {
                return Some(Ok(self.make_token(TokenType::Minus)));
            } else if c == '+' {
                return Some(Ok(self.make_token(TokenType::Plus)));
            } else if c == ';' {
                return Some(Ok(self.make_token(TokenType::Semicolon)));
            } else if c == '*' {
                return Some(Ok(self.make_token(TokenType::Star)));
            } else if c == '!' {
                if self.location.cur_pos() < self.chars && self.source.as_str().get_char(
                    self.location.cur_pos(),
                ) == '=' {
                    // consume the '='
                    let _ = self.advance();
                    return Some(Ok(self.make_token(TokenType::BangEqual)));
                }
                return Some(Ok(self.make_token(TokenType::Bang)));
            } else if c == '=' {
                if self.location.cur_pos() < self.chars && self.source.as_str().get_char(
                    self.location.cur_pos(),
                ) == '=' {
                    // consume the '='
                    let _ = self.advance();
                    return Some(Ok(self.make_token(TokenType::EqualEqual)));
                }
                return Some(Ok(self.make_token(TokenType::Equal)));
            } else if c == '<' {
                if self.location.cur_pos() < self.chars && self.source.as_str().get_char(
                    self.location.cur_pos(),
                ) == '=' {
                    // consume the '='
                    let _ = self.advance();
                    return Some(Ok(self.make_token(TokenType::LessEqual)));
                }
                return Some(Ok(self.make_token(TokenType::Less)));
            } else if c == '>' {
                if self.location.cur_pos() < self.chars && self.source.as_str().get_char(
                    self.location.cur_pos(),
                ) == '=' {
                    // consume the '='
                    let _ = self.advance();
                    return Some(Ok(self.make_token(TokenType::GreaterEqual)));
                }
                return Some(Ok(self.make_token(TokenType::Greater)));
            } else if c == '/' {
                if self.location.cur_pos() < self.chars && self.source.as_str().get_char(
                    self.location.cur_pos(),
                ) == '/' {
                    // consume the second '/', then run the comment
                    // through, but not including, the next newline
                    let _ = self.advance();
                    while self.location.cur_pos() < self.chars && self.source.as_str().get_char(
                        self.location.cur_pos(),
                    ) != '\n'
                        invariant
                            self.wf(),
                            self.src() == src,
                            self.line_no() == dline,
                            dpos + 2 <= self.pos() <= src.len(),
                            line_end(src, dpos + 2) == line_end(src, self.pos()),
                        decreases src.len() - self.pos(),
                    {
                        self.location.current = self.location.current + 1;
                    }
                    proof {
                        reveal(next_token_spec);
                        assert(line_end(src, self.pos()) == self.pos());
                    }
                    continue;
                }
                return Some(Ok(self.make_token(TokenType::Slash)));
            } else if c == '"' {
                return self.string();
            } else if is_digit_char(c) {
                return self.number();
            } else if is_alphabetic_char(c) {
                return self.identifier();
            } else {
                let mut m = String::from_str("Unexpected token: ");
                let (from, to) = self.location.cur_lexm();
                let cs = self.source.as_str().substring_char(from, to);
                m.append(cs);
                m.append(" ");
                let e = Error::new(m.as_str(), "", self.line);
                proof {
                    assert(src.subrange(dpos, dpos + 1) =~= seq![src[dpos]]);
                    assert(m@ =~= "Unexpected token: "@ + seq![src[dpos]] + " "@);
                }
                return Some(Err(e));
            }
        }
    }
}

} // verus!

verus! {

impl Scanner {
    /// The 1-based line the scanner currently stands on.
    pub fn current_line(&self) -> (l: usize)
        ensures
            l as int == self.line_no(),
    {
        self.line
    }

    /// One-token lookahead: produces what the next pull would produce,
    /// with the cursor and line counter left where they were. Peeking at
    /// an error-producing scan surfaces the error without consuming it.
    pub fn peek_token(&mut self) -> (r: Option<Result<Token, Error>>)
        requires
            old(self).wf(),
        ensures
            final(self).wf(),
            final(self).src() == old(self).src(),
            final(self).pos() == old(self).pos(),
            final(self).lex_start() == old(self).lex_start(),
            final(self).line_no() == old(self).line_no(),
            scan_res_model(r) == next_token_spec(
                old(self).src(),
                old(self).pos(),
                old(self).line_no(),
            ).res,
    {
        let saved_location = self.location;
        let saved_line = self.line;
        let r = self.next_token();
        self.location = saved_location;
        self.line = saved_line;
        r
    }
}

/// A string token always keeps both of its quote characters, so its
/// lexeme has at least two characters.
pub proof fn lemma_str_token_lexeme(src: Seq<char>, pos: int, line: int)
    requires
        0 <= pos <= src.len(),
    ensures
        (match next_token_spec(src, pos, line).res {
            Some(Ok(t)) => t.id == TokenType::Str ==> 2 <= t.lexeme.len(),
            _ => true,
        }),
    decreases src.len() - pos,
{
    reveal(next_token_spec);
    if pos < src.len() {
        let c = src[pos];
        if c == '\n' {
            lemma_str_token_lexeme(src, pos + 1, line + 1);
        } else if is_space(c) {
            lemma_str_token_lexeme(src, pos + 1, line);
        } else if c == '/' && pos + 1 < src.len() && src[pos + 1] == '/' {
            lemma_line_end_bounds(src, pos + 2);
            lemma_str_token_lexeme(src, line_end(src, pos + 2), line);
        } else if c == '"' {
            lemma_quote_end_bounds(src, pos + 1);
        }
    }
}

} // verus!
