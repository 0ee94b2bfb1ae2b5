//! A hand-written lexer that splits source text into operator, number and
//! word tokens.
//!
//! The lexer reads characters by their index and stops when its position
//! reaches the *byte* length of the text. On text that is not ASCII the two
//! measures differ, and reading a character index past the last character
//! (while still short of the byte length) is a fault: such inputs are left
//! out by the `requires` clauses of `next_token` and `tokenize`, in the shape
//! `!(... is Crash)`, and `tokenize_source` answers `None` on them.

use vstd::prelude::*;
use vstd::string::StrSliceExecFns;

use crate::text::{
    char_is_alphabetic, char_is_decimal_digit, char_is_whitespace, is_decimal_digit, string_byte_len,
    string_push, unicode_alphabetic, unicode_white_space, utf8_len,
};

verus! {

broadcast use vstd::string::group_string_axioms;

/// Why lexing stopped.
#[derive(Debug, Clone, Copy, PartialEq, Eq, Structural)]
pub enum LexError {
    /// A character was needed past the end of the text.
    NoMoreCharacter,
    /// The next character starts no token.
    NotATokenCharacter,
}

impl LexError {
    /// The message that reports the error.
    pub fn message(&self) -> (res: &'static str)
        ensures
            res@ == lex_error_message(*self),
    {
        match self {
            LexError::NoMoreCharacter => "No more character",
            LexError::NotATokenCharacter => "Not a character for tokens",
        }
    }
}

/// The message of each error.
pub open spec fn lex_error_message(e: LexError) -> Seq<char> {
    match e {
        LexError::NoMoreCharacter => "No more character"@,
        LexError::NotATokenCharacter => "Not a character for tokens"@,
    }
}

/// What reading the character at a position gives.
pub enum Peek {
    /// The character there.
    Char(char),
    /// The position is at or past the byte length: the text is over.
    End,
    /// The position is short of the byte length but past the last character.
    Missing,
}

/// The outcome of a lexing step that starts at some position.
pub enum Scan<T> {
    /// It produced a value and left the lexer at the position.
    Done(T, int),
    /// It stopped with an error, the lexer being at the position.
    Fail(LexError, int),
    /// It reads a character index that does not exist.
    Crash,
}

/// A token as a pair of its kind and its value.
pub type TokenModel = (Seq<char>, Seq<char>);

/// The character that the lexer reads at `pos`.
pub open spec fn peek(text: Seq<char>, pos: int) -> Peek {
    if utf8_len(text) <= pos {
        Peek::End
    } else if text.len() <= pos {
        Peek::Missing
    } else {
        Peek::Char(text[pos])
    }
}

/// The characters that start an operator token.
pub open spec fn is_operator(c: char) -> bool {
    c == '+' || c == '-' || c == '*' || c == '/' || c == '='
}

pub open spec fn op_kind() -> Seq<char> {
    "OP"@
}

pub open spec fn num_kind() -> Seq<char> {
    "num"@
}

pub open spec fn word_kind() -> Seq<char> {
    "word"@
}

/// Skipping white space from `pos`.
pub open spec fn scan_spaces(text: Seq<char>, pos: int) -> Scan<()>
    decreases utf8_len(text) - pos,
{
    match peek(text, pos) {
        Peek::Char(c) => if unicode_white_space(c) {
            scan_spaces(text, pos + 1)
        } else {
            Scan::Done((), pos)
        },
        Peek::End => Scan::Done((), pos),
        Peek::Missing => Scan::Crash,
    }
}

/// An operator token at `pos`: the operator, then the next character is
/// consumed; when that one is an operator too, the character after it is
/// read (not consumed) and becomes the second character of the value,
/// otherwise the second character is a space.
pub open spec fn scan_sign(text: Seq<char>, pos: int) -> Scan<Seq<char>> {
    match peek(text, pos) {
        Peek::End => Scan::Fail(LexError::NoMoreCharacter, pos),
        Peek::Missing => Scan::Crash,
        Peek::Char(c1) => match peek(text, pos + 1) {
            Peek::End => Scan::Fail(LexError::NoMoreCharacter, pos + 1),
            Peek::Missing => Scan::Crash,
            Peek::Char(c2) => if is_operator(c2) {
                match peek(text, pos + 2) {
                    Peek::End => Scan::Fail(LexError::NoMoreCharacter, pos + 2),
                    Peek::Missing => Scan::Crash,
                    Peek::Char(c3) => Scan::Done(seq![c1, c3], pos + 2),
                }
            } else {
                Scan::Done(seq![c1, ' '], pos + 2)
            },
        },
    }
}

/// The rest of a number token from `pos`, `acc` being read so far: each
/// digit is consumed, then the character after it is read, and an `e` or a
/// `.` there is appended to the value without being consumed.
pub open spec fn scan_digits(text: Seq<char>, pos: int, acc: Seq<char>) -> Scan<Seq<char>>
    decreases utf8_len(text) - pos,
{
    match peek(text, pos) {
        Peek::End => Scan::Done(acc, pos),
        Peek::Missing => Scan::Crash,
        Peek::Char(c) => if !is_decimal_digit(c) {
            Scan::Done(acc, pos)
        } else {
            match peek(text, pos + 1) {
                Peek::End => Scan::Fail(LexError::NoMoreCharacter, pos + 1),
                Peek::Missing => Scan::Crash,
                Peek::Char(d) => scan_digits(
                    text,
                    pos + 1,
                    if d == 'e' || d == '.' {
                        acc.push(c).push(d)
                    } else {
                        acc.push(c)
                    },
                ),
            }
        },
    }
}

/// A number token at `pos`.
pub open spec fn scan_num(text: Seq<char>, pos: int) -> Scan<Seq<char>> {
    match peek(text, pos) {
        Peek::End => Scan::Fail(LexError::NoMoreCharacter, pos),
        Peek::Missing => Scan::Crash,
        Peek::Char(c) => scan_digits(text, pos + 1, seq![c]),
    }
}

/// The rest of a word token from `pos`: letters and digits.
pub open spec fn scan_alnum(text: Seq<char>, pos: int, acc: Seq<char>) -> Scan<Seq<char>>
    decreases utf8_len(text) - pos,
{
    match peek(text, pos) {
        Peek::End => Scan::Done(acc, pos),
        Peek::Missing => Scan::Crash,
        Peek::Char(c) => if unicode_alphabetic(c) || is_decimal_digit(c) {
            scan_alnum(text, pos + 1, acc.push(c))
        } else {
            Scan::Done(acc, pos)
        },
    }
}

/// A word token at `pos`.
pub open spec fn scan_word(text: Seq<char>, pos: int) -> Scan<Seq<char>> {
    match peek(text, pos) {
        Peek::End => Scan::Fail(LexError::NoMoreCharacter, pos),
        Peek::Missing => Scan::Crash,
        Peek::Char(c) => scan_alnum(text, pos + 1, seq![c]),
    }
}

/// Gives a scanned value its token kind.
pub open spec fn with_kind(s: Scan<Seq<char>>, kind: Seq<char>) -> Scan<Option<TokenModel>> {
    match s {
        Scan::Done(v, p) => Scan::Done(Some((kind, v)), p),
        Scan::Fail(e, p) => Scan::Fail(e, p),
        Scan::Crash => Scan::Crash,
    }
}

/// One call of `next_token` from `pos`: white space is skipped; at the end
/// of the text there is no token; otherwise the next character picks an
/// operator, a number or a word, and any other character is an error.
pub open spec fn scan_token(text: Seq<char>, pos: int) -> Scan<Option<TokenModel>> {
    match scan_spaces(text, pos) {
        Scan::Done(_, p) => match peek(text, p) {
            Peek::End => Scan::Done(None, p),
            Peek::Missing => Scan::Crash,
            Peek::Char(c) => if is_operator(c) {
                with_kind(scan_sign(text, p), op_kind())
            } else if is_decimal_digit(c) {
                with_kind(scan_num(text, p), num_kind())
            } else if unicode_alphabetic(c) {
                with_kind(scan_word(text, p), word_kind())
            } else {
                Scan::Fail(LexError::NotATokenCharacter, p)
            },
        },
        Scan::Fail(e, p) => Scan::Fail(e, p),
        Scan::Crash => Scan::Crash,
    }
}

/// Repeated `scan_token` from `pos` until it finds no token.
pub open spec fn scan_all(text: Seq<char>, pos: int) -> Scan<Seq<TokenModel>>
    decreases utf8_len(text) - pos,
{
    match scan_token(text, pos) {
        Scan::Done(None, p) => Scan::Done(Seq::empty(), p),
        Scan::Done(Some(t), p) => if pos < p <= utf8_len(text) {
            prepend(seq![t], scan_all(text, p))
        } else {
            Scan::Crash
        },
        Scan::Fail(e, p) => Scan::Fail(e, p),
        Scan::Crash => Scan::Crash,
    }
}

/// Puts `acc` in front of the tokens of a finished scan.
pub open spec fn prepend(acc: Seq<TokenModel>, s: Scan<Seq<TokenModel>>) -> Scan<Seq<TokenModel>> {
    match s {
        Scan::Done(ts, q) => Scan::Done(acc + ts, q),
        Scan::Fail(e, q) => Scan::Fail(e, q),
        Scan::Crash => Scan::Crash,
    }
}

/// What a lexing step gives: a value, an error, or a fault where it reads
/// a missing character.
enum Lexed<T> {
    Value(T),
    Error(LexError),
    Fault,
}

/// How a returned token and the final position agree with a scan.
spec fn token_lexed(s: Scan<Seq<char>>, kind: Seq<char>, res: Lexed<Token>, end: int) -> bool {
    match s {
        Scan::Done(v, p) => res matches Lexed::Value(t) && t@ == (kind, v) && end == p,
        Scan::Fail(e, p) => res matches Lexed::Error(f) && f == e && end == p,
        Scan::Crash => res is Fault,
    }
}

/// How the outcome of one lexing step and the final position agree with a scan.
spec fn next_lexed(s: Scan<Option<TokenModel>>, res: Lexed<Option<Token>>, end: int) -> bool {
    match s {
        Scan::Done(None, p) => res matches Lexed::Value(None) && end == p,
        Scan::Done(Some(m), p) => res matches Lexed::Value(Some(t)) && t@ == m && end == p,
        Scan::Fail(e, p) => res matches Lexed::Error(f) && f == e && end == p,
        Scan::Crash => res is Fault,
    }
}

/// How the outcome of lexing to the end agrees with a scan.
spec fn all_lexed(s: Scan<Seq<TokenModel>>, res: Lexed<Vec<Option<Token>>>, end: int) -> bool {
    match s {
        Scan::Done(ts, p) => res matches Lexed::Value(v) && tokens_agree(v@, ts) && end == p,
        Scan::Fail(e, p) => res matches Lexed::Error(f) && f == e && end == p,
        Scan::Crash => res is Fault,
    }
}

/// How the answer of `next_token` and the final position agree with a scan.
pub open spec fn next_agrees(
    s: Scan<Option<TokenModel>>,
    res: Result<Option<Token>, LexError>,
    end: int,
) -> bool {
    match s {
        Scan::Done(None, p) => res matches Ok(None) && end == p,
        Scan::Done(Some(m), p) => res matches Ok(Some(t)) && t@ == m && end == p,
        Scan::Fail(e, p) => res == Err::<Option<Token>, LexError>(e) && end == p,
        Scan::Crash => false,
    }
}

/// The tokens of a vector, each present, agree with the models.
pub open spec fn tokens_agree(v: Seq<Option<Token>>, ts: Seq<TokenModel>) -> bool {
    &&& v.len() == ts.len()
    &&& forall|k: int| 0 <= k < v.len() ==> (#[trigger] v[k] matches Some(t) && t@ == ts[k])
}

/// How the answer of `tokenize` and the final position agree with a scan.
pub open spec fn all_agree(
    s: Scan<Seq<TokenModel>>,
    res: Result<Vec<Option<Token>>, LexError>,
    end: int,
) -> bool {
    match s {
        Scan::Done(ts, p) => res matches Ok(v) && tokens_agree(v@, ts) && end == p,
        Scan::Fail(e, p) => res matches Err(f) && f == e && end == p,
        Scan::Crash => false,
    }
}

/// A lexer over a text, at a character position.
pub struct Lexar {
    inner: String,
    i: usize,
}

/// A token: its kind (`OP`, `num` or `word`) and its text.
#[derive(Debug)]
pub struct Token {
    pub kind: String,
    pub value: String,
}

impl View for Token {
    type V = TokenModel;

    open spec fn view(&self) -> TokenModel {
        (self.kind@, self.value@)
    }
}

impl PartialEq for Token {
    fn eq(&self, other: &Self) -> (res: bool) {
        self.kind == other.kind && self.value == other.value
    }
}

impl vstd::std_specs::cmp::PartialEqSpecImpl for Token {
    open spec fn obeys_eq_spec() -> bool {
        true
    }

    open spec fn eq_spec(&self, other: &Self) -> bool {
        self@ == other@
    }
}

impl Token {
    /// The token as `kind: <kind>,<tab> value: <value>`.
    pub fn to_string(&self) -> (res: String)
        ensures
            res@ == "kind: "@ + self.kind@ + ",\t value: "@ + self.value@,
    {
        let mut s = "kind: ".to_string();
        s.append(self.kind.as_str());
        s.append(",\t value: ");
        s.append(self.value.as_str());
        s
    }
}

impl Lexar {
    /// The position never passes the byte length of the text.
    #[verifier::type_invariant]
    spec fn position_in_text(self) -> bool {
        self.i <= utf8_len(self.inner@)
    }

    /// The text being lexed.
    pub closed spec fn text(&self) -> Seq<char> {
        self.inner@
    }

    /// The character position of the lexer.
    pub closed spec fn pos(&self) -> int {
        self.i as int
    }

    /// A lexer at the start of `inner`.
    pub fn new(inner: String) -> (res: Self)
        ensures
            res.text() == inner@,
            res.pos() == 0,
    {
        Self { inner, i: 0 }
    }

    /// The character position, which never passes the byte length of the text.
    pub fn position(&self) -> (p: usize)
        ensures
            p == self.pos(),
            0 <= self.pos() <= utf8_len(self.text()),
    {
        proof {
            use_type_invariant(self);
        }
        self.i
    }

    /// Whether the position has reached the byte length of the text.
    fn is_eot(&self) -> (res: bool)
        ensures
            res == (utf8_len(self.text()) <= self.pos()),
            utf8_len(self.text()) <= usize::MAX,
    {
        string_byte_len(&self.inner) <= self.i
    }

    /// The character at the position.
    fn get_c(&self) -> (res: Peek)
        ensures
            res == peek(self.text(), self.pos()),
            utf8_len(self.text()) <= usize::MAX,
    {
        if self.is_eot() {
            return Peek::End;
        }
        let s = self.inner.as_str();
        if self.i >= s.unicode_len() {
            return Peek::Missing;
        }
        Peek::Char(s.get_char(self.i))
    }

    /// The character at the position, which is then advanced past it.
    fn next(&mut self) -> (res: Peek)
        ensures
            final(self).text() == old(self).text(),
            res == peek(old(self).text(), old(self).pos()),
            res is Char ==> final(self).pos() == old(self).pos() + 1,
            !(res is Char) ==> final(self).pos() == old(self).pos(),
    {
        let r = self.get_c();
        if let Peek::Char(_) = r {
            self.i = self.i + 1;
        }
        r
    }

    /// Advances past white space; `false` where it reads a missing character.
    fn skip_space(&mut self) -> (ok: bool)
        ensures
            final(self).text() == old(self).text(),
            match scan_spaces(old(self).text(), old(self).pos()) {
                Scan::Done(_, p) => ok && final(self).pos() == p,
                Scan::Fail(_, _) => false,
                Scan::Crash => !ok,
            },
    {
        let ghost text = self.text();
        let ghost start = self.pos();
        loop
            invariant
                self.text() == text,
                text == old(self).text(),
                start == old(self).pos(),
                scan_spaces(text, self.pos()) == scan_spaces(text, start),
            ensures
                self.text() == text,
                scan_spaces(text, start) == Scan::<()>::Done((), self.pos()),
            decreases utf8_len(text) - self.pos(),
        {
            match self.get_c() {
                Peek::Char(c) => {
                    if !char_is_whitespace(c) {
                        break;
                    }
                    let _ = self.next();
                },
                Peek::End => break,
                Peek::Missing => return false,
            }
        }
        true
    }

    /// Whether `c` starts an operator.
    fn is_sign_start(c: char) -> (res: bool)
        ensures
            res == is_operator(c),
    {
        match c {
            '+' | '-' | '*' | '/' | '=' => true,
            _ => false,
        }
    }

    /// Whether `c` starts a number.
    fn is_num_start(c: char) -> (res: bool)
        ensures
            res == is_decimal_digit(c),
    {
        char_is_decimal_digit(c)
    }

    /// Whether `c` starts a word.
    fn is_word_start(c: char) -> (res: bool)
        ensures
            res == unicode_alphabetic(c),
    {
        char_is_alphabetic(c)
    }

    /// Lexes an operator token.
    fn sign(&mut self) -> (res: Lexed<Token>)
        ensures
            final(self).text() == old(self).text(),
            token_lexed(scan_sign(old(self).text(), old(self).pos()), op_kind(), res, final(self).pos()),
    {
        let mut s = String::new();
        let c1 = match self.next() {
            Peek::Char(c) => c,
            Peek::End => return Lexed::Error(LexError::NoMoreCharacter),
            Peek::Missing => return Lexed::Fault,
        };
        string_push(&mut s, c1);
        let c2 = match self.next() {
            Peek::Char(c) => c,
            Peek::End => return Lexed::Error(LexError::NoMoreCharacter),
            Peek::Missing => return Lexed::Fault,
        };
        let a = if Self::is_sign_start(c2) {
            match self.get_c() {
                Peek::Char(c) => c,
                Peek::End => return Lexed::Error(LexError::NoMoreCharacter),
                Peek::Missing => return Lexed::Fault,
            }
        } else {
            ' '
        };
        string_push(&mut s, a);
        proof {
            assert(s@ =~= seq![c1, a]);
        }
        Lexed::Value(Token { kind: "OP".to_string(), value: s })
    }

    /// Lexes a number token.
    fn num(&mut self) -> (res: Lexed<Token>)
        ensures
            final(self).text() == old(self).text(),
            token_lexed(scan_num(old(self).text(), old(self).pos()), num_kind(), res, final(self).pos()),
    {
        let ghost text = self.text();
        let ghost start = self.pos();
        let mut s = String::new();
        let c = match self.next() {
            Peek::Char(c) => c,
            Peek::End => return Lexed::Error(LexError::NoMoreCharacter),
            Peek::Missing => return Lexed::Fault,
        };
        string_push(&mut s, c);
        proof {
            assert(s@ =~= seq![c]);
        }
        loop
            invariant
                self.text() == text,
                text == old(self).text(),
                start == old(self).pos(),
                scan_digits(text, self.pos(), s@) == scan_num(text, start),
            ensures
                self.text() == text,
                scan_num(text, start) == Scan::Done(s@, self.pos()),
            decreases utf8_len(text) - self.pos(),
        {
            let d = match self.get_c() {
                Peek::Char(d) => d,
                Peek::End => break,
                Peek::Missing => return Lexed::Fault,
            };
            if !char_is_decimal_digit(d) {
                break;
            }
            let _ = self.next();
            string_push(&mut s, d);
            let p = match self.get_c() {
                Peek::Char(p) => p,
                Peek::End => return Lexed::Error(LexError::NoMoreCharacter),
                Peek::Missing => return Lexed::Fault,
            };
            if p == 'e' || p == '.' {
                string_push(&mut s, p);
            }
        }
        Lexed::Value(Token { kind: "num".to_string(), value: s })
    }

    /// Lexes a word token.
    fn word(&mut self) -> (res: Lexed<Token>)
        ensures
            final(self).text() == old(self).text(),
            token_lexed(scan_word(old(self).text(), old(self).pos()), word_kind(), res, final(self).pos()),
    {
        let ghost text = self.text();
        let ghost start = self.pos();
        let mut s = String::new();
        let c = match self.next() {
            Peek::Char(c) => c,
            Peek::End => return Lexed::Error(LexError::NoMoreCharacter),
            Peek::Missing => return Lexed::Fault,
        };
        string_push(&mut s, c);
        proof {
            assert(s@ =~= seq![c]);
        }
        loop
            invariant
                self.text() == text,
                text == old(self).text(),
                start == old(self).pos(),
                scan_alnum(text, self.pos(), s@) == scan_word(text, start),
            ensures
                self.text() == text,
                scan_word(text, start) == Scan::Done(s@, self.pos()),
            decreases utf8_len(text) - self.pos(),
        {
            let d = match self.get_c() {
                Peek::Char(d) => d,
                Peek::End => break,
                Peek::Missing => return Lexed::Fault,
            };
            if !(char_is_alphabetic(d) || char_is_decimal_digit(d)) {
                break;
            }
            let _ = self.next();
            string_push(&mut s, d);
        }
        Lexed::Value(Token { kind: "word".to_string(), value: s })
    }

    /// One lexing step: the next token, or `None` at the end of the text.
    fn lex_token(&mut self) -> (res: Lexed<Option<Token>>)
        ensures
            final(self).text() == old(self).text(),
            next_lexed(scan_token(old(self).text(), old(self).pos()), res, final(self).pos()),
    {
        if !self.skip_space() {
            return Lexed::Fault;
        }
        let c = match self.get_c() {
            Peek::Char(c) => c,
            Peek::End => return Lexed::Value(None),
            Peek::Missing => return Lexed::Fault,
        };
        let t = if Self::is_sign_start(c) {
            self.sign()
        } else if Self::is_num_start(c) {
            self.num()
        } else if Self::is_word_start(c) {
            self.word()
        } else {
            return Lexed::Error(LexError::NotATokenCharacter);
        };
        match t {
            Lexed::Value(t) => Lexed::Value(Some(t)),
            Lexed::Error(e) => Lexed::Error(e),
            Lexed::Fault => Lexed::Fault,
        }
    }

    /// The next token, or `None` at the end of the text.
    pub fn next_token(&mut self) -> (res: Result<Option<Token>, LexError>)
        requires
            !(scan_token(old(self).text(), old(self).pos()) is Crash),
        ensures
            final(self).text() == old(self).text(),
            next_agrees(scan_token(old(self).text(), old(self).pos()), res, final(self).pos()),
            0 <= final(self).pos() <= utf8_len(final(self).text()),
    {
        let r = self.lex_token();
        proof {
            use_type_invariant(&*self);
        }
        match r {
            Lexed::Value(t) => Ok(t),
            Lexed::Error(e) => Err(e),
            Lexed::Fault => Err(LexError::NoMoreCharacter),
        }
    }

    /// The next token, or `None` at the end of the text; `None` in place of
    /// an answer where the step would read a missing character.
    pub fn try_next_token(&mut self) -> (res: Option<Result<Option<Token>, LexError>>)
        ensures
            final(self).text() == old(self).text(),
            res is None <==> scan_token(old(self).text(), old(self).pos()) is Crash,
            res matches Some(r) ==> next_agrees(scan_token(old(self).text(), old(self).pos()), r, final(self).pos()),
            0 <= final(self).pos() <= utf8_len(final(self).text()),
    {
        let r = self.lex_token();
        proof {
            use_type_invariant(&*self);
        }
        match r {
            Lexed::Value(t) => Some(Ok(t)),
            Lexed::Error(e) => Some(Err(e)),
            Lexed::Fault => None,
        }
    }

    /// Lexing steps until one finds no token.
    fn lex_all(&mut self) -> (res: Lexed<Vec<Option<Token>>>)
        ensures
            final(self).text() == old(self).text(),
            all_lexed(scan_all(old(self).text(), old(self).pos()), res, final(self).pos()),
    {
        let ghost text = self.text();
        let ghost start = self.pos();
        let ghost mut acc: Seq<TokenModel> = Seq::empty();
        let mut tokens: Vec<Option<Token>> = Vec::new();
        proof {
            assert(prepend(acc, scan_all(text, start)) == scan_all(text, start)) by {
                match scan_all(text, start) {
                    Scan::Done(ts, q) => {
                        assert(acc + ts =~= ts);
                    },
                    _ => {},
                }
            }
        }
        loop
            invariant
                self.text() == text,
                text == old(self).text(),
                start == old(self).pos(),
                prepend(acc, scan_all(text, self.pos())) == scan_all(text, start),
                tokens_agree(tokens@, acc),
            ensures
                self.text() == text,
                scan_all(text, start) == Scan::Done(acc, self.pos()),
                tokens_agree(tokens@, acc),
            decreases utf8_len(text) - self.pos(),
        {
            let ghost here = self.pos();
            let t = match self.lex_token() {
                Lexed::Value(t) => t,
                Lexed::Error(e) => return Lexed::Error(e),
                Lexed::Fault => return Lexed::Fault,
            };
            match t {
                None => {
                    proof {
                        assert(acc + Seq::<TokenModel>::empty() =~= acc);
                    }
                    break;
                },
                Some(tok) => {
                    proof {
                        lemma_token_progress(text, here);
                        let m = tok@;
                        lemma_prepend_push(acc, m, scan_all(text, self.pos()));
                        acc = acc.push(m);
                    }
                    tokens.push(Some(tok));
                },
            }
        }
        Lexed::Value(tokens)
    }

    /// All remaining tokens, in order, each wrapped in `Some`.
    pub fn tokenize(&mut self) -> (res: Result<Vec<Option<Token>>, LexError>)
        requires
            !(scan_all(old(self).text(), old(self).pos()) is Crash),
        ensures
            final(self).text() == old(self).text(),
            all_agree(scan_all(old(self).text(), old(self).pos()), res, final(self).pos()),
            0 <= final(self).pos() <= utf8_len(final(self).text()),
    {
        let r = self.lex_all();
        proof {
            use_type_invariant(&*self);
        }
        match r {
            Lexed::Value(v) => Ok(v),
            Lexed::Error(e) => Err(e),
            Lexed::Fault => Err(LexError::NoMoreCharacter),
        }
    }
}

/// Putting `acc` and then `m` in front is putting `acc` with `m` pushed.
proof fn lemma_prepend_push(acc: Seq<TokenModel>, m: TokenModel, s: Scan<Seq<TokenModel>>)
    ensures
        prepend(acc, prepend(seq![m], s)) == prepend(acc.push(m), s),
{
    if let Scan::Done(ts, q) = s {
        assert(acc + (seq![m] + ts) =~= acc.push(m) + ts);
    }
}

/// How the answer of lexing a whole text agrees with a scan.
pub open spec fn result_agrees(s: Scan<Seq<TokenModel>>, res: Result<Vec<Option<Token>>, LexError>) -> bool {
    match s {
        Scan::Done(ts, _) => res matches Ok(v) && tokens_agree(v@, ts),
        Scan::Fail(e, _) => res matches Err(f) && f == e,
        Scan::Crash => false,
    }
}

/// Lexes all of `source`. `None` where lexing reads a missing character,
/// which happens only on text that is not ASCII.
pub fn tokenize_source(source: String) -> (res: Option<Result<Vec<Option<Token>>, LexError>>)
    ensures
        res is None <==> scan_all(source@, 0) is Crash,
        res matches Some(r) ==> result_agrees(scan_all(source@, 0), r),
{
    let mut lexer = Lexar::new(source);
    match lexer.lex_all() {
        Lexed::Value(v) => Some(Ok(v)),
        Lexed::Error(e) => Some(Err(e)),
        Lexed::Fault => None,
    }
}

/// White space never moves the position backwards.
pub proof fn lemma_spaces_progress(text: Seq<char>, pos: int)
    ensures
        scan_spaces(text, pos) matches Scan::Done(_, p) ==> pos <= p,
    decreases utf8_len(text) - pos,
{
    if let Peek::Char(c) = peek(text, pos) {
        if unicode_white_space(c) {
            lemma_spaces_progress(text, pos + 1);
        }
    }
}

/// The rest of a number ends between its start and the byte length.
proof fn lemma_digits_progress(text: Seq<char>, pos: int, acc: Seq<char>)
    requires
        pos <= utf8_len(text),
    ensures
        scan_digits(text, pos, acc) matches Scan::Done(_, p) ==> pos <= p <= utf8_len(text),
    decreases utf8_len(text) - pos,
{
    if let Peek::Char(c) = peek(text, pos) {
        if is_decimal_digit(c) {
            if let Peek::Char(d) = peek(text, pos + 1) {
                let next = if d == 'e' || d == '.' {
                    acc.push(c).push(d)
                } else {
                    acc.push(c)
                };
                lemma_digits_progress(text, pos + 1, next);
            }
        }
    }
}

/// The rest of a word ends between its start and the byte length.
proof fn lemma_alnum_progress(text: Seq<char>, pos: int, acc: Seq<char>)
    requires
        pos <= utf8_len(text),
    ensures
        scan_alnum(text, pos, acc) matches Scan::Done(_, p) ==> pos <= p <= utf8_len(text),
    decreases utf8_len(text) - pos,
{
    if let Peek::Char(c) = peek(text, pos) {
        if unicode_alphabetic(c) || is_decimal_digit(c) {
            lemma_alnum_progress(text, pos + 1, acc.push(c));
        }
    }
}

/// A token moves the position forward, and not past the byte length.
pub proof fn lemma_token_progress(text: Seq<char>, pos: int)
    ensures
        scan_token(text, pos) matches Scan::Done(Some(_), p) ==> pos < p <= utf8_len(text),
{
    lemma_spaces_progress(text, pos);
    if let Scan::Done(_, p) = scan_spaces(text, pos) {
        if let Peek::Char(c) = peek(text, p) {
            lemma_digits_progress(text, p + 1, seq![c]);
            lemma_alnum_progress(text, p + 1, seq![c]);
        }
    }
}

} // verus!
