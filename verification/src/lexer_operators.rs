//! The five operator characters `+ - * / =` each start an operator token:
//! between two words they lex to an operator whose value is the character
//! and a space, and the lexer never stops at one of them as at a character
//! that starts no token.

use vstd::prelude::*;
use vstd::utf8::is_ascii_chars;

use crate::lexer_laws::lemma_utf8_len_vs_chars;
use crate::text::{is_decimal_digit, unicode_alphabetic, utf8_len};
use crate::tokenizer::{
    is_operator, op_kind, peek, scan_all, scan_alnum, scan_digits, scan_num, scan_sign, scan_word, scan_spaces, scan_token, word_kind, LexError,
    Peek, Scan,
};

verus! {

/// An ASCII letter.
pub open spec fn ascii_letter(c: char) -> bool {
    ('a' <= c && c <= 'z') || ('A' <= c && c <= 'Z')
}

/// One of the characters `+`, `-`, `*`, `/` and `=`.
pub open spec fn operator_character(c: char) -> bool {
    c == '+' || c == '-' || c == '*' || c == '/' || c == '='
}

/// A word of ASCII letters and digits that starts with a letter.
pub open spec fn ascii_word(w: Seq<char>) -> bool {
    &&& w.len() >= 1
    &&& ascii_letter(w[0])
    &&& forall|i: int| 0 <= i < w.len() ==> ascii_letter(#[trigger] w[i]) || ('0' <= w[i] && w[i] <= '9')
}

/// A word placed in `t` at `start`, followed by a space or by the end of `t`,
/// lexes from its `k`-th character on to the whole word.
proof fn lemma_word_run(t: Seq<char>, start: int, w: Seq<char>, k: int)
    requires
        utf8_len(t) == t.len(),
        ascii_word(w),
        0 <= start,
        start + w.len() <= t.len(),
        t.subrange(start, start + w.len()) == w,
        start + w.len() == t.len() || t[start + w.len()] == ' ',
        1 <= k <= w.len(),
    ensures
        scan_alnum(t, start + k, w.take(k)) == Scan::Done(w, start + w.len()),
    decreases w.len() - k,
{
    if k < w.len() {
        assert(t.subrange(start, start + w.len())[k] == t[start + k]);
        assert(ascii_letter(w[k]) || ('0' <= w[k] && w[k] <= '9'));
        assert(w.take(k).push(w[k]) =~= w.take(k + 1));
        lemma_word_run(t, start, w, k + 1);
        assert(start + k + 1 == start + (k + 1));
    } else {
        assert(w.take(k) =~= w);
    }
}

/// A word at `start` of `t`, followed by a space or by the end, is one word
/// token that ends right after it.
proof fn lemma_word_token(t: Seq<char>, start: int, w: Seq<char>)
    requires
        utf8_len(t) == t.len(),
        ascii_word(w),
        0 <= start,
        start + w.len() <= t.len(),
        t.subrange(start, start + w.len()) == w,
        start + w.len() == t.len() || t[start + w.len()] == ' ',
    ensures
        scan_token(t, start) == Scan::Done(Some((word_kind(), w)), start + w.len()),
{
    assert(t.subrange(start, start + w.len())[0] == t[start]);
    assert(t[start] == w[0]);
    lemma_word_run(t, start, w, 1);
    assert(w.take(1) =~= seq![w[0]]);
}

/// Two words with an operator character between them, each set off by a
/// space, lex to the first word, an operator token whose value is the
/// character and a space, and the second word.
pub proof fn lemma_operator_between_words(x: Seq<char>, c: char, y: Seq<char>)
    requires
        ascii_word(x),
        ascii_word(y),
        operator_character(c),
    ensures
        scan_all(x + seq![' ', c, ' '] + y, 0) == Scan::Done(
            seq![(word_kind(), x), (op_kind(), seq![c, ' ']), (word_kind(), y)],
            (x.len() + 3 + y.len()) as int,
        ),
{
    let t = x + seq![' ', c, ' '] + y;
    let n = x.len() as int;
    let m = y.len() as int;
    assert(t.len() == n + 3 + m);
    assert(is_ascii_chars(t)) by {
        assert forall|i| 0 <= i < t.len() implies '\0' <= #[trigger] t[i] <= '\u{7f}' by {
            if i < n {
                assert(t[i] == x[i]);
                assert(ascii_letter(x[i]) || ('0' <= x[i] && x[i] <= '9'));
            } else if i >= n + 3 {
                assert(t[i] == y[i - n - 3]);
                assert(ascii_letter(y[i - n - 3]) || ('0' <= y[i - n - 3] && y[i - n - 3] <= '9'));
            }
        }
    }
    lemma_utf8_len_vs_chars(t);
    assert(t[n] == ' ');
    assert(t[n + 1] == c);
    assert(t[n + 2] == ' ');
    assert(t.subrange(0, n) =~= x);
    assert(t.subrange(n + 3, n + 3 + m) =~= y);
    lemma_word_token(t, 0, x);
    lemma_word_token(t, n + 3, y);
    assert(scan_spaces(t, n + 1) == Scan::<()>::Done((), n + 1));
    assert(scan_spaces(t, n) == Scan::<()>::Done((), n + 1));
    assert(scan_sign(t, n + 1) == Scan::Done(seq![c, ' '], n + 3));
    assert(scan_token(t, n) == Scan::Done(Some((op_kind(), seq![c, ' '])), n + 3));
    assert(scan_token(t, n + 3 + m) == Scan::<Option<(Seq<char>, Seq<char>)>>::Done(None, n + 3 + m));
    assert(scan_all(t, n + 3 + m) == Scan::<Seq<(Seq<char>, Seq<char>)>>::Done(Seq::empty(), n + 3 + m));
    assert(seq![(word_kind(), y)] + Seq::<(Seq<char>, Seq<char>)>::empty() =~= seq![(word_kind(), y)]);
    assert(scan_all(t, n + 3) == Scan::Done(seq![(word_kind(), y)], n + 3 + m));
    assert(seq![(op_kind(), seq![c, ' '])] + seq![(word_kind(), y)] =~= seq![(op_kind(), seq![c, ' ']), (word_kind(), y)]);
    assert(scan_all(t, n) == Scan::Done(seq![(op_kind(), seq![c, ' ']), (word_kind(), y)], n + 3 + m));
    assert(seq![(word_kind(), x)] + seq![(op_kind(), seq![c, ' ']), (word_kind(), y)] =~= seq![
        (word_kind(), x),
        (op_kind(), seq![c, ' ']),
        (word_kind(), y),
    ]);
}

/// The rest of a number stops with no error but a missing character.
proof fn lemma_digits_fail(text: Seq<char>, pos: int, acc: Seq<char>)
    ensures
        scan_digits(text, pos, acc) matches Scan::Fail(e, _) ==> e == LexError::NoMoreCharacter,
    decreases utf8_len(text) - pos,
{
    if let Peek::Char(c) = peek(text, pos) {
        if is_decimal_digit(c) {
            if let Peek::Char(d) = peek(text, pos + 1) {
                let next = if d == 'e' || d == '.' {
                    acc.push(c).push(d)
                } else {
                    acc.push(c)
                };
                lemma_digits_fail(text, pos + 1, next);
            }
        }
    }
}

/// Skipping white space never stops with an error.
proof fn lemma_spaces_no_fail(text: Seq<char>, pos: int)
    ensures
        !(scan_spaces(text, pos) is Fail),
    decreases utf8_len(text) - pos,
{
    if let Peek::Char(c) = peek(text, pos) {
        if crate::text::unicode_white_space(c) {
            lemma_spaces_no_fail(text, pos + 1);
        }
    }
}

/// The rest of a word never stops with an error.
proof fn lemma_alnum_no_fail(text: Seq<char>, pos: int, acc: Seq<char>)
    ensures
        !(scan_alnum(text, pos, acc) is Fail),
    decreases utf8_len(text) - pos,
{
    if let Peek::Char(c) = peek(text, pos) {
        if unicode_alphabetic(c) || is_decimal_digit(c) {
            lemma_alnum_no_fail(text, pos + 1, acc.push(c));
        }
    }
}

/// The lexer stops at a character as at one that starts no token only where
/// that character is no operator character, no digit and no ASCII letter.
pub proof fn lemma_operators_are_token_characters(text: Seq<char>, pos: int)
    requires
        0 <= pos,
    ensures
        scan_token(text, pos) matches Scan::Fail(LexError::NotATokenCharacter, p) ==> {
            &&& 0 <= p < text.len()
            &&& !operator_character(text[p])
            &&& !('0' <= text[p] && text[p] <= '9')
            &&& !ascii_letter(text[p])
        },
{
    crate::tokenizer::lemma_spaces_progress(text, pos);
    lemma_spaces_no_fail(text, pos);
    if let Scan::Done(_, q) = scan_spaces(text, pos) {
        if let Peek::Char(c) = peek(text, q) {
            assert(0 <= q < text.len());
            assert(text[q] == c);
            if is_operator(c) {
                assert(!(scan_sign(text, q) is Fail) || scan_sign(text, q)->Fail_0 == LexError::NoMoreCharacter);
            } else if is_decimal_digit(c) {
                assert(!(scan_num(text, q) is Fail) || scan_num(text, q)->Fail_0 == LexError::NoMoreCharacter) by {
                    lemma_digits_fail(text, q + 1, seq![c]);
                }
            } else if unicode_alphabetic(c) {
                assert(!(scan_word(text, q) is Fail)) by {
                    lemma_alnum_no_fail(text, q + 1, seq![c]);
                }
            }
        }
    }
}

} // verus!
