//! What holds of the lexer on every text: ASCII text never reads a missing
//! character, other text never lexes to the end, tokens have the shape of
//! their kind, and a finished lexer yields nothing more.

use vstd::prelude::*;
use vstd::utf8::{encode_utf8, is_ascii_chars};

use crate::text::{is_decimal_digit, unicode_alphabetic, unicode_white_space, utf8_len};
use crate::tokenizer::{
    lemma_token_progress, num_kind, op_kind, peek, prepend, scan_alnum, scan_all, scan_digits,
    scan_num, scan_sign, scan_spaces, scan_token, scan_word, word_kind, Peek, Scan, TokenModel,
};

verus! {

/// Every character takes at least one byte of UTF-8, and only ASCII text
/// takes exactly one byte per character.
pub proof fn lemma_utf8_len_vs_chars(s: Seq<char>)
    ensures
        s.len() <= utf8_len(s),
        is_ascii_chars(s) <==> utf8_len(s) == s.len(),
    decreases s.len(),
{
    if s.len() > 0 {
        let rest = s.drop_first();
        lemma_utf8_len_vs_chars(rest);
        let c = s[0];
        assert(encode_utf8(s) == vstd::utf8::encode_scalar(c as u32) + encode_utf8(rest));
        assert(is_ascii_chars(s) <==> ('\0' <= c <= '\u{7f}' && is_ascii_chars(rest))) by {
            if is_ascii_chars(s) {
                assert forall|i| 0 <= i < rest.len() implies '\0' <= #[trigger] rest[i] <= '\u{7f}' by {
                    assert(rest[i] == s[i + 1]);
                }
            }
            if '\0' <= c <= '\u{7f}' && is_ascii_chars(rest) {
                assert forall|i| 0 <= i < s.len() implies '\0' <= #[trigger] s[i] <= '\u{7f}' by {
                    if i > 0 {
                        assert(s[i] == rest[i - 1]);
                    }
                }
            }
        }
        lemma_char_width_1(c);
    }
}

/// A character takes one byte of UTF-8 exactly when it is ASCII.
proof fn lemma_char_width_1(c: char)
    ensures
        ('\0' <= c <= '\u{7f}') <==> vstd::utf8::has_width_1_encoding(c as u32),
{
}

/// On a text whose byte length equals its character count no read is of a
/// missing character.
proof fn lemma_ascii_peek(text: Seq<char>, pos: int)
    requires
        utf8_len(text) == text.len(),
    ensures
        !(peek(text, pos) is Missing),
{
}

proof fn lemma_ascii_spaces(text: Seq<char>, pos: int)
    requires
        utf8_len(text) == text.len(),
    ensures
        !(scan_spaces(text, pos) is Crash),
    decreases utf8_len(text) - pos,
{
    if let Peek::Char(c) = peek(text, pos) {
        if unicode_white_space(c) {
            lemma_ascii_spaces(text, pos + 1);
        }
    }
}

proof fn lemma_ascii_digits(text: Seq<char>, pos: int, acc: Seq<char>)
    requires
        utf8_len(text) == text.len(),
    ensures
        !(scan_digits(text, pos, acc) is Crash),
    decreases utf8_len(text) - pos,
{
    if let Peek::Char(c) = peek(text, pos) {
        if is_decimal_digit(c) {
            lemma_ascii_peek(text, pos + 1);
            if let Peek::Char(d) = peek(text, pos + 1) {
                let next = if d == 'e' || d == '.' {
                    acc.push(c).push(d)
                } else {
                    acc.push(c)
                };
                lemma_ascii_digits(text, pos + 1, next);
            }
        }
    }
}

proof fn lemma_ascii_alnum(text: Seq<char>, pos: int, acc: Seq<char>)
    requires
        utf8_len(text) == text.len(),
    ensures
        !(scan_alnum(text, pos, acc) is Crash),
    decreases utf8_len(text) - pos,
{
    if let Peek::Char(c) = peek(text, pos) {
        if unicode_alphabetic(c) || is_decimal_digit(c) {
            lemma_ascii_alnum(text, pos + 1, acc.push(c));
        }
    }
}

proof fn lemma_ascii_token(text: Seq<char>, pos: int)
    requires
        utf8_len(text) == text.len(),
    ensures
        !(scan_token(text, pos) is Crash),
{
    lemma_ascii_spaces(text, pos);
    if let Scan::Done(_, p) = scan_spaces(text, pos) {
        lemma_ascii_peek(text, p);
        lemma_ascii_peek(text, p + 1);
        lemma_ascii_peek(text, p + 2);
        if let Peek::Char(c) = peek(text, p) {
            lemma_ascii_digits(text, p + 1, seq![c]);
            lemma_ascii_alnum(text, p + 1, seq![c]);
        }
    }
}

proof fn lemma_ascii_all(text: Seq<char>, pos: int)
    requires
        utf8_len(text) == text.len(),
    ensures
        !(scan_all(text, pos) is Crash),
    decreases utf8_len(text) - pos,
{
    lemma_ascii_token(text, pos);
    lemma_token_progress(text, pos);
    if let Scan::Done(Some(_), p) = scan_token(text, pos) {
        lemma_ascii_all(text, p);
    }
}

/// On ASCII text the lexer never reads a missing character: from any
/// position, neither `next_token` nor `tokenize` is left out by its `requires`.
pub proof fn lemma_ascii_never_crashes(text: Seq<char>, pos: int)
    requires
        is_ascii_chars(text),
    ensures
        !(scan_token(text, pos) is Crash),
        !(scan_all(text, pos) is Crash),
{
    lemma_utf8_len_vs_chars(text);
    lemma_ascii_token(text, pos);
    lemma_ascii_all(text, pos);
}

proof fn lemma_short_spaces(text: Seq<char>, pos: int)
    requires
        text.len() < utf8_len(text),
        0 <= pos <= text.len(),
    ensures
        scan_spaces(text, pos) matches Scan::Done(_, p) ==> pos <= p < text.len(),
    decreases text.len() - pos,
{
    if let Peek::Char(c) = peek(text, pos) {
        if unicode_white_space(c) {
            lemma_short_spaces(text, pos + 1);
        }
    }
}

proof fn lemma_short_digits(text: Seq<char>, pos: int, acc: Seq<char>)
    requires
        text.len() < utf8_len(text),
        0 <= pos <= text.len(),
    ensures
        scan_digits(text, pos, acc) matches Scan::Done(_, p) ==> p < text.len(),
    decreases text.len() - pos,
{
    if let Peek::Char(c) = peek(text, pos) {
        if is_decimal_digit(c) {
            if let Peek::Char(d) = peek(text, pos + 1) {
                let next = if d == 'e' || d == '.' {
                    acc.push(c).push(d)
                } else {
                    acc.push(c)
                };
                lemma_short_digits(text, pos + 1, next);
            }
        }
    }
}

proof fn lemma_short_alnum(text: Seq<char>, pos: int, acc: Seq<char>)
    requires
        text.len() < utf8_len(text),
        0 <= pos <= text.len(),
    ensures
        scan_alnum(text, pos, acc) matches Scan::Done(_, p) ==> p < text.len(),
    decreases text.len() - pos,
{
    if let Peek::Char(c) = peek(text, pos) {
        if unicode_alphabetic(c) || is_decimal_digit(c) {
            lemma_short_alnum(text, pos + 1, acc.push(c));
        }
    }
}

proof fn lemma_short_token(text: Seq<char>, pos: int)
    requires
        text.len() < utf8_len(text),
        0 <= pos <= text.len(),
    ensures
        !(scan_token(text, pos) matches Scan::Done(None, _)),
        scan_token(text, pos) matches Scan::Done(Some(_), p) ==> p <= text.len(),
{
    lemma_short_spaces(text, pos);
    if let Scan::Done(_, p) = scan_spaces(text, pos) {
        if let Peek::Char(c) = peek(text, p) {
            lemma_short_digits(text, p + 1, seq![c]);
            lemma_short_alnum(text, p + 1, seq![c]);
        }
    }
}

proof fn lemma_short_all(text: Seq<char>, pos: int)
    requires
        text.len() < utf8_len(text),
        0 <= pos <= text.len(),
    ensures
        !(scan_all(text, pos) is Done),
    decreases text.len() - pos,
{
    lemma_short_token(text, pos);
    lemma_token_progress(text, pos);
    if let Scan::Done(Some(_), p) = scan_token(text, pos) {
        lemma_short_all(text, p);
    }
}

/// On text that is not ASCII, lexing to the end never succeeds from a
/// position within the text: `tokenize` either faults or stops with an error.
pub proof fn lemma_non_ascii_never_finishes(text: Seq<char>, pos: int)
    requires
        !is_ascii_chars(text),
        0 <= pos <= text.len(),
    ensures
        !(scan_all(text, pos) is Done),
{
    lemma_utf8_len_vs_chars(text);
    lemma_short_all(text, pos);
}

/// The value of a number token: digits, where the last character may instead
/// be an `e` or a `.` that follows at least two digits.
pub open spec fn number_shape(v: Seq<char>) -> bool {
    &&& v.len() >= 1
    &&& is_decimal_digit(v[0])
    &&& forall|i: int| 0 <= i < v.len() - 1 ==> is_decimal_digit(#[trigger] v[i])
    &&& is_decimal_digit(v.last()) || ((v.last() == 'e' || v.last() == '.') && v.len() >= 3)
}

/// The shape of a token of each kind: an operator token has two characters,
/// the first an operator; a number has the shape `number_shape`; a word
/// starts with a letter and holds only letters and digits.
pub open spec fn well_formed_token(t: TokenModel) -> bool {
    let (k, v) = t;
    ||| k == op_kind() && v.len() == 2 && crate::tokenizer::is_operator(v[0])
    ||| k == num_kind() && number_shape(v)
    ||| k == word_kind() && v.len() >= 1 && unicode_alphabetic(v[0]) && forall|i: int|
        0 <= i < v.len() ==> unicode_alphabetic(#[trigger] v[i]) || is_decimal_digit(v[i])
}

proof fn lemma_digits_shape(text: Seq<char>, pos: int, acc: Seq<char>)
    requires
        acc.len() >= 1,
        forall|i: int| 0 <= i < acc.len() ==> is_decimal_digit(#[trigger] acc[i]),
    ensures
        scan_digits(text, pos, acc) matches Scan::Done(v, _) ==> number_shape(v),
    decreases utf8_len(text) - pos,
{
    if let Peek::Char(c) = peek(text, pos) {
        if is_decimal_digit(c) {
            let grown = acc.push(c);
            assert forall|i: int| 0 <= i < grown.len() implies is_decimal_digit(#[trigger] grown[i]) by {
                if i < acc.len() {
                    assert(grown[i] == acc[i]);
                }
            }
            if let Peek::Char(d) = peek(text, pos + 1) {
                if d == 'e' || d == '.' {
                    let next = grown.push(d);
                    assert(scan_digits(text, pos + 1, next) == Scan::Done(next, pos + 1));
                    assert forall|i: int| 0 <= i < next.len() - 1 implies is_decimal_digit(#[trigger] next[i]) by {
                        assert(next[i] == grown[i]);
                    }
                    assert(next[0] == acc[0]);
                } else {
                    lemma_digits_shape(text, pos + 1, grown);
                }
            }
        } else {
            assert(acc.last() == acc[acc.len() - 1]);
        }
    } else {
        assert(acc.last() == acc[acc.len() - 1]);
    }
}

proof fn lemma_alnum_shape(text: Seq<char>, pos: int, acc: Seq<char>)
    requires
        acc.len() >= 1,
        unicode_alphabetic(acc[0]),
        forall|i: int| 0 <= i < acc.len() ==> unicode_alphabetic(#[trigger] acc[i]) || is_decimal_digit(acc[i]),
    ensures
        scan_alnum(text, pos, acc) matches Scan::Done(v, _) ==> {
            &&& v.len() >= 1
            &&& unicode_alphabetic(v[0])
            &&& forall|i: int| 0 <= i < v.len() ==> unicode_alphabetic(#[trigger] v[i]) || is_decimal_digit(v[i])
        },
    decreases utf8_len(text) - pos,
{
    if let Peek::Char(c) = peek(text, pos) {
        if unicode_alphabetic(c) || is_decimal_digit(c) {
            let next = acc.push(c);
            assert forall|i: int| 0 <= i < next.len() implies unicode_alphabetic(#[trigger] next[i]) || is_decimal_digit(next[i]) by {
                if i < acc.len() {
                    assert(next[i] == acc[i]);
                }
            }
            lemma_alnum_shape(text, pos + 1, next);
        }
    }
}

/// Every token that `next_token` returns has the shape of its kind.
pub proof fn lemma_token_shape(text: Seq<char>, pos: int)
    ensures
        scan_token(text, pos) matches Scan::Done(Some(t), _) ==> well_formed_token(t),
{
    if let Scan::Done(_, p) = scan_spaces(text, pos) {
        if let Peek::Char(c) = peek(text, p) {
            if is_decimal_digit(c) {
                lemma_digits_shape(text, p + 1, seq![c]);
            }
            if unicode_alphabetic(c) {
                lemma_alnum_shape(text, p + 1, seq![c]);
            }
        }
    }
}

/// Every token that `tokenize` returns has the shape of its kind.
pub proof fn lemma_all_tokens_shape(text: Seq<char>, pos: int)
    ensures
        scan_all(text, pos) matches Scan::Done(ts, _) ==> forall|k: int|
            0 <= k < ts.len() ==> well_formed_token(#[trigger] ts[k]),
    decreases utf8_len(text) - pos,
{
    lemma_token_shape(text, pos);
    lemma_token_progress(text, pos);
    if let Scan::Done(Some(t), p) = scan_token(text, pos) {
        lemma_all_tokens_shape(text, p);
        if let Scan::Done(ts, _) = scan_all(text, p) {
            assert forall|k: int| 0 <= k < ts.len() + 1 implies well_formed_token(#[trigger] (seq![t] + ts)[k]) by {
                if k > 0 {
                    assert((seq![t] + ts)[k] == ts[k - 1]);
                }
            }
        }
    }
}

/// `tokenize` returns what `next_token` returns, in order: the first token,
/// then the tokens from where it ends.
pub proof fn lemma_all_is_repeated_token(text: Seq<char>, pos: int)
    ensures
        scan_token(text, pos) matches Scan::Done(Some(t), p) ==> scan_all(text, pos) == prepend(
            seq![t],
            scan_all(text, p),
        ),
        scan_token(text, pos) matches Scan::Done(None, p) ==> scan_all(text, pos) == Scan::<
            Seq<TokenModel>,
        >::Done(Seq::empty(), p),
{
    lemma_token_progress(text, pos);
}

/// After `tokenize` succeeds, the lexer is exhausted: `next_token` from the
/// final position finds no token and does not move.
pub proof fn lemma_finished_lexer_is_exhausted(text: Seq<char>, pos: int)
    ensures
        scan_all(text, pos) matches Scan::Done(_, q) ==> scan_token(text, q) == Scan::<
            Option<TokenModel>,
        >::Done(None, q),
    decreases utf8_len(text) - pos,
{
    lemma_token_progress(text, pos);
    match scan_token(text, pos) {
        Scan::Done(Some(_), p) => {
            lemma_finished_lexer_is_exhausted(text, p);
        },
        Scan::Done(None, p) => {
            lemma_spaces_idempotent(text, pos);
        },
        _ => {},
    }
}

/// Skipping white space a second time stays put.
proof fn lemma_spaces_idempotent(text: Seq<char>, pos: int)
    ensures
        scan_spaces(text, pos) matches Scan::Done(_, p) ==> scan_spaces(text, p) == Scan::<()>::Done((), p),
    decreases utf8_len(text) - pos,
{
    if let Peek::Char(c) = peek(text, pos) {
        if unicode_white_space(c) {
            lemma_spaces_idempotent(text, pos + 1);
        }
    }
}

} // verus!
