//! Lexing two ASCII texts joined by a space gives the tokens of the first
//! followed by the tokens of the second: no token spans the space.

use vstd::prelude::*;
use vstd::utf8::is_ascii_chars;

use crate::lexer_laws::lemma_utf8_len_vs_chars;
use crate::text::{is_decimal_digit, unicode_alphabetic, unicode_white_space, utf8_len};
use crate::tokenizer::{
    lemma_spaces_progress, lemma_token_progress, peek, prepend, scan_all, scan_alnum,
    scan_digits, scan_sign, scan_spaces, scan_token, with_kind, Peek, Scan, TokenModel,
};

verus! {

/// `t` is the text `a`, then a space, then more; both one byte per character.
spec fn space_after(a: Seq<char>, t: Seq<char>) -> bool {
    &&& utf8_len(a) == a.len()
    &&& utf8_len(t) == t.len()
    &&& a.len() < t.len()
    &&& t.subrange(0, a.len() as int) == a
    &&& t[a.len() as int] == ' '
}

/// `t` ends with `b` from position `k` on; both one byte per character.
spec fn ends_with_at(b: Seq<char>, t: Seq<char>, k: int) -> bool {
    &&& utf8_len(b) == b.len()
    &&& utf8_len(t) == t.len()
    &&& 0 <= k
    &&& t.len() == k + b.len()
    &&& t.subrange(k, t.len() as int) == b
}

/// A scan with its positions moved by `k`.
spec fn shift<T>(s: Scan<T>, k: int) -> Scan<T> {
    match s {
        Scan::Done(v, p) => Scan::Done(v, p + k),
        Scan::Fail(e, p) => Scan::Fail(e, p + k),
        Scan::Crash => Scan::Crash,
    }
}

proof fn lemma_peek_prefix(a: Seq<char>, t: Seq<char>, q: int)
    requires
        space_after(a, t),
        0 <= q <= a.len(),
    ensures
        q < a.len() ==> peek(t, q) == peek(a, q) && peek(a, q) == Peek::Char(a[q]),
        q == a.len() ==> peek(a, q) == Peek::End && peek(t, q) == Peek::Char(' '),
{
    if q < a.len() {
        assert(t.subrange(0, a.len() as int)[q] == t[q]);
    }
}

proof fn lemma_peek_shift(b: Seq<char>, t: Seq<char>, k: int, q: int)
    requires
        ends_with_at(b, t, k),
        0 <= q,
    ensures
        peek(t, k + q) == peek(b, q),
{
    if q < b.len() {
        assert(t.subrange(k, t.len() as int)[q] == t[k + q]);
    }
}

proof fn lemma_prefix_spaces(a: Seq<char>, t: Seq<char>, pos: int)
    requires
        space_after(a, t),
        0 <= pos <= a.len(),
    ensures
        scan_spaces(a, pos) matches Scan::Done(_, p) && pos <= p <= a.len() && (p < a.len()
            ==> scan_spaces(t, pos) == Scan::<()>::Done((), p)) && (p == a.len() ==> scan_spaces(
            t,
            pos,
        ) == scan_spaces(t, a.len() + 1int)),
    decreases a.len() - pos,
{
    lemma_peek_prefix(a, t, pos);
    if pos < a.len() {
        if unicode_white_space(a[pos]) {
            lemma_prefix_spaces(a, t, pos + 1);
        }
    }
}

proof fn lemma_prefix_sign(a: Seq<char>, t: Seq<char>, pos: int)
    requires
        space_after(a, t),
        0 <= pos < a.len(),
    ensures
        scan_sign(a, pos) matches Scan::Done(v, p) ==> p <= a.len() && scan_sign(t, pos)
            == Scan::Done(v, p),
{
    lemma_peek_prefix(a, t, pos);
    lemma_peek_prefix(a, t, pos + 1);
    if pos + 2 <= a.len() {
        lemma_peek_prefix(a, t, pos + 2);
    }
}

proof fn lemma_prefix_digits(a: Seq<char>, t: Seq<char>, pos: int, acc: Seq<char>)
    requires
        space_after(a, t),
        0 <= pos <= a.len(),
    ensures
        scan_digits(a, pos, acc) matches Scan::Done(v, p) ==> p <= a.len() && scan_digits(
            t,
            pos,
            acc,
        ) == Scan::Done(v, p),
    decreases a.len() - pos,
{
    lemma_peek_prefix(a, t, pos);
    if pos < a.len() && is_decimal_digit(a[pos]) {
        lemma_peek_prefix(a, t, pos + 1);
        if pos + 1 < a.len() {
            let c = a[pos];
            let d = a[pos + 1];
            let next = if d == 'e' || d == '.' {
                acc.push(c).push(d)
            } else {
                acc.push(c)
            };
            lemma_prefix_digits(a, t, pos + 1, next);
        }
    }
}

proof fn lemma_prefix_alnum(a: Seq<char>, t: Seq<char>, pos: int, acc: Seq<char>)
    requires
        space_after(a, t),
        0 <= pos <= a.len(),
    ensures
        scan_alnum(a, pos, acc) matches Scan::Done(v, p) ==> p <= a.len() && scan_alnum(
            t,
            pos,
            acc,
        ) == Scan::Done(v, p),
    decreases a.len() - pos,
{
    lemma_peek_prefix(a, t, pos);
    if pos < a.len() {
        let c = a[pos];
        if unicode_alphabetic(c) || is_decimal_digit(c) {
            lemma_prefix_alnum(a, t, pos + 1, acc.push(c));
        }
    }
}

proof fn lemma_prefix_token(a: Seq<char>, t: Seq<char>, pos: int)
    requires
        space_after(a, t),
        0 <= pos <= a.len(),
    ensures
        scan_token(a, pos) matches Scan::Done(Some(m), p) ==> p <= a.len() && scan_token(t, pos)
            == Scan::Done(Some(m), p),
        scan_token(a, pos) matches Scan::Done(None, p) ==> p == a.len() && scan_token(t, pos)
            == scan_token(t, a.len() + 1int),
{
    lemma_prefix_spaces(a, t, pos);
    lemma_token_progress(a, pos);
    if let Scan::Done(_, s) = scan_spaces(a, pos) {
        lemma_peek_prefix(a, t, s);
        if s < a.len() {
            let c = a[s];
            lemma_prefix_sign(a, t, s);
            lemma_prefix_digits(a, t, s + 1, seq![c]);
            lemma_prefix_alnum(a, t, s + 1, seq![c]);
        }
    }
}

proof fn lemma_prepend_empty(s: Scan<Seq<TokenModel>>)
    ensures
        prepend(Seq::empty(), s) == s,
{
    if let Scan::Done(ts, q) = s {
        assert(Seq::<TokenModel>::empty() + ts =~= ts);
    }
}

proof fn lemma_prepend_prepend(x: Seq<TokenModel>, y: Seq<TokenModel>, s: Scan<Seq<TokenModel>>)
    ensures
        prepend(x, prepend(y, s)) == prepend(x + y, s),
{
    if let Scan::Done(ts, q) = s {
        assert(x + (y + ts) =~= (x + y) + ts);
    }
}

/// Two positions, the first not after the second, whose next token is the
/// same have the same scan to the end.
proof fn lemma_all_same_token(t: Seq<char>, pos: int, later: int)
    requires
        pos <= later,
        scan_token(t, pos) == scan_token(t, later),
    ensures
        scan_all(t, pos) == scan_all(t, later),
{
    lemma_token_progress(t, later);
}

proof fn lemma_prefix_all(a: Seq<char>, t: Seq<char>, pos: int)
    requires
        space_after(a, t),
        0 <= pos <= a.len(),
    ensures
        scan_all(a, pos) matches Scan::Done(ts, _) ==> scan_all(t, pos) == prepend(
            ts,
            scan_all(t, a.len() + 1int),
        ),
    decreases a.len() - pos,
{
    lemma_prefix_token(a, t, pos);
    lemma_token_progress(a, pos);
    lemma_token_progress(t, pos);
    match scan_token(a, pos) {
        Scan::Done(None, p) => {
            lemma_all_same_token(t, pos, a.len() + 1int);
            lemma_prepend_empty(scan_all(t, a.len() + 1int));
        },
        Scan::Done(Some(m), p) => {
            lemma_prefix_all(a, t, p);
            if let Scan::Done(rest, _) = scan_all(a, p) {
                lemma_prepend_prepend(seq![m], rest, scan_all(t, a.len() + 1int));
            }
        },
        _ => {},
    }
}

proof fn lemma_shift_spaces(b: Seq<char>, t: Seq<char>, k: int, p: int)
    requires
        ends_with_at(b, t, k),
        0 <= p,
    ensures
        scan_spaces(t, k + p) == shift(scan_spaces(b, p), k),
    decreases b.len() - p,
{
    lemma_peek_shift(b, t, k, p);
    if let Peek::Char(c) = peek(b, p) {
        if unicode_white_space(c) {
            lemma_shift_spaces(b, t, k, p + 1);
            assert(k + p + 1 == k + (p + 1));
        }
    }
}

proof fn lemma_shift_digits(b: Seq<char>, t: Seq<char>, k: int, p: int, acc: Seq<char>)
    requires
        ends_with_at(b, t, k),
        0 <= p,
    ensures
        scan_digits(t, k + p, acc) == shift(scan_digits(b, p, acc), k),
    decreases b.len() - p,
{
    lemma_peek_shift(b, t, k, p);
    lemma_peek_shift(b, t, k, p + 1);
    assert(k + p + 1 == k + (p + 1));
    if let Peek::Char(c) = peek(b, p) {
        if is_decimal_digit(c) {
            if let Peek::Char(d) = peek(b, p + 1) {
                let next = if d == 'e' || d == '.' {
                    acc.push(c).push(d)
                } else {
                    acc.push(c)
                };
                lemma_shift_digits(b, t, k, p + 1, next);
            }
        }
    }
}

proof fn lemma_shift_alnum(b: Seq<char>, t: Seq<char>, k: int, p: int, acc: Seq<char>)
    requires
        ends_with_at(b, t, k),
        0 <= p,
    ensures
        scan_alnum(t, k + p, acc) == shift(scan_alnum(b, p, acc), k),
    decreases b.len() - p,
{
    lemma_peek_shift(b, t, k, p);
    if let Peek::Char(c) = peek(b, p) {
        if unicode_alphabetic(c) || is_decimal_digit(c) {
            lemma_shift_alnum(b, t, k, p + 1, acc.push(c));
            assert(k + p + 1 == k + (p + 1));
        }
    }
}

proof fn lemma_shift_with_kind(s: Scan<Seq<char>>, kind: Seq<char>, k: int)
    ensures
        with_kind(shift(s, k), kind) == shift(with_kind(s, kind), k),
{
}

proof fn lemma_shift_token(b: Seq<char>, t: Seq<char>, k: int, p: int)
    requires
        ends_with_at(b, t, k),
        0 <= p,
    ensures
        scan_token(t, k + p) == shift(scan_token(b, p), k),
{
    lemma_shift_spaces(b, t, k, p);
    lemma_spaces_progress(b, p);
    if let Scan::Done(_, s) = scan_spaces(b, p) {
        lemma_peek_shift(b, t, k, s);
        lemma_peek_shift(b, t, k, s + 1);
        lemma_peek_shift(b, t, k, s + 2);
        assert(k + s + 1 == k + (s + 1));
        assert(k + s + 2 == k + (s + 2));
        if let Peek::Char(c) = peek(b, s) {
            lemma_shift_digits(b, t, k, s + 1, seq![c]);
            lemma_shift_alnum(b, t, k, s + 1, seq![c]);
            lemma_shift_with_kind(scan_sign(b, s), crate::tokenizer::op_kind(), k);
            lemma_shift_with_kind(crate::tokenizer::scan_num(b, s), crate::tokenizer::num_kind(), k);
            lemma_shift_with_kind(crate::tokenizer::scan_word(b, s), crate::tokenizer::word_kind(), k);
        }
    }
}

proof fn lemma_shift_all(b: Seq<char>, t: Seq<char>, k: int, p: int)
    requires
        ends_with_at(b, t, k),
        0 <= p,
    ensures
        scan_all(t, k + p) == shift(scan_all(b, p), k),
    decreases b.len() - p,
{
    lemma_shift_token(b, t, k, p);
    lemma_token_progress(b, p);
    if let Scan::Done(Some(m), q) = scan_token(b, p) {
        lemma_shift_all(b, t, k, q);
        assert(k + q == q + k);
    }
}

/// Lexing two ASCII texts joined by a space gives the tokens of the first
/// followed by the tokens of the second, when each lexes to the end by
/// itself; the lexer ends one character further than the second alone
/// plus the first and the space.
pub proof fn lemma_tokenize_concat(a: Seq<char>, b: Seq<char>)
    requires
        is_ascii_chars(a),
        is_ascii_chars(b),
    ensures
        scan_all(a, 0) matches Scan::Done(ta, _) ==> scan_all(b, 0) matches Scan::Done(tb, qb)
            ==> scan_all(a + seq![' '] + b, 0) == Scan::Done(ta + tb, a.len() + 1 + qb),
{
    let t = a + seq![' '] + b;
    let k: int = a.len() + 1int;
    assert(is_ascii_chars(t)) by {
        assert forall|i| 0 <= i < t.len() implies '\0' <= #[trigger] t[i] <= '\u{7f}' by {
            if i < a.len() {
                assert(t[i] == a[i]);
            } else if i > a.len() {
                assert(t[i] == b[i - k]);
            }
        }
    }
    lemma_utf8_len_vs_chars(a);
    lemma_utf8_len_vs_chars(b);
    lemma_utf8_len_vs_chars(t);
    assert(t.subrange(0, a.len() as int) =~= a);
    assert(t.subrange(k, t.len() as int) =~= b);
    lemma_prefix_all(a, t, 0);
    lemma_shift_all(b, t, k, 0);
    assert(k + 0 == k);
}

} // verus!
