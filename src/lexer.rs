//! Tokens of the specification text: identifiers, integer literals and single
//! punctuation bytes, with ASCII white space between them.
use vstd::prelude::*;
use crate::group::ParseError;

verus! {

/// A token as the lexer hands it out.
#[derive(Debug)]
pub enum Token {
    Ident(Vec<u8>),
    /// An integer literal, with its value where it is well formed and fits in
    /// 32 bits.
    Num(Option<u32>),
    Punct(u8),
}

/// A token as a mathematical value.
pub enum Tok {
    Ident(Seq<u8>),
    Num(Option<u32>),
    Punct(u8),
}

impl View for Token {
    type V = Tok;

    open spec fn view(&self) -> Tok {
        match self {
            Token::Ident(v) => Tok::Ident(v@),
            Token::Num(n) => Tok::Num(*n),
            Token::Punct(c) => Tok::Punct(*c),
        }
    }
}

pub open spec fn toks(t: Seq<Token>) -> Seq<Tok> {
    t.map_values(|x: Token| x@)
}

pub open spec fn is_space(c: u8) -> bool {
    c == 32 || c == 9 || c == 10 || c == 13
}

pub open spec fn is_ident_start(c: u8) -> bool {
    (65 <= c <= 90) || (97 <= c <= 122) || c == 95
}

pub open spec fn is_digit(c: u8) -> bool {
    48 <= c <= 57
}

/// Bytes that continue an identifier or a literal.
pub open spec fn is_word(c: u8) -> bool {
    is_ident_start(c) || is_digit(c)
}

/// The punctuation of the grammar: `( ) { } [ ] = , ; #`.
pub open spec fn is_punct(c: u8) -> bool {
    c == 40 || c == 41 || c == 123 || c == 125 || c == 91 || c == 93 || c == 61 || c == 44
        || c == 59 || c == 35
}

/// The end of the word that starts at `p`.
pub open spec fn word_end(s: Seq<u8>, p: int) -> int
    decreases s.len() - p,
{
    if 0 <= p < s.len() && is_word(s[p]) {
        word_end(s, p + 1)
    } else {
        p
    }
}

/// The value of one digit in base `base`.
pub open spec fn digit_value(c: u8, base: nat) -> Option<nat> {
    if is_digit(c) {
        Some((c - 48) as nat)
    } else if base == 16 && 97 <= c <= 102 {
        Some((c - 87) as nat)
    } else if base == 16 && 65 <= c <= 70 {
        Some((c - 55) as nat)
    } else {
        None
    }
}

/// The value of digits in base `base`, where `_` separates digits.
pub open spec fn digits_value(w: Seq<u8>, base: nat) -> Option<nat>
    decreases w.len(),
{
    if w.len() == 0 {
        Some(0)
    } else {
        match digits_value(w.drop_last(), base) {
            None => None,
            Some(v) => if w.last() == 95 {
                Some(v)
            } else {
                match digit_value(w.last(), base) {
                    Some(d) => Some(v * base + d),
                    None => None,
                }
            },
        }
    }
}

pub open spec fn is_hex_literal(w: Seq<u8>) -> bool {
    w.len() >= 2 && w[0] == 48 && (w[1] == 120 || w[1] == 88)
}

/// The value of an integer literal: decimal, or hexadecimal after `0x`; `None`
/// where it holds other bytes or does not fit in 32 bits.
pub open spec fn literal_value(w: Seq<u8>) -> Option<u32> {
    let body = if is_hex_literal(w) {
        w.subrange(2, w.len() as int)
    } else {
        w
    };
    let base: nat = if is_hex_literal(w) {
        16
    } else {
        10
    };
    if body.len() == 0 {
        None
    } else {
        match digits_value(body, base) {
            Some(v) => if v <= 0xFFFF_FFFF {
                Some(v as u32)
            } else {
                None
            },
            None => None,
        }
    }
}

/// The tokens of `s` from position `p` on.
pub open spec fn lex_from(s: Seq<u8>, p: int) -> Result<Seq<Tok>, ParseError>
    decreases s.len() - p,
{
    if p < 0 || p >= s.len() {
        Ok(seq![])
    } else if is_space(s[p]) {
        lex_from(s, p + 1)
    } else if is_word(s[p]) {
        let e = word_end(s, p);
        let w = s.subrange(p, e);
        let tok = if is_digit(s[p]) {
            Tok::Num(literal_value(w))
        } else {
            Tok::Ident(w)
        };
        if e <= p || e > s.len() {
            Err(ParseError::Malformed)
        } else {
            match lex_from(s, e) {
                Ok(rest) => Ok(seq![tok] + rest),
                Err(x) => Err(x),
            }
        }
    } else if is_punct(s[p]) {
        match lex_from(s, p + 1) {
            Ok(rest) => Ok(seq![Tok::Punct(s[p])] + rest),
            Err(x) => Err(x),
        }
    } else {
        Err(ParseError::Malformed)
    }
}

/// The tokens of the text `s`.
pub open spec fn lex(s: Seq<u8>) -> Result<Seq<Tok>, ParseError> {
    lex_from(s, 0)
}

fn byte_is_word(c: u8) -> (r: bool)
    ensures
        r == is_word(c),
{
    (65 <= c && c <= 90) || (97 <= c && c <= 122) || c == 95 || (48 <= c && c <= 57)
}

proof fn lemma_word_end(s: Seq<u8>, p: int)
    requires
        0 <= p <= s.len(),
    ensures
        p <= word_end(s, p) <= s.len(),
        forall|i: int| p <= i < word_end(s, p) ==> #[trigger] is_word(s[i]),
        word_end(s, p) < s.len() ==> !is_word(s[word_end(s, p)]),
    decreases s.len() - p,
{
    if p < s.len() && is_word(s[p]) {
        lemma_word_end(s, p + 1);
    }
}

const CAP: u64 = 0x1_0000_0000;

pub open spec fn capped(v: nat) -> nat {
    if v >= 0x1_0000_0000 {
        0x1_0000_0000
    } else {
        v
    }
}

/// Reads the integer literal `s[start..end]`.
fn read_literal(s: &[u8], start: usize, end: usize) -> (r: Option<u32>)
    requires
        start < end <= s@.len(),
    ensures
        r == literal_value(s@.subrange(start as int, end as int)),
{
    let ghost w = s@.subrange(start as int, end as int);
    let hex = end - start >= 2 && s[start] == 48 && (s[start + 1] == 120 || s[start + 1] == 88);
    let base: u64 = if hex {
        16
    } else {
        10
    };
    let from = if hex {
        start + 2
    } else {
        start
    };
    let ghost body = if is_hex_literal(w) {
        w.subrange(2, w.len() as int)
    } else {
        w
    };
    assert(body =~= s@.subrange(from as int, end as int));
    if from == end {
        return None;
    }
    let mut acc: u64 = 0;
    let mut i: usize = from;
    while i < end
        invariant
            from <= i <= end,
            end <= s@.len(),
            base == 10 || base == 16,
            w == s@.subrange(start as int, end as int),
            body == s@.subrange(from as int, end as int),
            body == (if is_hex_literal(w) { w.subrange(2, w.len() as int) } else { w }),
            base == (if is_hex_literal(w) { 16nat } else { 10nat }),
            body.len() > 0,
            digits_value(s@.subrange(from as int, i as int), base as nat) matches Some(v) && acc == capped(v),
        decreases end - i,
    {
        let c = s[i];
        let ghost pre = s@.subrange(from as int, i as int);
        let ghost cur = s@.subrange(from as int, i + 1);
        assert(cur.drop_last() =~= pre);
        let ghost v = digits_value(pre, base as nat)->Some_0;
        if c != 95 {
            let d: u64 = if 48 <= c && c <= 57 {
                (c - 48) as u64
            } else if base == 16 && 97 <= c && c <= 102 {
                (c - 87) as u64
            } else if base == 16 && 65 <= c && c <= 70 {
                (c - 55) as u64
            } else {
                proof {
                    assert(body[i - from] == c);
                    lemma_digits_none(body, (i - from) as int, base as nat);
                }
                return None;
            };
            assert(acc * base + d <= 0x1_0000_0000 * 16 + 15) by (nonlinear_arith)
                requires acc <= 0x1_0000_0000, base <= 16, d <= 15;
            let next = acc * base + d;
            proof {
                if v >= 0x1_0000_0000 {
                    assert(v * (base as nat) + d >= 0x1_0000_0000) by (nonlinear_arith)
                        requires v >= 0x1_0000_0000, base >= 1;
                }
            }
            acc = if next > CAP {
                CAP
            } else {
                next
            };
        }
        i = i + 1;
    }
    assert(s@.subrange(from as int, i as int) =~= body);
    if acc >= CAP {
        None
    } else {
        Some(acc as u32)
    }
}

/// An invalid digit in a prefix makes the whole literal invalid.
proof fn lemma_digits_none(w: Seq<u8>, k: int, base: nat)
    requires
        0 <= k < w.len(),
        w[k] != 95,
        digit_value(w[k], base) is None,
    ensures
        digits_value(w, base) is None,
    decreases w.len(),
{
    if w.len() - 1 > k {
        lemma_digits_none(w.drop_last(), k, base);
    } else {
        assert(w.last() == w[k]);
    }
}

/// Splits the text into tokens.
pub fn tokenize(s: &[u8]) -> (r: Result<Vec<Token>, ParseError>)
    ensures
        match lex(s@) {
            Ok(t) => r matches Ok(v) && toks(v@) == t,
            Err(e) => r == Err::<Vec<Token>, ParseError>(e),
        },
{
    let mut out: Vec<Token> = Vec::new();
    let mut p: usize = 0;
    while p < s.len()
        invariant
            p <= s@.len(),
            lex(s@) == match lex_from(s@, p as int) {
                Ok(rest) => Ok(toks(out@) + rest),
                Err(e) => Err::<Seq<Tok>, ParseError>(e),
            },
        decreases s@.len() - p,
    {
        let c = s[p];
        let ghost before = toks(out@);
        if c == 32 || c == 9 || c == 10 || c == 13 {
            p = p + 1;
        } else if byte_is_word(c) {
            let mut e = p;
            proof {
                lemma_word_end(s@, p as int);
            }
            while e < s.len() && byte_is_word(s[e])
                invariant
                    p <= e <= s@.len(),
                    e <= word_end(s@, p as int),
                    forall|i: int| p <= i < word_end(s@, p as int) ==> #[trigger] is_word(s@[i]),
                    word_end(s@, p as int) <= s@.len(),
                    word_end(s@, p as int) < s@.len() ==> !is_word(s@[word_end(s@, p as int)]),
                decreases s@.len() - e,
            {
                e = e + 1;
            }
            assert(e == word_end(s@, p as int));
            let tok = if 48 <= c && c <= 57 {
                Token::Num(read_literal(s, p, e))
            } else {
                let mut w: Vec<u8> = Vec::new();
                let mut k = p;
                while k < e
                    invariant
                        p <= k <= e,
                        e <= s@.len(),
                        w@ == s@.subrange(p as int, k as int),
                    decreases e - k,
                {
                    w.push(s[k]);
                    assert(w@ =~= s@.subrange(p as int, k + 1));
                    k = k + 1;
                }
                Token::Ident(w)
            };
            let ghost tv = tok@;
            out.push(tok);
            assert(toks(out@) =~= before.push(tv));
            assert(seq![tv] + lex_from(s@, e as int)->Ok_0 =~= seq![tv].add(lex_from(s@, e as int)->Ok_0));
            proof {
                match lex_from(s@, e as int) {
                    Ok(rest) => {
                        assert(before + (seq![tv] + rest) =~= before.push(tv) + rest);
                    },
                    Err(_) => {},
                }
            }
            p = e;
        } else if c == 40 || c == 41 || c == 123 || c == 125 || c == 91 || c == 93 || c == 61
            || c == 44 || c == 59 || c == 35 {
            out.push(Token::Punct(c));
            assert(toks(out@) =~= before.push(Tok::Punct(c)));
            proof {
                match lex_from(s@, p + 1) {
                    Ok(rest) => {
                        assert(before + (seq![Tok::Punct(c)] + rest) =~= before.push(Tok::Punct(c)) + rest);
                    },
                    Err(_) => {},
                }
            }
            p = p + 1;
        } else {
            return Err(ParseError::Malformed);
        }
    }
    assert(toks(out@) + seq![] =~= toks(out@));
    Ok(out)
}

} // verus!
