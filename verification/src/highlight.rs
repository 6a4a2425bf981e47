//! The JSON highlighter: a line-oriented, best-effort lexical tokenizer.
//! Any text yields some token sequence; nothing is validated and nothing
//! fails.

use vstd::prelude::*;
use crate::text::{
    is_digit_char, is_digit, find_from, lemma_find_from, find_char_from, sub_vec, split_on,
    split_chars, views_of, str_to_chars, chars_to_string,
};

verus! {

/// How a token is styled.
#[derive(Clone, Copy, PartialEq, Eq, Debug, Structural)]
pub enum TokenKind {
    /// A double-quoted run, quotes included.
    Quoted,
    /// A colon, brace or bracket.
    Punct,
    /// A run of digits and dots begun by a digit.
    Number,
    /// Any other single character.
    Plain,
}

/// One styled token of a line.
pub struct Token {
    pub kind: TokenKind,
    pub text: String,
}

impl View for Token {
    type V = (TokenKind, Seq<char>);

    open spec fn view(&self) -> (TokenKind, Seq<char>) {
        (self.kind, self.text@)
    }
}

/// The views of a line's tokens.
pub open spec fn token_views(ts: Seq<Token>) -> Seq<(TokenKind, Seq<char>)> {
    ts.map_values(|t: Token| t@)
}

/// Characters that continue a numeric token.
pub open spec fn is_num_char(c: char) -> bool {
    is_digit_char(c) || c == '.'
}

/// Characters that are their own punctuation token.
pub open spec fn is_punct_char(c: char) -> bool {
    c == ':' || c == '{' || c == '}' || c == '[' || c == ']'
}

/// First index at or after `i` that does not continue a numeric token.
pub open spec fn num_end(s: Seq<char>, i: int) -> int
    decreases s.len() - i,
{
    if 0 <= i < s.len() && is_num_char(s[i]) {
        num_end(s, i + 1)
    } else {
        i
    }
}

proof fn lemma_num_end_bounds(s: Seq<char>, i: int)
    requires
        0 <= i <= s.len(),
    ensures
        i <= num_end(s, i) <= s.len(),
    decreases s.len() - i,
{
    if i < s.len() && is_num_char(s[i]) {
        lemma_num_end_bounds(s, i + 1);
    }
}

/// The tokens of the line `s` from position `i` on. A `'"'` opens a quoted
/// token running through the closing quote, or to the end of the line when
/// none follows; a punctuation character stands alone; a digit opens a
/// numeric token greedily taking digits and dots; anything else is a plain
/// single-character token.
pub open spec fn tokenize_from(s: Seq<char>, i: int) -> Seq<(TokenKind, Seq<char>)>
    decreases s.len() - i,
    via tokenize_from_decreases
{
    if i < 0 || i >= s.len() {
        Seq::empty()
    } else {
        let c = s[i];
        if c == '"' {
            match find_from(s, '"', i + 1) {
                Option::None => seq![(TokenKind::Quoted, s.subrange(i, s.len() as int))],
                Option::Some(j) => seq![(TokenKind::Quoted, s.subrange(i, j + 1))]
                    + tokenize_from(s, j + 1),
            }
        } else if is_punct_char(c) {
            seq![(TokenKind::Punct, seq![c])] + tokenize_from(s, i + 1)
        } else if is_digit_char(c) {
            seq![(TokenKind::Number, s.subrange(i, num_end(s, i + 1)))] + tokenize_from(
                s,
                num_end(s, i + 1),
            )
        } else {
            seq![(TokenKind::Plain, seq![c])] + tokenize_from(s, i + 1)
        }
    }
}

#[via_fn]
proof fn tokenize_from_decreases(s: Seq<char>, i: int) {
    if 0 <= i < s.len() {
        lemma_find_from(s, '"', i + 1);
        lemma_num_end_bounds(s, i + 1);
    }
}

/// The tokens of one line.
pub open spec fn tokenize_line_spec(s: Seq<char>) -> Seq<(TokenKind, Seq<char>)> {
    tokenize_from(s, 0)
}

/// Tokenize one line of characters.
pub fn tokenize_line(line: &Vec<char>) -> (r: Vec<Token>)
    ensures
        token_views(r@) == tokenize_line_spec(line@),
{
    let n = line.len();
    let mut r: Vec<Token> = Vec::new();
    let mut i: usize = 0;
    proof {
        assert(token_views(r@) =~~= Seq::<(TokenKind, Seq<char>)>::empty());
    }
    while i < n
        invariant
            i <= n == line@.len(),
            tokenize_from(line@, 0) == token_views(r@) + tokenize_from(line@, i as int),
        decreases n - i,
    {
        let c = line[i];
        let ghost prev = i as int;
        let tok: Token;
        if c == '"' {
            match find_char_from(line, '"', i + 1) {
                Option::Some(j) => {
                    tok = Token { kind: TokenKind::Quoted, text: chars_to_string(&sub_vec(line, i, j + 1)) };
                    i = j + 1;
                },
                Option::None => {
                    tok = Token { kind: TokenKind::Quoted, text: chars_to_string(&sub_vec(line, i, n)) };
                    i = n;
                },
            }
        } else if c == ':' || c == '{' || c == '}' || c == '[' || c == ']' {
            tok = Token { kind: TokenKind::Punct, text: chars_to_string(&sub_vec(line, i, i + 1)) };
            proof {
                assert(line@.subrange(prev, prev + 1) =~~= seq![c]);
            }
            i = i + 1;
        } else if is_digit(c) {
            let mut k: usize = i + 1;
            while k < n && is_num(line, k)
                invariant
                    i + 1 <= k <= n == line@.len(),
                    num_end(line@, i + 1) == num_end(line@, k as int),
                decreases n - k,
            {
                k = k + 1;
            }
            assert(num_end(line@, k as int) == k as int);
            tok = Token { kind: TokenKind::Number, text: chars_to_string(&sub_vec(line, i, k)) };
            i = k;
        } else {
            tok = Token { kind: TokenKind::Plain, text: chars_to_string(&sub_vec(line, i, i + 1)) };
            proof {
                assert(line@.subrange(prev, prev + 1) =~~= seq![c]);
            }
            i = i + 1;
        }
        proof {
            assert(tokenize_from(line@, prev) =~~= seq![tok@] + tokenize_from(line@, i as int));
            assert(token_views(r@.push(tok)) =~~= token_views(r@).push(tok@));
            assert(token_views(r@.push(tok)) + tokenize_from(line@, i as int) =~~= token_views(r@)
                + tokenize_from(line@, prev));
        }
        r.push(tok);
    }
    r
}

/// Whether position `k` continues a numeric token.
fn is_num(line: &Vec<char>, k: usize) -> (b: bool)
    requires
        k < line@.len(),
    ensures
        b == is_num_char(line@[k as int]),
{
    let c = line[k];
    is_digit(c) || c == '.'
}

/// A trailing carriage return is not part of a line.
pub open spec fn strip_cr(l: Seq<char>) -> Seq<char> {
    if l.len() > 0 && l.last() == '\r' {
        l.drop_last()
    } else {
        l
    }
}

/// The lines of `s`, as `str::lines` yields them: split at `'\n'`, a final
/// empty segment dropped, and a trailing `'\r'` removed from each line.
pub open spec fn lines_of(s: Seq<char>) -> Seq<Seq<char>> {
    let raw = split_on(s, '\n');
    let kept = if raw.last().len() == 0 {
        raw.drop_last()
    } else {
        raw
    };
    kept.map_values(|l: Seq<char>| strip_cr(l))
}

/// Split text into its lines.
fn split_lines(chars: &Vec<char>) -> (r: Vec<Vec<char>>)
    ensures
        views_of(r@) == lines_of(chars@),
{
    let mut segs = split_chars(chars, '\n');
    let ghost raw = views_of(segs@);
    assert(raw.len() >= 1);
    if segs[segs.len() - 1].len() == 0 {
        segs.pop();
        proof {
            assert(views_of(segs@) =~~= raw.drop_last());
        }
    }
    let ghost kept = views_of(segs@);
    let mut r: Vec<Vec<char>> = Vec::new();
    let n = segs.len();
    let mut i: usize = 0;
    proof {
        assert(views_of(r@) =~~= kept.take(0).map_values(|l: Seq<char>| strip_cr(l)));
    }
    while i < n
        invariant
            i <= n == segs@.len(),
            kept == views_of(segs@),
            views_of(r@) == kept.take(i as int).map_values(|l: Seq<char>| strip_cr(l)),
        decreases n - i,
    {
        let m = segs[i].len();
        let line = if m > 0 && segs[i][m - 1] == '\r' {
            let t = sub_vec(&segs[i], 0, m - 1);
            proof {
                assert(t@ =~~= strip_cr(kept[i as int]));
            }
            t
        } else {
            let t = sub_vec(&segs[i], 0, m);
            proof {
                assert(t@ =~~= strip_cr(kept[i as int]));
            }
            t
        };
        proof {
            assert(views_of(r@.push(line)) =~~= views_of(r@).push(line@));
            assert(kept.take(i + 1).map_values(|l: Seq<char>| strip_cr(l)) =~~= kept.take(
                i as int,
            ).map_values(|l: Seq<char>| strip_cr(l)).push(strip_cr(kept[i as int])));
        }
        r.push(line);
        i = i + 1;
    }
    proof {
        assert(kept.take(n as int) =~~= kept);
    }
    r
}

/// The views of a text's highlighted lines.
pub open spec fn line_token_views(ls: Seq<Vec<Token>>) -> Seq<Seq<(TokenKind, Seq<char>)>> {
    ls.map_values(|ts: Vec<Token>| token_views(ts@))
}

/// The highlighted form of a whole text: each line tokenized.
pub open spec fn highlight_spec(s: Seq<char>) -> Seq<Seq<(TokenKind, Seq<char>)>> {
    lines_of(s).map_values(|l: Seq<char>| tokenize_line_spec(l))
}

/// Tokenize every line of `text` for styling. Best-effort and total: any
/// input, JSON or not, produces a token sequence.
pub fn highlight(text: &str) -> (r: Vec<Vec<Token>>)
    ensures
        line_token_views(r@) == highlight_spec(text@),
{
    let chars = str_to_chars(text);
    let lines = split_lines(&chars);
    let ghost lviews = views_of(lines@);
    let mut r: Vec<Vec<Token>> = Vec::new();
    let n = lines.len();
    let mut i: usize = 0;
    proof {
        assert(line_token_views(r@) =~~= lviews.take(0).map_values(
            |l: Seq<char>| tokenize_line_spec(l),
        ));
    }
    while i < n
        invariant
            i <= n == lines@.len(),
            lviews == views_of(lines@),
            line_token_views(r@) == lviews.take(i as int).map_values(
                |l: Seq<char>| tokenize_line_spec(l),
            ),
        decreases n - i,
    {
        let toks = tokenize_line(&lines[i]);
        proof {
            assert(line_token_views(r@.push(toks)) =~~= line_token_views(r@).push(
                token_views(toks@),
            ));
            assert(lviews.take(i + 1).map_values(|l: Seq<char>| tokenize_line_spec(l)) =~~=
                lviews.take(i as int).map_values(|l: Seq<char>| tokenize_line_spec(l)).push(
                tokenize_line_spec(lviews[i as int]),
            ));
        }
        r.push(toks);
        i = i + 1;
    }
    proof {
        assert(lviews.take(n as int) =~~= lviews);
        assert(line_token_views(r@) =~~= highlight_spec(text@));
    }
    r
}

} // verus!
