//! Words of the formula language.
use vstd::prelude::*;

use crate::text::{chars_of, digit, letter, space, string_of};

verus! {

/// One word of a formula.
#[derive(Clone, Debug)]
pub enum Tok {
    /// A number, as written.
    Num(String),
    Ident(String),
    LParen,
    RParen,
    Comma,
    /// One of `+ - * / ^ < >`.
    Op(char),
}

/// What a [`Tok`] says.
pub enum Lexeme {
    Num(Seq<char>),
    Ident(Seq<char>),
    LParen,
    RParen,
    Comma,
    Op(char),
}

impl View for Tok {
    type V = Lexeme;

    open spec fn view(&self) -> Lexeme {
        match *self {
            Tok::Num(s) => Lexeme::Num(s@),
            Tok::Ident(s) => Lexeme::Ident(s@),
            Tok::LParen => Lexeme::LParen,
            Tok::RParen => Lexeme::RParen,
            Tok::Comma => Lexeme::Comma,
            Tok::Op(c) => Lexeme::Op(c),
        }
    }
}

/// The words of a list of tokens.
pub open spec fn lexemes(toks: Seq<Tok>) -> Seq<Lexeme> {
    Seq::new(toks.len(), |i: int| toks[i]@)
}

/// Why a text has no words.
pub enum LexFault {
    BadNumber(Seq<char>),
    Unexpected(char),
}

/// [`LexFault`], with the text at fault.
#[derive(Clone, Debug)]
pub enum LexError {
    BadNumber(String),
    Unexpected(char),
}

impl View for LexError {
    type V = LexFault;

    open spec fn view(&self) -> LexFault {
        match *self {
            LexError::BadNumber(s) => LexFault::BadNumber(s@),
            LexError::Unexpected(c) => LexFault::Unexpected(c),
        }
    }
}

/// First position from `i` on where `p` no longer holds.
pub open spec fn past(s: Seq<char>, i: int, p: spec_fn(char) -> bool) -> int
    decreases s.len() - i,
{
    if 0 <= i < s.len() && p(s[i]) {
        past(s, i + 1, p)
    } else {
        i
    }
}

pub open spec fn is_digit_or_dot(c: char) -> bool {
    crate::text::is_digit(c) || c == '.'
}

pub open spec fn is_operator(c: char) -> bool {
    c == '+' || c == '-' || c == '*' || c == '/' || c == '^' || c == '<' || c == '>'
}

/// A number starts with a digit, or with a dot before a digit.
pub open spec fn starts_number(s: Seq<char>, i: int) -> bool {
    crate::text::is_digit(s[i]) || (s[i] == '.' && i + 1 < s.len() && crate::text::is_digit(s[i + 1]))
}

/// End of the number that starts at `i`: digits and dots, then an exponent where one follows.
pub open spec fn number_end(s: Seq<char>, i: int) -> int {
    let m = past(s, i, |c: char| is_digit_or_dot(c));
    if m < s.len() && (s[m] == 'e' || s[m] == 'E') {
        let j = if m + 1 < s.len() && (s[m + 1] == '+' || s[m + 1] == '-') {
            m + 2
        } else {
            m + 1
        };
        if j < s.len() && crate::text::is_digit(s[j]) {
            past(s, j, |c: char| crate::text::is_digit(c))
        } else {
            m
        }
    } else {
        m
    }
}

/// End of the name that starts at `i`.
pub open spec fn name_end(s: Seq<char>, i: int) -> int {
    past(s, i, |c: char| crate::text::continues_name(c))
}

/// Two dots make no number.
pub open spec fn malformed(text: Seq<char>) -> bool {
    exists|i: int, j: int| 0 <= i < j < text.len() && text[i] == '.' && text[j] == '.'
}

/// Words in front of the words of a rest.
pub open spec fn after(front: Seq<Lexeme>, rest: Result<Seq<Lexeme>, LexFault>) -> Result<Seq<Lexeme>, LexFault> {
    match rest {
        Ok(words) => Ok(front + words),
        Err(fault) => Err(fault),
    }
}

pub open spec fn sign(c: char) -> Option<Lexeme> {
    if c == '(' {
        Some(Lexeme::LParen)
    } else if c == ')' {
        Some(Lexeme::RParen)
    } else if c == ',' {
        Some(Lexeme::Comma)
    } else if is_operator(c) {
        Some(Lexeme::Op(c))
    } else {
        None
    }
}

/// The words of a text from position `i` on, or the first thing wrong with it.
pub open spec fn words_from(s: Seq<char>, i: int) -> Result<Seq<Lexeme>, LexFault>
    decreases s.len() - i,
{
    if i < 0 || i >= s.len() {
        Ok(seq![])
    } else if crate::text::is_space(s[i]) {
        words_from(s, i + 1)
    } else if starts_number(s, i) {
        proof {
            lemma_number_end(s, i);
        }
        let end = number_end(s, i);
        let text = s.subrange(i, end);
        if malformed(text) {
            Err(LexFault::BadNumber(text))
        } else {
            after(seq![Lexeme::Num(text)], words_from(s, end))
        }
    } else if crate::text::starts_name(s[i]) {
        proof {
            lemma_past(s, i + 1, |c: char| crate::text::continues_name(c));
        }
        let end = name_end(s, i);
        after(seq![Lexeme::Ident(s.subrange(i, end))], words_from(s, end))
    } else {
        match sign(s[i]) {
            Some(word) => after(seq![word], words_from(s, i + 1)),
            None => Err(LexFault::Unexpected(s[i])),
        }
    }
}

/// The words of a text.
pub open spec fn words(s: Seq<char>) -> Result<Seq<Lexeme>, LexFault> {
    words_from(s, 0)
}

/// A run ends inside the text, and everything in it belongs to it.
pub proof fn lemma_past(s: Seq<char>, i: int, p: spec_fn(char) -> bool)
    requires
        0 <= i <= s.len(),
    ensures
        i <= past(s, i, p) <= s.len(),
        forall|k: int| i <= k < past(s, i, p) ==> p(#[trigger] s[k]),
        past(s, i, p) < s.len() ==> !p(s[past(s, i, p)]),
    decreases s.len() - i,
{
    if i < s.len() && p(s[i]) {
        lemma_past(s, i + 1, p);
    }
}

/// A number takes at least one character.
pub proof fn lemma_number_end(s: Seq<char>, i: int)
    requires
        0 <= i < s.len(),
        starts_number(s, i),
    ensures
        i < number_end(s, i) <= s.len(),
{
    lemma_past(s, i + 1, |c: char| is_digit_or_dot(c));
    let m = past(s, i, |c: char| is_digit_or_dot(c));
    let j = if m + 1 < s.len() && (s[m + 1] == '+' || s[m + 1] == '-') {
        m + 2
    } else {
        m + 1
    };
    if j < s.len() {
        lemma_past(s, j, |c: char| crate::text::is_digit(c));
    }
}

fn skip_name(chars: &Vec<char>, i: usize) -> (r: usize)
    requires
        i < chars@.len(),
        crate::text::starts_name(chars@[i as int]),
    ensures
        r == name_end(chars@, i as int),
        i < r <= chars@.len(),
{
    let mut k: usize = i;
    while k < chars.len() && (letter(chars[k]) || digit(chars[k]) || chars[k] == '_')
        invariant
            i <= k <= chars@.len(),
            i < chars@.len(),
            crate::text::starts_name(chars@[i as int]),
            name_end(chars@, i as int) == past(chars@, k as int, |c: char| crate::text::continues_name(c)),
        decreases chars@.len() - k,
    {
        k = k + 1;
    }
    k
}

fn skip_digits(chars: &Vec<char>, i: usize) -> (r: usize)
    requires
        i < chars@.len(),
    ensures
        r == past(chars@, i as int, |c: char| crate::text::is_digit(c)),
        i <= r <= chars@.len(),
{
    let mut k: usize = i;
    while k < chars.len() && digit(chars[k])
        invariant
            i <= k <= chars@.len(),
            past(chars@, i as int, |c: char| crate::text::is_digit(c)) == past(
                chars@,
                k as int,
                |c: char| crate::text::is_digit(c),
            ),
        decreases chars@.len() - k,
    {
        k = k + 1;
    }
    k
}

fn skip_number(chars: &Vec<char>, i: usize) -> (r: usize)
    requires
        i < chars@.len(),
        starts_number(chars@, i as int),
    ensures
        r == number_end(chars@, i as int),
        i < r <= chars@.len(),
{
    let mut m: usize = i;
    while m < chars.len() && (digit(chars[m]) || chars[m] == '.')
        invariant
            i <= m <= chars@.len(),
            i < chars@.len(),
            starts_number(chars@, i as int),
            past(chars@, i as int, |c: char| is_digit_or_dot(c)) == past(chars@, m as int, |c: char| is_digit_or_dot(c)),
        decreases chars@.len() - m,
    {
        m = m + 1;
    }
    if m < chars.len() && (chars[m] == 'e' || chars[m] == 'E') {
        let mut j: usize = m + 1;
        if j < chars.len() && (chars[j] == '+' || chars[j] == '-') {
            j = j + 1;
        }
        if j < chars.len() && digit(chars[j]) {
            return skip_digits(chars, j);
        }
    }
    m
}

/// Whether a number has more than one dot.
fn dotted_twice(chars: &Vec<char>, from: usize, to: usize) -> (r: bool)
    requires
        from <= to <= chars@.len(),
    ensures
        r == malformed(chars@.subrange(from as int, to as int)),
{
    let ghost text = chars@.subrange(from as int, to as int);
    let mut seen = false;
    let ghost mut first: int = 0;
    let mut i: usize = from;
    while i < to
        invariant
            from <= i <= to <= chars@.len(),
            text == chars@.subrange(from as int, to as int),
            seen ==> 0 <= first < i - from && text[first] == '.',
            forall|k: int| 0 <= k < i - from && !(seen && k == first) ==> text[k] != '.',
        decreases to - i,
    {
        assert(text[i - from] == chars@[i as int]);
        if chars[i] == '.' {
            if seen {
                return true;
            }
            seen = true;
            proof {
                first = i - from;
            }
        }
        i = i + 1;
    }
    false
}

/// The words of a formula.
pub fn tokenize(src: &str) -> (r: Result<Vec<Tok>, LexError>)
    ensures
        match r {
            Ok(toks) => words(src@) == Ok::<Seq<Lexeme>, LexFault>(lexemes(toks@)),
            Err(e) => words(src@) == Err::<Seq<Lexeme>, LexFault>(e@),
        },
{
    let chars = chars_of(src);
    let mut i: usize = 0;
    let mut out: Vec<Tok> = Vec::new();
    assert(after(lexemes(out@), words_from(chars@, 0)) == words(src@)) by {
        match words_from(chars@, 0) {
            Ok(w) => {
                assert(lexemes(out@) + w =~= w);
            },
            Err(_) => {},
        }
    }
    while i < chars.len()
        invariant
            i <= chars@.len(),
            chars@ == src@,
            after(lexemes(out@), words_from(chars@, i as int)) == words(src@),
        decreases chars@.len() - i,
    {
        let c = chars[i];
        let ghost (before, start) = (out@, i as int);
        if space(c) {
            i = i + 1;
        } else if digit(c) || (c == '.' && i + 1 < chars.len() && digit(chars[i + 1])) {
            let end = skip_number(&chars, i);
            let text = string_of(&chars, i, end);
            if dotted_twice(&chars, i, end) {
                return Err(LexError::BadNumber(text));
            }
            out.push(Tok::Num(text));
            i = end;
            proof {
                lemma_push(before, out@.last(), words_from(chars@, i as int));
            }
        } else if letter(c) || c == '_' {
            let end = skip_name(&chars, i);
            out.push(Tok::Ident(string_of(&chars, i, end)));
            i = end;
            proof {
                lemma_push(before, out@.last(), words_from(chars@, i as int));
            }
        } else {
            let tok = match c {
                '(' => Tok::LParen,
                ')' => Tok::RParen,
                ',' => Tok::Comma,
                '+' | '-' | '*' | '/' | '^' | '<' | '>' => Tok::Op(c),
                _ => return Err(LexError::Unexpected(c)),
            };
            out.push(tok);
            i = i + 1;
            proof {
                lemma_push(before, out@.last(), words_from(chars@, i as int));
            }
        }
    }
    assert(lexemes(out@) + Seq::<Lexeme>::empty() =~= lexemes(out@));
    Ok(out)
}

/// A word may be counted to the front or to the rest.
proof fn lemma_push(front: Seq<Tok>, tok: Tok, rest: Result<Seq<Lexeme>, LexFault>)
    ensures
        after(lexemes(front.push(tok)), rest) == after(lexemes(front), after(seq![tok@], rest)),
{
    match rest {
        Ok(w) => {
            assert(lexemes(front.push(tok)) + w =~= lexemes(front) + (seq![tok@] + w));
        },
        Err(_) => {},
    }
}

} // verus!
