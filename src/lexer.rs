//! Splitting query text into tokens.

use vstd::prelude::*;

use crate::query::CompareOp;
use crate::text::{is_space, is_space_spec, string_of};

verus! {

/// A token of the query language, as the grammar sees it.
pub enum TokenV {
    Word(Seq<char>),
    LParen,
    RParen,
    And,
    Or,
    Not,
    Op(CompareOp),
}

/// A token of the query language.
pub enum Token {
    Word(String),
    LParen,
    RParen,
    And,
    Or,
    Not,
    Op(CompareOp),
}

impl View for Token {
    type V = TokenV;

    open spec fn view(&self) -> TokenV {
        match self {
            Token::Word(w) => TokenV::Word(w@),
            Token::LParen => TokenV::LParen,
            Token::RParen => TokenV::RParen,
            Token::And => TokenV::And,
            Token::Or => TokenV::Or,
            Token::Not => TokenV::Not,
            Token::Op(op) => TokenV::Op(*op),
        }
    }
}

/// A token with the character position at which it starts.
pub struct Lexeme {
    pub token: Token,
    pub start: usize,
}

/// The tokens and start positions of a sequence of lexemes.
pub open spec fn lexemes_view(ls: Seq<Lexeme>) -> Seq<(TokenV, nat)> {
    ls.map_values(|l: Lexeme| (l.token@, l.start as nat))
}

/// Characters that end an unquoted word.
pub open spec fn is_delimiter(c: char) -> bool {
    is_space_spec(c) || c == '(' || c == ')' || c == '=' || c == '!' || c == '<' || c == '>'
        || c == '"'
}

fn delimiter(c: char) -> (r: bool)
    ensures
        r == is_delimiter(c),
{
    is_space(c) || c == '(' || c == ')' || c == '=' || c == '!' || c == '<' || c == '>' || c
        == '"'
}

/// An unquoted word starting at `i`: its text with escapes removed, the
/// position after it, and whether it held an escape. A backslash takes the
/// next character literally; a backslash at the end of the text is an error.
pub open spec fn scan_word(s: Seq<char>, i: nat) -> Result<(Seq<char>, nat, bool), nat>
    decreases s.len() - i,
{
    if i >= s.len() || is_delimiter(s[i as int]) {
        Ok((Seq::empty(), i, false))
    } else if s[i as int] == '\\' {
        if i + 1 >= s.len() {
            Err(i)
        } else {
            match scan_word(s, i + 2) {
                Ok((t, e, _)) => Ok((seq![s[i + 1 as int]] + t, e, true)),
                Err(p) => Err(p),
            }
        }
    } else {
        match scan_word(s, i + 1) {
            Ok((t, e, x)) => Ok((seq![s[i as int]] + t, e, x)),
            Err(p) => Err(p),
        }
    }
}

pub open spec fn is_word2(t: Seq<char>, a: char, b: char) -> bool {
    t.len() == 2 && t[0] == a && t[1] == b
}

pub open spec fn is_word3(t: Seq<char>, a: char, b: char, c: char) -> bool {
    t.len() == 3 && t[0] == a && t[1] == b && t[2] == c
}

/// The token for an unquoted word: a keyword unless it held an escape.
pub open spec fn word_token(t: Seq<char>, escaped: bool) -> TokenV {
    if escaped {
        TokenV::Word(t)
    } else if is_word3(t, 'a', 'n', 'd') {
        TokenV::And
    } else if is_word2(t, 'o', 'r') {
        TokenV::Or
    } else if is_word3(t, 'n', 'o', 't') {
        TokenV::Not
    } else if is_word2(t, 'e', 'q') {
        TokenV::Op(CompareOp::Equal)
    } else if is_word2(t, 'n', 'e') {
        TokenV::Op(CompareOp::NotEqual)
    } else if is_word2(t, 'l', 't') {
        TokenV::Op(CompareOp::LessThan)
    } else if is_word2(t, 'g', 't') {
        TokenV::Op(CompareOp::GreaterThan)
    } else if is_word2(t, 'l', 'e') {
        TokenV::Op(CompareOp::LessOrEqual)
    } else if is_word2(t, 'g', 'e') {
        TokenV::Op(CompareOp::GreaterOrEqual)
    } else {
        TokenV::Word(t)
    }
}

/// The position of the first double quote at or after `i`.
pub open spec fn find_quote(s: Seq<char>, i: nat) -> Option<nat>
    decreases s.len() - i,
{
    if i >= s.len() {
        None
    } else if s[i as int] == '"' {
        Some(i)
    } else {
        find_quote(s, i + 1)
    }
}

pub open spec fn cons<X>(x: X, r: Result<Seq<X>, nat>) -> Result<Seq<X>, nat> {
    match r {
        Ok(xs) => Ok(seq![x] + xs),
        Err(p) => Err(p),
    }
}

/// The tokens of `s` from position `i`, each with its start, or the
/// position of the first character that no token can begin with.
pub open spec fn lex(s: Seq<char>, i: nat) -> Result<Seq<(TokenV, nat)>, nat>
    decreases s.len() - i,
{
    if i >= s.len() {
        Ok(Seq::empty())
    } else {
        let c = s[i as int];
        let two = i + 1 < s.len() && s[i + 1 as int] == '=';
        if is_space_spec(c) {
            lex(s, i + 1)
        } else if c == '(' {
            cons((TokenV::LParen, i), lex(s, i + 1))
        } else if c == ')' {
            cons((TokenV::RParen, i), lex(s, i + 1))
        } else if c == '=' {
            if two {
                cons((TokenV::Op(CompareOp::Equal), i), lex(s, i + 2))
            } else {
                cons((TokenV::Op(CompareOp::Equal), i), lex(s, i + 1))
            }
        } else if c == '!' {
            if two {
                cons((TokenV::Op(CompareOp::NotEqual), i), lex(s, i + 2))
            } else {
                Err(i)
            }
        } else if c == '<' {
            if two {
                cons((TokenV::Op(CompareOp::LessOrEqual), i), lex(s, i + 2))
            } else {
                cons((TokenV::Op(CompareOp::LessThan), i), lex(s, i + 1))
            }
        } else if c == '>' {
            if two {
                cons((TokenV::Op(CompareOp::GreaterOrEqual), i), lex(s, i + 2))
            } else {
                cons((TokenV::Op(CompareOp::GreaterThan), i), lex(s, i + 1))
            }
        } else if c == '"' {
            match find_quote(s, i + 1) {
                None => Err(i),
                Some(j) => if i < j < s.len() {
                    cons((TokenV::Word(s.subrange(i + 1 as int, j as int)), i), lex(s, j + 1))
                } else {
                    Err(i)
                },
            }
        } else {
            match scan_word(s, i) {
                Err(p) => Err(p),
                Ok((t, e, x)) => if i < e <= s.len() {
                    cons((word_token(t, x), i), lex(s, e))
                } else {
                    Err(i)
                },
            }
        }
    }
}

fn scan(s: &Vec<char>, i: usize) -> (r: Result<(Vec<char>, usize, bool), usize>)
    requires
        i < s.len(),
        !is_delimiter(s@[i as int]),
    ensures
        match r {
            Ok((t, e, x)) => scan_word(s@, i as nat) == Ok::<_, nat>((t@, e as nat, x)) && i < e
                <= s.len(),
            Err(p) => scan_word(s@, i as nat) == Err::<(Seq<char>, nat, bool), nat>(p as nat),
        },
{
    let mut acc: Vec<char> = Vec::new();
    let mut esc = false;
    let mut j: usize = i;
    while j < s.len() && !delimiter(s[j])
        invariant
            i <= j <= s.len(),
            j == i ==> acc@.len() == 0 && !esc,
            j > i || (j < s.len() && !is_delimiter(s@[j as int])),
            scan_word(s@, i as nat) == match scan_word(s@, j as nat) {
                Ok((t, e, x)) => Ok((acc@ + t, e, x || esc)),
                Err(p) => Err(p),
            },
        decreases s.len() - j,
    {
        if s[j] == '\\' {
            if j + 1 >= s.len() {
                return Err(j);
            }
            let ghost old_acc = acc@;
            acc.push(s[j + 1]);
            esc = true;
            proof {
                let c = s@[j + 1];
                match scan_word(s@, (j + 2) as nat) {
                    Ok((t, e, x)) => {
                        assert(old_acc + (seq![c] + t) =~= acc@ + t);
                    },
                    Err(p) => {},
                }
            }
            j = j + 2;
        } else {
            let ghost old_acc = acc@;
            acc.push(s[j]);
            proof {
                let c = s@[j as int];
                match scan_word(s@, (j + 1) as nat) {
                    Ok((t, e, x)) => {
                        assert(old_acc + (seq![c] + t) =~= acc@ + t);
                    },
                    Err(p) => {},
                }
            }
            j = j + 1;
        }
    }
    assert(acc@ + Seq::<char>::empty() =~= acc@);
    Ok((acc, j, esc))
}

fn classify(t: Vec<char>, escaped: bool) -> (r: Token)
    ensures
        r@ == word_token(t@, escaped),
{
    let n = t.len();
    if escaped {
        Token::Word(string_of(&t))
    } else if n == 3 && t[0] == 'a' && t[1] == 'n' && t[2] == 'd' {
        Token::And
    } else if n == 2 && t[0] == 'o' && t[1] == 'r' {
        Token::Or
    } else if n == 3 && t[0] == 'n' && t[1] == 'o' && t[2] == 't' {
        Token::Not
    } else if n == 2 && t[0] == 'e' && t[1] == 'q' {
        Token::Op(CompareOp::Equal)
    } else if n == 2 && t[0] == 'n' && t[1] == 'e' {
        Token::Op(CompareOp::NotEqual)
    } else if n == 2 && t[0] == 'l' && t[1] == 't' {
        Token::Op(CompareOp::LessThan)
    } else if n == 2 && t[0] == 'g' && t[1] == 't' {
        Token::Op(CompareOp::GreaterThan)
    } else if n == 2 && t[0] == 'l' && t[1] == 'e' {
        Token::Op(CompareOp::LessOrEqual)
    } else if n == 2 && t[0] == 'g' && t[1] == 'e' {
        Token::Op(CompareOp::GreaterOrEqual)
    } else {
        Token::Word(string_of(&t))
    }
}

fn quote_end(s: &Vec<char>, i: usize) -> (r: Option<usize>)
    requires
        i <= s.len(),
    ensures
        match r {
            Some(j) => find_quote(s@, i as nat) == Some(j as nat) && i <= j < s.len(),
            None => find_quote(s@, i as nat) is None,
        },
{
    let mut j: usize = i;
    while j < s.len()
        invariant
            i <= j <= s.len(),
            find_quote(s@, i as nat) == find_quote(s@, j as nat),
        decreases s.len() - j,
    {
        if s[j] == '"' {
            return Some(j);
        }
        j = j + 1;
    }
    None
}

fn slice(s: &Vec<char>, from: usize, to: usize) -> (r: Vec<char>)
    requires
        from <= to <= s.len(),
    ensures
        r@ == s@.subrange(from as int, to as int),
{
    let mut r: Vec<char> = Vec::new();
    let mut k: usize = from;
    while k < to
        invariant
            from <= k <= to <= s.len(),
            r@ == s@.subrange(from as int, k as int),
        decreases to - k,
    {
        r.push(s[k]);
        k = k + 1;
        assert(r@ =~= s@.subrange(from as int, k as int));
    }
    r
}

/// Splits query text into tokens, or gives the position at which no
/// token can begin.
pub fn tokenize(s: &Vec<char>) -> (r: Result<Vec<Lexeme>, usize>)
    ensures
        match r {
            Ok(ls) => lex(s@, 0) == Ok::<_, nat>(lexemes_view(ls@)) && (forall|k: int|
                0 <= k < ls@.len() ==> #[trigger] ls@[k].start < s.len()),
            Err(p) => lex(s@, 0) == Err::<Seq<(TokenV, nat)>, nat>(p as nat),
        },
{
    let mut out: Vec<Lexeme> = Vec::new();
    let mut i: usize = 0;
    while i < s.len()
        invariant
            i <= s.len(),
            lex(s@, 0) == match lex(s@, i as nat) {
                Ok(rest) => Ok(lexemes_view(out@) + rest),
                Err(p) => Err(p),
            },
            forall|k: int| 0 <= k < out@.len() ==> #[trigger] out@[k].start < s.len(),
        decreases s.len() - i,
    {
        let c = s[i];
        let two = i + 1 < s.len() && s[i + 1] == '=';
        let ghost before = lexemes_view(out@);
        let next: usize;
        if is_space(c) {
            next = i + 1;
        } else {
            let token: Token;
            if c == '(' {
                token = Token::LParen;
                next = i + 1;
            } else if c == ')' {
                token = Token::RParen;
                next = i + 1;
            } else if c == '=' {
                token = Token::Op(CompareOp::Equal);
                next = if two { i + 2 } else { i + 1 };
            } else if c == '!' {
                if !two {
                    return Err(i);
                }
                token = Token::Op(CompareOp::NotEqual);
                next = i + 2;
            } else if c == '<' {
                token = Token::Op(if two { CompareOp::LessOrEqual } else { CompareOp::LessThan });
                next = if two { i + 2 } else { i + 1 };
            } else if c == '>' {
                token = Token::Op(
                    if two { CompareOp::GreaterOrEqual } else { CompareOp::GreaterThan },
                );
                next = if two { i + 2 } else { i + 1 };
            } else if c == '"' {
                match quote_end(s, i + 1) {
                    None => {
                        return Err(i);
                    },
                    Some(j) => {
                        token = Token::Word(string_of(&slice(s, i + 1, j)));
                        next = j + 1;
                    },
                }
            } else {
                match scan(s, i) {
                    Err(p) => {
                        return Err(p);
                    },
                    Ok((t, e, x)) => {
                        token = classify(t, x);
                        next = e;
                    },
                }
            }
            out.push(Lexeme { token, start: i });
            assert(lexemes_view(out@) =~= before + seq![(token@, i as nat)]);
            proof {
                match lex(s@, next as nat) {
                    Ok(rest) => {
                        assert(before + (seq![(token@, i as nat)] + rest) =~= lexemes_view(out@)
                            + rest);
                    },
                    Err(p) => {},
                }
            }
        }
        i = next;
    }
    assert(lexemes_view(out@) + Seq::<(TokenV, nat)>::empty() =~= lexemes_view(out@));
    Ok(out)
}

} // verus!
