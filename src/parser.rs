//! The query grammar and its recursive-descent parser.

use vstd::prelude::*;

use crate::lexer::{cons, lex, lexemes_view, tokenize, Lexeme, Token, TokenV};
use crate::text::is_space_spec;
use crate::query::{Ast, CompareOp, Expression, Query};
use crate::tag::Tag;
use crate::text::chars_of;
use crate::value::Value;

verus! {

/// A malformed query: `position` is the character at which parsing failed
/// (the length of the text when it ended too early).
#[derive(Debug, PartialEq, Eq)]
pub struct QuerySyntaxError {
    pub position: usize,
}

impl QuerySyntaxError {
    /// The error's message.
    pub fn message(&self) -> (r: String)
        ensures
            r@ == "query syntax error at position "@ + crate::text::decimal(self.position as nat),
    {
        let mut r = String::from_str("query syntax error at position ");
        crate::text::push_decimal(&mut r, self.position);
        r
    }
}

/// Whether a token can begin a unary term.
pub open spec fn starts_unary(t: TokenV) -> bool {
    t is Word || t is LParen || t is Not
}

/// The deepest nesting of grammar rules that a query may reach; deeper
/// text is a syntax error at the token where the limit is passed.
pub const MAX_DEPTH: usize = 1000;

/// `or_expr := and_expr ('or' or_expr)?` from token `i` at nesting depth
/// `d`: the expression and the index after it, or the index of the
/// offending token.
pub open spec fn p_or(t: Seq<TokenV>, i: int, d: int) -> Result<(Ast, int), int>
    decreases t.len() - i, 2int,
{
    if i < 0 || i > t.len() || d > MAX_DEPTH {
        Err(i)
    } else {
        match p_and(t, i, d + 1) {
            Err(k) => Err(k),
            Ok((l, j)) => if i < j < t.len() && t[j] is Or {
                match p_or(t, j + 1, d + 1) {
                    Err(k) => Err(k),
                    Ok((r, k)) => Ok((Ast::Or(Box::new(l), Box::new(r)), k)),
                }
            } else {
                Ok((l, j))
            },
        }
    }
}

/// `and_expr := unary (['and'] and_expr)?`: adjacent terms are conjoined.
pub open spec fn p_and(t: Seq<TokenV>, i: int, d: int) -> Result<(Ast, int), int>
    decreases t.len() - i, 1int,
{
    if i < 0 || i > t.len() || d > MAX_DEPTH {
        Err(i)
    } else {
        match p_unary(t, i, d + 1) {
            Err(k) => Err(k),
            Ok((l, j)) => if i < j < t.len() && t[j] is And {
                match p_and(t, j + 1, d + 1) {
                    Err(k) => Err(k),
                    Ok((r, k)) => Ok((Ast::And(Box::new(l), Box::new(r)), k)),
                }
            } else if i < j < t.len() && starts_unary(t[j]) {
                match p_and(t, j, d + 1) {
                    Err(k) => Err(k),
                    Ok((r, k)) => Ok((Ast::And(Box::new(l), Box::new(r)), k)),
                }
            } else {
                Ok((l, j))
            },
        }
    }
}

/// `unary := 'not' unary | '(' or_expr ')' | word (op word)?`.
pub open spec fn p_unary(t: Seq<TokenV>, i: int, d: int) -> Result<(Ast, int), int>
    decreases t.len() - i, 0int,
{
    if i < 0 || i >= t.len() || d > MAX_DEPTH {
        Err(i)
    } else {
        match t[i] {
            TokenV::Not => match p_unary(t, i + 1, d + 1) {
                Err(k) => Err(k),
                Ok((x, j)) => Ok((Ast::Not(Box::new(x)), j)),
            },
            TokenV::LParen => match p_or(t, i + 1, d + 1) {
                Err(k) => Err(k),
                Ok((x, j)) => if 0 <= j < t.len() && t[j] is RParen {
                    Ok((x, j + 1))
                } else {
                    Err(j)
                },
            },
            TokenV::Word(w) => if i + 1 < t.len() && t[i + 1] is Op {
                if i + 2 < t.len() && t[i + 2] is Word {
                    Ok((Ast::Compare(t[i + 1]->Op_0, w, t[i + 2]->Word_0), i + 3))
                } else {
                    Err(i + 2)
                }
            } else {
                Ok((Ast::Tagged(w), i + 1))
            },
            _ => Err(i),
        }
    }
}

/// The expression of a whole token sequence: none when there are no
/// tokens, else the index of the offending token.
pub open spec fn parse_tokens(t: Seq<TokenV>) -> Result<Option<Ast>, int> {
    if t.len() == 0 {
        Ok(None)
    } else {
        match p_or(t, 0, 0) {
            Err(k) => Err(k),
            Ok((e, j)) => if j == t.len() {
                Ok(Some(e))
            } else {
                Err(j)
            },
        }
    }
}

/// The character position of token `k`, or `n` past the last one.
pub open spec fn token_position(ls: Seq<(TokenV, nat)>, k: int, n: nat) -> nat {
    if 0 <= k < ls.len() {
        ls[k].1
    } else {
        n
    }
}

/// What query text means: no expression for blank text, the expression
/// that the grammar gives, or the character position of the error.
pub open spec fn parse_text(s: Seq<char>) -> Result<Option<Ast>, nat> {
    match lex(s, 0) {
        Err(p) => Err(p),
        Ok(ls) => match parse_tokens(ls.map_values(|l: (TokenV, nat)| l.0)) {
            Ok(e) => Ok(e),
            Err(k) => Err(token_position(ls, k, s.len())),
        },
    }
}

/// Whether every character of `s` from position `i` on is whitespace.
pub open spec fn blank_from(s: Seq<char>, i: nat) -> bool {
    forall|j: int| i <= j < s.len() ==> is_space_spec(#[trigger] s[j])
}

proof fn lemma_cons_not_empty<X>(x: X, r: Result<Seq<X>, nat>)
    ensures
        cons(x, r) != Ok::<Seq<X>, nat>(Seq::empty()),
{
    match r {
        Ok(xs) => {
            assert((seq![x] + xs).len() == xs.len() + 1);
        },
        Err(_) => {},
    }
}

proof fn lemma_lex_blank(s: Seq<char>, i: nat)
    ensures
        lex(s, i) == Ok::<Seq<(TokenV, nat)>, nat>(Seq::empty()) <==> blank_from(s, i),
    decreases s.len() - i,
{
    if i < s.len() {
        let c = s[i as int];
        if is_space_spec(c) {
            lemma_lex_blank(s, i + 1);
            assert(blank_from(s, i) <==> blank_from(s, i + 1));
        } else {
            assert(!blank_from(s, i));
            let two = i + 1 < s.len() && s[i + 1 as int] == '=';
            if c == '(' || c == ')' {
                lemma_cons_not_empty((TokenV::LParen, i), lex(s, i + 1));
                lemma_cons_not_empty((TokenV::RParen, i), lex(s, i + 1));
            } else if c == '=' || c == '!' || c == '<' || c == '>' {
                let e = if two { i + 2 } else { i + 1 };
                lemma_cons_not_empty((TokenV::Op(CompareOp::Equal), i), lex(s, e));
                lemma_cons_not_empty((TokenV::Op(CompareOp::NotEqual), i), lex(s, e));
                lemma_cons_not_empty((TokenV::Op(CompareOp::LessOrEqual), i), lex(s, e));
                lemma_cons_not_empty((TokenV::Op(CompareOp::LessThan), i), lex(s, e));
                lemma_cons_not_empty((TokenV::Op(CompareOp::GreaterOrEqual), i), lex(s, e));
                lemma_cons_not_empty((TokenV::Op(CompareOp::GreaterThan), i), lex(s, e));
            } else if c == '"' {
                match crate::lexer::find_quote(s, i + 1) {
                    None => {},
                    Some(j) => {
                        lemma_cons_not_empty(
                            (TokenV::Word(s.subrange(i + 1 as int, j as int)), i),
                            lex(s, j + 1),
                        );
                    },
                }
            } else {
                match crate::lexer::scan_word(s, i) {
                    Err(_) => {},
                    Ok((t, e, x)) => {
                        lemma_cons_not_empty((crate::lexer::word_token(t, x), i), lex(s, e));
                    },
                }
            }
        }
    }
}

/// Text has no expression exactly when it is blank: empty or whitespace
/// only.
pub proof fn lemma_blank_text_has_no_expression(s: Seq<char>)
    ensures
        parse_text(s) == Ok::<Option<Ast>, nat>(None) <==> blank_from(s, 0),
{
    lemma_lex_blank(s, 0);
    match lex(s, 0) {
        Err(_) => {},
        Ok(ls) => {
            let t = ls.map_values(|l: (TokenV, nat)| l.0);
            if ls.len() == 0 {
                assert(ls =~= Seq::<(TokenV, nat)>::empty());
            } else {
                assert(t.len() > 0);
            }
        },
    }
}

pub open spec fn kinds(ls: Seq<Lexeme>) -> Seq<TokenV> {
    ls.map_values(|l: Lexeme| l.token@)
}

pub open spec fn parsed(r: Result<(Expression, usize), usize>, s: Result<(Ast, int), int>, i: int, n: int) -> bool {
    match r {
        Ok((e, j)) => s == Ok::<(Ast, int), int>((e.ast(), j as int)) && i < j <= n,
        Err(k) => s == Err::<(Ast, int), int>(k as int) && k <= n,
    }
}

fn parse_or(ls: &Vec<Lexeme>, i: usize, d: usize) -> (r: Result<(Expression, usize), usize>)
    requires
        i <= ls.len(),
        d <= MAX_DEPTH + 1,
    ensures
        parsed(r, p_or(kinds(ls@), i as int, d as int), i as int, ls.len() as int),
    decreases ls.len() - i, 2int,
{
    let ghost t = kinds(ls@);
    if d > MAX_DEPTH {
        return Err(i);
    }
    match parse_and(ls, i, d + 1) {
        Err(k) => Err(k),
        Ok((l, j)) => {
            if j < ls.len() && matches!(ls[j].token, Token::Or) {
                assert(t[j as int] is Or);
                match parse_or(ls, j + 1, d + 1) {
                    Err(k) => Err(k),
                    Ok((r, k)) => Ok((Expression::Or(Box::new(l), Box::new(r)), k)),
                }
            } else {
                Ok((l, j))
            }
        },
    }
}

fn parse_and(ls: &Vec<Lexeme>, i: usize, d: usize) -> (r: Result<(Expression, usize), usize>)
    requires
        i <= ls.len(),
        d <= MAX_DEPTH + 1,
    ensures
        parsed(r, p_and(kinds(ls@), i as int, d as int), i as int, ls.len() as int),
    decreases ls.len() - i, 1int,
{
    let ghost t = kinds(ls@);
    if d > MAX_DEPTH {
        return Err(i);
    }
    match parse_unary(ls, i, d + 1) {
        Err(k) => Err(k),
        Ok((l, j)) => {
            if j < ls.len() && matches!(ls[j].token, Token::And) {
                assert(t[j as int] is And);
                match parse_and(ls, j + 1, d + 1) {
                    Err(k) => Err(k),
                    Ok((r, k)) => Ok((Expression::And(Box::new(l), Box::new(r)), k)),
                }
            } else if j < ls.len() && matches!(
                ls[j].token,
                Token::Word(_) | Token::LParen | Token::Not
            ) {
                assert(starts_unary(t[j as int]));
                match parse_and(ls, j, d + 1) {
                    Err(k) => Err(k),
                    Ok((r, k)) => Ok((Expression::And(Box::new(l), Box::new(r)), k)),
                }
            } else {
                assert(!(j < ls.len() && t[j as int] is And));
                assert(!(j < ls.len() && starts_unary(t[j as int])));
                Ok((l, j))
            }
        },
    }
}

fn comparison(op: CompareOp, tag: Tag, value: Value) -> (r: Expression)
    ensures
        r.ast() == Ast::Compare(op, tag@, value@),
{
    match op {
        CompareOp::Equal => Expression::Equal(tag, value),
        CompareOp::NotEqual => Expression::NotEqual(tag, value),
        CompareOp::GreaterThan => Expression::GreaterThan(tag, value),
        CompareOp::LessThan => Expression::LessThan(tag, value),
        CompareOp::GreaterOrEqual => Expression::GreaterOrEqual(tag, value),
        CompareOp::LessOrEqual => Expression::LessOrEqual(tag, value),
    }
}

fn parse_unary(ls: &Vec<Lexeme>, i: usize, d: usize) -> (r: Result<(Expression, usize), usize>)
    requires
        i <= ls.len(),
        d <= MAX_DEPTH + 1,
    ensures
        parsed(r, p_unary(kinds(ls@), i as int, d as int), i as int, ls.len() as int),
    decreases ls.len() - i, 0int,
{
    let ghost t = kinds(ls@);
    if i >= ls.len() || d > MAX_DEPTH {
        return Err(i);
    }
    match &ls[i].token {
        Token::Not => {
            match parse_unary(ls, i + 1, d + 1) {
                Err(k) => Err(k),
                Ok((x, j)) => Ok((Expression::Not(Box::new(x)), j)),
            }
        },
        Token::LParen => {
            match parse_or(ls, i + 1, d + 1) {
                Err(k) => Err(k),
                Ok((x, j)) => {
                    if j < ls.len() && matches!(ls[j].token, Token::RParen) {
                        assert(t[j as int] is RParen);
                        Ok((x, j + 1))
                    } else {
                        assert(!(j < ls.len() && t[j as int] is RParen));
                        Err(j)
                    }
                },
            }
        },
        Token::Word(w) => {
            if i + 1 < ls.len() {
                if let Token::Op(op) = &ls[i + 1].token {
                    if i + 2 < ls.len() {
                        if let Token::Word(v) = &ls[i + 2].token {
                            return Ok(
                                (comparison(*op, Tag(w.clone()), Value(v.clone())), i + 3),
                            );
                        }
                    }
                    assert(!(i + 2 < t.len() && t[i + 2] is Word));
                    return Err(i + 2);
                }
            }
            assert(!(i + 1 < t.len() && t[i + 1] is Op));
            Ok((Expression::Tagged(Tag(w.clone())), i + 1))
        },
        _ => Err(i),
    }
}

/// Parses query text: `None` for blank text, the expression otherwise, or
/// the position at which the text is malformed.
pub fn parse(text: &str) -> (r: Result<Option<Query>, QuerySyntaxError>)
    ensures
        match r {
            Ok(Some(q)) => parse_text(text@) == Ok::<Option<Ast>, nat>(Some(q.0.ast())),
            Ok(None) => parse_text(text@) == Ok::<Option<Ast>, nat>(None),
            Err(e) => parse_text(text@) == Err::<Option<Ast>, nat>(e.position as nat),
        },
{
    let cs = chars_of(text);
    match tokenize(&cs) {
        Err(p) => Err(QuerySyntaxError { position: p }),
        Ok(ls) => {
            let ghost lv = lexemes_view(ls@);
            assert(lv.map_values(|l: (TokenV, nat)| l.0) =~= kinds(ls@));
            if ls.len() == 0 {
                return Ok(None);
            }
            match parse_or(&ls, 0, 0) {
                Err(k) => {
                    let position = if k < ls.len() { ls[k].start } else { cs.len() };
                    Err(QuerySyntaxError { position })
                },
                Ok((e, j)) => {
                    if j == ls.len() {
                        Ok(Some(Query(e)))
                    } else {
                        Err(QuerySyntaxError { position: ls[j].start })
                    }
                },
            }
        },
    }
}

} // verus!
