//! The query expression tree and the names it refers to.

use vstd::prelude::*;

use crate::parser::{parse_text, QuerySyntaxError};
use crate::tag::Tag;
use crate::value::Value;

verus! {

/// A relational operator of a tag/value comparison.
#[derive(Clone, Copy, Debug, PartialEq, Eq, Structural)]
pub enum CompareOp {
    Equal,
    NotEqual,
    GreaterThan,
    LessThan,
    GreaterOrEqual,
    LessOrEqual,
}

/// The abstract shape of a query expression: names are character sequences.
pub enum Ast {
    Tagged(Seq<char>),
    And(Box<Ast>, Box<Ast>),
    Or(Box<Ast>, Box<Ast>),
    Not(Box<Ast>),
    Compare(CompareOp, Seq<char>, Seq<char>),
}

/// A query expression.
#[derive(Debug, PartialEq, Eq)]
pub enum Expression {
    Tagged(Tag),
    And(Box<Expression>, Box<Expression>),
    Or(Box<Expression>, Box<Expression>),
    Not(Box<Expression>),
    Equal(Tag, Value),
    NotEqual(Tag, Value),
    GreaterThan(Tag, Value),
    LessThan(Tag, Value),
    GreaterOrEqual(Tag, Value),
    LessOrEqual(Tag, Value),
}

/// A parsed, non-empty query.
#[derive(Debug, PartialEq, Eq)]
pub struct Query(pub Expression);

/// Every tag name of an expression, left to right, duplicates kept.
pub open spec fn ast_tags(a: Ast) -> Seq<Seq<char>>
    decreases a,
{
    match a {
        Ast::Tagged(t) => seq![t],
        Ast::And(l, r) => ast_tags(*l) + ast_tags(*r),
        Ast::Or(l, r) => ast_tags(*l) + ast_tags(*r),
        Ast::Not(x) => ast_tags(*x),
        Ast::Compare(_, t, _) => seq![t],
    }
}

/// Every value name of an expression, left to right, duplicates kept.
pub open spec fn ast_values(a: Ast) -> Seq<Seq<char>>
    decreases a,
{
    match a {
        Ast::Tagged(_) => Seq::empty(),
        Ast::And(l, r) => ast_values(*l) + ast_values(*r),
        Ast::Or(l, r) => ast_values(*l) + ast_values(*r),
        Ast::Not(x) => ast_values(*x),
        Ast::Compare(_, _, v) => seq![v],
    }
}

/// The names of a sequence of tags.
pub open spec fn tag_names(ts: Seq<Tag>) -> Seq<Seq<char>> {
    ts.map_values(|t: Tag| t@)
}

/// The names of a sequence of values.
pub open spec fn value_names(vs: Seq<Value>) -> Seq<Seq<char>> {
    vs.map_values(|v: Value| v@)
}

/// The names of an expression's tags are the tag names of its shape.
pub proof fn lemma_tag_names(e: Expression)
    ensures
        tag_names(e.tag_seq()) == ast_tags(e.ast()),
    decreases e,
{
    match e {
        Expression::And(l, r) => {
            lemma_tag_names(*l);
            lemma_tag_names(*r);
            assert(tag_names(l.tag_seq() + r.tag_seq()) =~= tag_names(l.tag_seq()) + tag_names(
                r.tag_seq(),
            ));
        },
        Expression::Or(l, r) => {
            lemma_tag_names(*l);
            lemma_tag_names(*r);
            assert(tag_names(l.tag_seq() + r.tag_seq()) =~= tag_names(l.tag_seq()) + tag_names(
                r.tag_seq(),
            ));
        },
        Expression::Not(x) => {
            lemma_tag_names(*x);
        },
        _ => {
            assert(tag_names(e.tag_seq()) =~= ast_tags(e.ast()));
        },
    }
}

/// The names of an expression's values are the value names of its shape.
pub proof fn lemma_value_names(e: Expression)
    ensures
        value_names(e.value_seq()) == ast_values(e.ast()),
    decreases e,
{
    match e {
        Expression::And(l, r) => {
            lemma_value_names(*l);
            lemma_value_names(*r);
            assert(value_names(l.value_seq() + r.value_seq()) =~= value_names(l.value_seq())
                + value_names(r.value_seq()));
        },
        Expression::Or(l, r) => {
            lemma_value_names(*l);
            lemma_value_names(*r);
            assert(value_names(l.value_seq() + r.value_seq()) =~= value_names(l.value_seq())
                + value_names(r.value_seq()));
        },
        Expression::Not(x) => {
            lemma_value_names(*x);
        },
        _ => {
            assert(value_names(e.value_seq()) =~= ast_values(e.ast()));
        },
    }
}

impl Expression {
    /// The comparison that a leaf node makes, if it is one.
    pub open spec fn comparison(self) -> Option<(CompareOp, Tag, Value)> {
        match self {
            Expression::Equal(t, v) => Some((CompareOp::Equal, t, v)),
            Expression::NotEqual(t, v) => Some((CompareOp::NotEqual, t, v)),
            Expression::GreaterThan(t, v) => Some((CompareOp::GreaterThan, t, v)),
            Expression::LessThan(t, v) => Some((CompareOp::LessThan, t, v)),
            Expression::GreaterOrEqual(t, v) => Some((CompareOp::GreaterOrEqual, t, v)),
            Expression::LessOrEqual(t, v) => Some((CompareOp::LessOrEqual, t, v)),
            _ => None,
        }
    }

    /// A comparison node with the given operator.
    pub open spec fn compare(op: CompareOp, t: Tag, v: Value) -> Expression {
        match op {
            CompareOp::Equal => Expression::Equal(t, v),
            CompareOp::NotEqual => Expression::NotEqual(t, v),
            CompareOp::GreaterThan => Expression::GreaterThan(t, v),
            CompareOp::LessThan => Expression::LessThan(t, v),
            CompareOp::GreaterOrEqual => Expression::GreaterOrEqual(t, v),
            CompareOp::LessOrEqual => Expression::LessOrEqual(t, v),
        }
    }

    /// The abstract shape of the expression.
    pub open spec fn ast(self) -> Ast
        decreases self,
    {
        match self {
            Expression::Tagged(t) => Ast::Tagged(t@),
            Expression::And(l, r) => Ast::And(Box::new(l.ast()), Box::new(r.ast())),
            Expression::Or(l, r) => Ast::Or(Box::new(l.ast()), Box::new(r.ast())),
            Expression::Not(x) => Ast::Not(Box::new(x.ast())),
            Expression::Equal(t, v) => Ast::Compare(CompareOp::Equal, t@, v@),
            Expression::NotEqual(t, v) => Ast::Compare(CompareOp::NotEqual, t@, v@),
            Expression::GreaterThan(t, v) => Ast::Compare(CompareOp::GreaterThan, t@, v@),
            Expression::LessThan(t, v) => Ast::Compare(CompareOp::LessThan, t@, v@),
            Expression::GreaterOrEqual(t, v) => Ast::Compare(CompareOp::GreaterOrEqual, t@, v@),
            Expression::LessOrEqual(t, v) => Ast::Compare(CompareOp::LessOrEqual, t@, v@),
        }
    }

    /// Every tag of the expression, left to right, duplicates kept.
    pub open spec fn tag_seq(self) -> Seq<Tag>
        decreases self,
    {
        match self {
            Expression::Tagged(t) => seq![t],
            Expression::And(l, r) => l.tag_seq() + r.tag_seq(),
            Expression::Or(l, r) => l.tag_seq() + r.tag_seq(),
            Expression::Not(x) => x.tag_seq(),
            Expression::Equal(t, _) => seq![t],
            Expression::NotEqual(t, _) => seq![t],
            Expression::GreaterThan(t, _) => seq![t],
            Expression::LessThan(t, _) => seq![t],
            Expression::GreaterOrEqual(t, _) => seq![t],
            Expression::LessOrEqual(t, _) => seq![t],
        }
    }

    /// Every value of the expression, left to right, duplicates kept.
    pub open spec fn value_seq(self) -> Seq<Value>
        decreases self,
    {
        match self {
            Expression::Tagged(_) => Seq::empty(),
            Expression::And(l, r) => l.value_seq() + r.value_seq(),
            Expression::Or(l, r) => l.value_seq() + r.value_seq(),
            Expression::Not(x) => x.value_seq(),
            Expression::Equal(_, v) => seq![v],
            Expression::NotEqual(_, v) => seq![v],
            Expression::GreaterThan(_, v) => seq![v],
            Expression::LessThan(_, v) => seq![v],
            Expression::GreaterOrEqual(_, v) => seq![v],
            Expression::LessOrEqual(_, v) => seq![v],
        }
    }

    /// Identifies the tags within the expression.
    pub fn tags(&self) -> (r: Vec<Tag>)
        ensures
            r@ == self.tag_seq(),
            tag_names(r@) == ast_tags(self.ast()),
    {
        proof {
            lemma_tag_names(*self);
        }
        let mut tags: Vec<Tag> = Vec::new();
        self.walk_tags(&mut tags);
        assert(tags@ =~= self.tag_seq());
        tags
    }

    /// Identifies the values within the expression.
    pub fn values(&self) -> (r: Vec<Value>)
        ensures
            r@ == self.value_seq(),
            value_names(r@) == ast_values(self.ast()),
    {
        proof {
            lemma_value_names(*self);
        }
        let mut values: Vec<Value> = Vec::new();
        self.walk_values(&mut values);
        assert(values@ =~= self.value_seq());
        values
    }

    /// Appends the tags of the expression, left to right.
    pub fn walk_tags(&self, tags: &mut Vec<Tag>)
        ensures
            final(tags)@ == old(tags)@ + self.tag_seq(),
        decreases self,
    {
        match self {
            Expression::Tagged(t) => {
                tags.push(t.duplicate());
            },
            Expression::And(l, r) => {
                l.walk_tags(tags);
                r.walk_tags(tags);
            },
            Expression::Or(l, r) => {
                l.walk_tags(tags);
                r.walk_tags(tags);
            },
            Expression::Not(x) => {
                x.walk_tags(tags);
            },
            Expression::Equal(t, _) => {
                tags.push(t.duplicate());
            },
            Expression::NotEqual(t, _) => {
                tags.push(t.duplicate());
            },
            Expression::GreaterThan(t, _) => {
                tags.push(t.duplicate());
            },
            Expression::LessThan(t, _) => {
                tags.push(t.duplicate());
            },
            Expression::GreaterOrEqual(t, _) => {
                tags.push(t.duplicate());
            },
            Expression::LessOrEqual(t, _) => {
                tags.push(t.duplicate());
            },
        }
        assert(final(tags)@ =~= old(tags)@ + self.tag_seq());
    }

    /// Appends the values of the expression, left to right.
    pub fn walk_values(&self, values: &mut Vec<Value>)
        ensures
            final(values)@ == old(values)@ + self.value_seq(),
        decreases self,
    {
        match self {
            Expression::Tagged(_) => {},
            Expression::And(l, r) => {
                l.walk_values(values);
                r.walk_values(values);
            },
            Expression::Or(l, r) => {
                l.walk_values(values);
                r.walk_values(values);
            },
            Expression::Not(x) => {
                x.walk_values(values);
            },
            Expression::Equal(_, v) => {
                values.push(v.duplicate());
            },
            Expression::NotEqual(_, v) => {
                values.push(v.duplicate());
            },
            Expression::GreaterThan(_, v) => {
                values.push(v.duplicate());
            },
            Expression::LessThan(_, v) => {
                values.push(v.duplicate());
            },
            Expression::GreaterOrEqual(_, v) => {
                values.push(v.duplicate());
            },
            Expression::LessOrEqual(_, v) => {
                values.push(v.duplicate());
            },
        }
        assert(final(values)@ =~= old(values)@ + self.value_seq());
    }
}

impl Query {
    /// Identifies the tags within the query.
    pub fn tags(&self) -> (r: Vec<Tag>)
        ensures
            r@ == self.0.tag_seq(),
            tag_names(r@) == ast_tags(self.0.ast()),
    {
        self.0.tags()
    }

    /// Identifies the values within the query.
    pub fn values(&self) -> (r: Vec<Value>)
        ensures
            r@ == self.0.value_seq(),
            value_names(r@) == ast_values(self.0.ast()),
    {
        self.0.values()
    }
}

/// Parses query text into an expression tree: `None` for blank text.
pub fn parse(text: &str) -> (r: Result<Option<Expression>, QuerySyntaxError>)
    ensures
        match r {
            Ok(Some(e)) => parse_text(text@) == Ok::<Option<Ast>, nat>(Some(e.ast())),
            Ok(None) => parse_text(text@) == Ok::<Option<Ast>, nat>(None),
            Err(e) => parse_text(text@) == Err::<Option<Ast>, nat>(e.position as nat),
        },
{
    match crate::parser::parse(text) {
        Ok(Some(q)) => Ok(Some(q.0)),
        Ok(None) => Ok(None),
        Err(e) => Err(e),
    }
}

} // verus!
