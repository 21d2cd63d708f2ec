//! Accumulating SQL text together with its positional parameters.

use vstd::prelude::*;

use crate::text::{decimal, is_space, is_space_spec, push_char, push_decimal};

verus! {

/// A parameter value bound to a placeholder of a statement.
#[derive(Debug, PartialEq, Eq, Clone)]
pub enum SqlValue {
    Text(String),
    Integer(i64),
}

/// A parameter value as the statement sees it.
pub enum Param {
    Text(Seq<char>),
    Integer(i64),
}

impl View for SqlValue {
    type V = Param;

    open spec fn view(&self) -> Param {
        match self {
            SqlValue::Text(s) => Param::Text(s@),
            SqlValue::Integer(i) => Param::Integer(*i),
        }
    }
}

/// The views of a sequence of parameter values.
pub open spec fn params_view(ps: Seq<SqlValue>) -> Seq<Param> {
    ps.map_values(|p: SqlValue| p@)
}

impl SqlValue {
    /// A copy of this value.
    pub fn duplicate(&self) -> (r: SqlValue)
        ensures
            r == *self,
    {
        match self {
            SqlValue::Text(s) => SqlValue::Text(s.clone()),
            SqlValue::Integer(i) => SqlValue::Integer(*i),
        }
    }
}

/// `a` followed by `b`, with one space between them when `b` is not empty,
/// `a` is not empty, and neither has whitespace at the joint.
pub open spec fn join_sql(a: Seq<char>, b: Seq<char>) -> Seq<char> {
    if b.len() == 0 {
        a
    } else if a.len() > 0 && !is_space_spec(a.last()) && !is_space_spec(b[0]) {
        a + seq![' '] + b
    } else {
        a + b
    }
}

/// The placeholder for the parameter at one-based position `n`.
pub open spec fn placeholder(n: nat) -> Seq<char> {
    seq!['?'] + decimal(n)
}

/// The text of `m` bracketed placeholders, numbered from `n + 1`, separated
/// by commas, appended to `sql`.
pub open spec fn values_text(sql: Seq<char>, n: nat, m: nat) -> Seq<char>
    decreases m,
{
    if m == 0 {
        sql
    } else {
        let before = values_text(sql, n, (m - 1) as nat);
        let sep = if m > 1 { before + seq![','] } else { before };
        join_sql(sep, seq!['('] + placeholder(n + m) + seq![')'])
    }
}

/// Builds a SQL statement together with its positional parameters.
pub struct SqlBuilder {
    sql: String,
    parameters: Vec<SqlValue>,
}

impl View for SqlBuilder {
    type V = (Seq<char>, Seq<Param>);

    closed spec fn view(&self) -> (Seq<char>, Seq<Param>) {
        (self.sql@, params_view(self.parameters@))
    }
}

impl SqlBuilder {
    /// Creates an empty builder.
    pub fn new() -> (r: SqlBuilder)
        ensures
            r@.0 == Seq::<char>::empty(),
            r@.1 == Seq::<Param>::empty(),
    {
        SqlBuilder { sql: String::new(), parameters: Vec::new() }
    }

    /// The statement text built so far.
    pub fn to_string(&self) -> (r: String)
        ensures
            r@ == self@.0,
    {
        self.sql.clone()
    }

    /// The parameter values, in placeholder order.
    pub fn parameters(self) -> (r: Vec<SqlValue>)
        ensures
            params_view(r@) == self@.1,
    {
        self.parameters
    }

    /// Appends SQL text.
    pub fn push_sql(&mut self, sql: &str)
        ensures
            final(self)@.0 == join_sql(old(self)@.0, sql@),
            final(self)@.1 == old(self)@.1,
    {
        let n = sql.unicode_len();
        if n == 0 {
            return;
        }
        let m = self.sql.as_str().unicode_len();
        if m > 0 && !is_space(self.sql.as_str().get_char(m - 1)) && !is_space(sql.get_char(0)) {
            push_char(&mut self.sql, ' ');
        }
        self.sql.append(sql);
        proof {
            let a = old(self)@.0;
            if a.len() > 0 && !is_space_spec(a.last()) && !is_space_spec(sql@[0]) {
                assert(self.sql@ =~= a + seq![' '] + sql@);
            } else {
                assert(self.sql@ =~= a + sql@);
            }
        }
    }

    /// Appends a placeholder for `param`, which becomes the next parameter.
    pub fn push_parameter(&mut self, param: SqlValue)
        ensures
            final(self)@.1 == old(self)@.1.push(param@),
            final(self)@.0 == old(self)@.0 + placeholder(final(self)@.1.len()),
    {
        let ghost p = param@;
        self.parameters.push(param);
        assert(params_view(self.parameters@) =~= old(self)@.1.push(p));
        let index = self.parameters.len();
        push_char(&mut self.sql, '?');
        push_decimal(&mut self.sql, index);
        assert(self.sql@ =~= old(self)@.0 + placeholder(index as nat));
    }

    /// Appends a placeholder for a text parameter.
    pub fn push_parameter_string(&mut self, param: String)
        ensures
            final(self)@.1 == old(self)@.1.push(Param::Text(param@)),
            final(self)@.0 == old(self)@.0 + placeholder(final(self)@.1.len()),
    {
        self.push_parameter(SqlValue::Text(param));
    }

    /// Appends a comma-separated list of bracketed placeholders, `(?1), (?2)`,
    /// one for each of `params`, which become the next parameters.
    pub fn push_parameterised_values(&mut self, params: &[SqlValue])
        ensures
            final(self)@.1 == old(self)@.1 + params_view(params@),
            final(self)@.0 == values_text(old(self)@.0, old(self)@.1.len(), params@.len()),
    {
        let ghost n = old(self)@.1.len();
        assert(params_view(self.parameters@) == old(self)@.1);
        let mut k: usize = 0;
        while k < params.len()
            invariant
                k <= params@.len(),
                n == old(self)@.1.len(),
                self@.1 == old(self)@.1 + params_view(params@.subrange(0, k as int)),
                self@.0 == values_text(old(self)@.0, n, k as nat),
            decreases params@.len() - k,
        {
            if k > 0 {
                self.sql.append(",");
                proof {
                    reveal_strlit(",");
                }
            }
            let ghost ps = self.parameters@;
            assert(params_view(ps).len() == ps.len());
            self.parameters.push(params[k].duplicate());
            assert(params_view(self.parameters@) =~= params_view(ps).push(params@[k as int]@));
            let index = self.parameters.len();
            let mut piece = String::new();
            push_char(&mut piece, '(');
            push_char(&mut piece, '?');
            assert(piece@ =~= seq!['('] + seq!['?']);
            push_decimal(&mut piece, index);
            push_char(&mut piece, ')');
            assert(index == n + k + 1);
            let ghost before = self@.0;
            self.push_sql(piece.as_str());
            proof {
                assert(piece@ =~= seq!['('] + placeholder((n + k + 1) as nat) + seq![')']);
                assert(params@.subrange(0, k + 1) =~= params@.subrange(0, k as int).push(params@[k as int]));
                assert(params_view(params@.subrange(0, k + 1)) =~= params_view(params@.subrange(0, k as int)).push(params@[k as int]@));
                assert(self@.1 =~= old(self)@.1 + params_view(params@.subrange(0, k + 1)));
            }
            k = k + 1;
        }
        assert(params@.subrange(0, params@.len() as int) =~= params@);
    }
}

} // verus!
