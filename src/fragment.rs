//! Statements described as sequences of SQL text and bound values.

use vstd::prelude::*;

use crate::sql::{join_sql, placeholder, Param, SqlBuilder};

verus! {

/// A piece of a statement: SQL text, or a value bound to the next placeholder.
pub enum Fragment {
    Sql(Seq<char>),
    Param(Param),
}

/// A statement's text and parameters.
pub type Statement = (Seq<char>, Seq<Param>);

/// Appends one fragment to a statement.
pub open spec fn step(b: Statement, f: Fragment) -> Statement {
    match f {
        Fragment::Sql(s) => (join_sql(b.0, s), b.1),
        Fragment::Param(v) => (b.0 + placeholder(b.1.len() + 1), b.1.push(v)),
    }
}

/// Appends fragments in order to a statement.
pub open spec fn emit(b: Statement, fs: Seq<Fragment>) -> Statement
    decreases fs.len(),
{
    if fs.len() == 0 {
        b
    } else {
        step(emit(b, fs.drop_last()), fs.last())
    }
}

/// The values bound by a sequence of fragments, in order.
pub open spec fn params_of(fs: Seq<Fragment>) -> Seq<Param>
    decreases fs.len(),
{
    if fs.len() == 0 {
        Seq::empty()
    } else {
        match fs.last() {
            Fragment::Param(v) => params_of(fs.drop_last()).push(v),
            Fragment::Sql(_) => params_of(fs.drop_last()),
        }
    }
}

/// The statement built from nothing by `fs`.
pub open spec fn statement(fs: Seq<Fragment>) -> Statement {
    emit((Seq::empty(), Seq::empty()), fs)
}

pub proof fn lemma_emit_push(b: Statement, fs: Seq<Fragment>, f: Fragment)
    ensures
        emit(b, fs.push(f)) == step(emit(b, fs), f),
{
    assert(fs.push(f).drop_last() =~= fs);
}

pub proof fn lemma_emit_append(b: Statement, f1: Seq<Fragment>, f2: Seq<Fragment>)
    ensures
        emit(emit(b, f1), f2) == emit(b, f1 + f2),
    decreases f2.len(),
{
    if f2.len() == 0 {
        assert(f1 + f2 =~= f1);
    } else {
        lemma_emit_append(b, f1, f2.drop_last());
        assert((f1 + f2).drop_last() =~= f1 + f2.drop_last());
        assert((f1 + f2).last() == f2.last());
    }
}

/// The parameters of a statement are those it started with, then those of
/// its fragments.
pub proof fn lemma_emit_params(b: Statement, fs: Seq<Fragment>)
    ensures
        emit(b, fs).1 == b.1 + params_of(fs),
    decreases fs.len(),
{
    if fs.len() == 0 {
        assert(b.1 + Seq::<Param>::empty() =~= b.1);
    } else {
        lemma_emit_params(b, fs.drop_last());
        match fs.last() {
            Fragment::Param(v) => {
                assert(b.1 + params_of(fs.drop_last()).push(v) =~= (b.1 + params_of(
                    fs.drop_last(),
                )).push(v));
            },
            Fragment::Sql(_) => {},
        }
    }
}

pub proof fn lemma_params_append(f1: Seq<Fragment>, f2: Seq<Fragment>)
    ensures
        params_of(f1 + f2) == params_of(f1) + params_of(f2),
    decreases f2.len(),
{
    if f2.len() == 0 {
        assert(f1 + f2 =~= f1);
        assert(params_of(f1) + Seq::<Param>::empty() =~= params_of(f1));
    } else {
        lemma_params_append(f1, f2.drop_last());
        assert((f1 + f2).drop_last() =~= f1 + f2.drop_last());
        match f2.last() {
            Fragment::Param(v) => {
                assert(params_of(f1) + params_of(f2.drop_last()).push(v) =~= (params_of(f1)
                    + params_of(f2.drop_last())).push(v));
            },
            Fragment::Sql(_) => {},
        }
    }
}

/// Appends SQL text as one fragment.
pub fn push_text(b: &mut SqlBuilder, s: &str)
    ensures
        final(b)@ == step(old(b)@, Fragment::Sql(s@)),
{
    b.push_sql(s);
}

/// Appends a text parameter as one fragment.
pub fn push_value(b: &mut SqlBuilder, s: String)
    ensures
        final(b)@ == step(old(b)@, Fragment::Param(Param::Text(s@))),
{
    b.push_parameter_string(s);
}

} // verus!
