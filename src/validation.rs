//! Checking the names a query uses against the stored vocabulary.

use vstd::prelude::*;

use crate::common::Casing;
use crate::sql::{join_sql, params_view, values_text, Param, SqlBuilder, SqlValue};
use crate::tag::Tag;
use crate::value::Value;

verus! {

/// The table of names that a check runs against.
#[derive(Clone, Copy, Debug, PartialEq, Eq, Structural)]
pub enum Vocabulary {
    Tags,
    Values,
}

pub open spec fn join_text(vocabulary: Vocabulary) -> Seq<char> {
    match vocabulary {
        Vocabulary::Tags => ") AS c LEFT JOIN tag t ON c.column1"@,
        Vocabulary::Values => ") AS c LEFT JOIN value t ON c.column1"@,
    }
}

pub open spec fn missing_collation(c: Casing) -> Seq<char> {
    match c {
        Casing::Insensitive => "COLLATE NOCASE"@,
        Casing::Sensitive => ""@,
    }
}

/// The text of the statement selecting which of `n` candidate names have no
/// row in the table: the candidates form a literal table that is joined
/// against the names stored, under the casing's collation.
pub open spec fn missing_text(vocabulary: Vocabulary, n: nat, c: Casing) -> Seq<char> {
    let head = join_sql(Seq::empty(), "SELECT c.column1 FROM (VALUES"@);
    join_sql(
        join_sql(join_sql(values_text(head, 0, n), join_text(vocabulary)), missing_collation(c)),
        "= t.name WHERE t.name IS NULL"@,
    )
}

/// The statement that selects which of `names` are absent from a
/// vocabulary, one round trip for all of them; none for no names, which
/// need no check.
pub fn missing_sql(vocabulary: Vocabulary, names: &[SqlValue], casing: &Casing) -> (r: Option<
    (String, Vec<SqlValue>),
>)
    ensures
        names@.len() == 0 <==> r is None,
        match r {
            None => true,
            Some((sql, ps)) => sql@ == missing_text(vocabulary, names@.len(), *casing)
                && params_view(ps@) == params_view(names@),
        },
{
    if names.len() == 0 {
        return None;
    }
    let mut b = SqlBuilder::new();
    b.push_sql("SELECT c.column1 FROM (VALUES");
    b.push_parameterised_values(names);
    match vocabulary {
        Vocabulary::Tags => b.push_sql(") AS c LEFT JOIN tag t ON c.column1"),
        Vocabulary::Values => b.push_sql(") AS c LEFT JOIN value t ON c.column1"),
    }
    match casing {
        Casing::Insensitive => b.push_sql("COLLATE NOCASE"),
        Casing::Sensitive => b.push_sql(""),
    }
    b.push_sql("= t.name WHERE t.name IS NULL");
    assert(Seq::<Param>::empty() + params_view(names@) =~= params_view(names@));
    Some((b.to_string(), b.parameters()))
}

/// Tags as statement parameters.
pub fn tag_parameters(tags: &Vec<Tag>) -> (r: Vec<SqlValue>)
    ensures
        params_view(r@) == tags@.map_values(|t: Tag| Param::Text(t@)),
{
    let mut r: Vec<SqlValue> = Vec::new();
    let mut i: usize = 0;
    while i < tags.len()
        invariant
            i <= tags.len(),
            params_view(r@) == tags@.subrange(0, i as int).map_values(|t: Tag| Param::Text(t@)),
        decreases tags.len() - i,
    {
        let ghost before = r@;
        r.push(SqlValue::Text(tags[i].0.clone()));
        assert(params_view(r@) =~= params_view(before).push(Param::Text(tags@[i as int]@)));
        assert(tags@.subrange(0, i + 1) =~= tags@.subrange(0, i as int).push(tags@[i as int]));
        i = i + 1;
        assert(params_view(r@) =~= tags@.subrange(0, i as int).map_values(|t: Tag| Param::Text(t@)));
    }
    assert(tags@.subrange(0, tags.len() as int) =~= tags@);
    r
}

/// Values as statement parameters.
pub fn value_parameters(values: &Vec<Value>) -> (r: Vec<SqlValue>)
    ensures
        params_view(r@) == values@.map_values(|v: Value| Param::Text(v@)),
{
    let mut r: Vec<SqlValue> = Vec::new();
    let mut i: usize = 0;
    while i < values.len()
        invariant
            i <= values.len(),
            params_view(r@) == values@.subrange(0, i as int).map_values(|v: Value| Param::Text(v@)),
        decreases values.len() - i,
    {
        let ghost before = r@;
        r.push(SqlValue::Text(values[i].0.clone()));
        assert(params_view(r@) =~= params_view(before).push(Param::Text(values@[i as int]@)));
        assert(values@.subrange(0, i + 1) =~= values@.subrange(0, i as int).push(values@[i as int]));
        i = i + 1;
        assert(params_view(r@) =~= values@.subrange(0, i as int).map_values(
            |v: Value| Param::Text(v@),
        ));
    }
    assert(values@.subrange(0, values.len() as int) =~= values@);
    r
}

/// Several errors reported together, one line each.
#[derive(Debug, PartialEq, Eq)]
pub struct MultiError {
    pub errors: Vec<String>,
}

impl MultiError {
    /// The lines of the error, in order.
    pub fn lines(&self) -> (r: &Vec<String>)
        ensures
            r == &self.errors,
    {
        &self.errors
    }
}

/// The line reporting an unknown tag.
pub open spec fn unknown_tag_line(name: Seq<char>) -> Seq<char> {
    "unknown tag: "@ + name
}

/// The line reporting an unknown value.
pub open spec fn unknown_value_line(name: Seq<char>) -> Seq<char> {
    "unknown value: "@ + name
}

/// The lines for the unknown tags and then the unknown values.
pub open spec fn unknown_lines(tags: Seq<Tag>, values: Seq<Value>) -> Seq<Seq<char>> {
    tags.map_values(|t: Tag| unknown_tag_line(t@)) + values.map_values(
        |v: Value| unknown_value_line(v@),
    )
}

/// Reports every unknown tag and every unknown value at once: success only
/// when there are none.
pub fn validate(missing_tags: &Vec<Tag>, missing_values: &Vec<Value>) -> (r: Result<(), MultiError>)
    ensures
        r is Ok <==> missing_tags@.len() == 0 && missing_values@.len() == 0,
        match r {
            Ok(_) => true,
            Err(e) => e.errors@.map_values(|l: String| l@) == unknown_lines(
                missing_tags@,
                missing_values@,
            ),
        },
{
    let mut errors: Vec<String> = Vec::new();
    let mut i: usize = 0;
    while i < missing_tags.len()
        invariant
            i <= missing_tags.len(),
            errors@.map_values(|l: String| l@) == missing_tags@.subrange(0, i as int).map_values(
                |t: Tag| unknown_tag_line(t@),
            ),
        decreases missing_tags.len() - i,
    {
        let mut line = String::from_str("unknown tag: ");
        line.append(missing_tags[i].name());
        let ghost before = errors@;
        errors.push(line);
        assert(errors@.map_values(|l: String| l@) =~= before.map_values(|l: String| l@).push(
            unknown_tag_line(missing_tags@[i as int]@),
        ));
        assert(missing_tags@.subrange(0, i + 1) =~= missing_tags@.subrange(0, i as int).push(
            missing_tags@[i as int],
        ));
        i = i + 1;
        assert(errors@.map_values(|l: String| l@) =~= missing_tags@.subrange(0, i as int).map_values(
            |t: Tag| unknown_tag_line(t@),
        ));
    }
    assert(missing_tags@.subrange(0, missing_tags.len() as int) =~= missing_tags@);
    let ghost after_tags = errors@.map_values(|l: String| l@);
    let mut j: usize = 0;
    while j < missing_values.len()
        invariant
            j <= missing_values.len(),
            errors@.map_values(|l: String| l@) == after_tags + missing_values@.subrange(
                0,
                j as int,
            ).map_values(|v: Value| unknown_value_line(v@)),
        decreases missing_values.len() - j,
    {
        let mut line = String::from_str("unknown value: ");
        line.append(missing_values[j].name());
        let ghost before = errors@;
        errors.push(line);
        assert(errors@.map_values(|l: String| l@) =~= before.map_values(|l: String| l@).push(
            unknown_value_line(missing_values@[j as int]@),
        ));
        assert(missing_values@.subrange(0, j + 1) =~= missing_values@.subrange(0, j as int).push(
            missing_values@[j as int],
        ));
        j = j + 1;
        assert(errors@.map_values(|l: String| l@) =~= after_tags + missing_values@.subrange(
            0,
            j as int,
        ).map_values(|v: Value| unknown_value_line(v@)));
    }
    assert(missing_values@.subrange(0, missing_values.len() as int) =~= missing_values@);
    if errors.len() == 0 {
        Ok(())
    } else {
        Err(MultiError { errors })
    }
}

} // verus!
