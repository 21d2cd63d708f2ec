//! Lowering query expressions into SQL statements over the file tables.

use vstd::prelude::*;

use crate::common::{Casing, FileTypeSpecificity, TagSpecificity};
use crate::fragment::{
    emit, lemma_emit_append, lemma_emit_params, lemma_emit_push, lemma_params_append, params_of,
    push_text, push_value, statement, Fragment,
};
use crate::path::{components, scope_directory, scope_name, scope_path, PathScope};
use crate::query::{CompareOp, Expression, Query};
use crate::sql::{params_view, Param, SqlBuilder, SqlValue};
use crate::tag::Tag;
use crate::text::push_char;
use crate::value::Value;

verus! {

/// A text parameter.
pub open spec fn param(s: Seq<char>) -> Fragment {
    Fragment::Param(Param::Text(s))
}

/// The collation that a name comparison uses.
pub open spec fn collation_text(c: Casing) -> Seq<char> {
    match c {
        Casing::Insensitive => "COLLATE NOCASE"@,
        Casing::Sensitive => ""@,
    }
}

/// The SQL operator of a comparison; `!=` is tested as `=` under `NOT`.
pub open spec fn operator_text(op: CompareOp) -> Seq<char> {
    match op {
        CompareOp::Equal => "="@,
        CompareOp::NotEqual => "="@,
        CompareOp::GreaterThan => ">"@,
        CompareOp::LessThan => "<"@,
        CompareOp::GreaterOrEqual => ">="@,
        CompareOp::LessOrEqual => "<="@,
    }
}

/// The membership test that opens a leaf's subquery.
pub open spec fn membership_text(op: CompareOp) -> Seq<char> {
    if op == CompareOp::NotEqual {
        "id NOT IN ("@
    } else {
        "id IN ("@
    }
}

/// The recursive part of the closure of (tag, value) pairs under implication,
/// traced backwards from the seed rows, and the selection of files tagged
/// with a member (value 0 standing for any value). `UNION` discards repeated
/// pairs, so cycles in the implication graph end the recursion.
pub open spec fn closure_tail() -> Seq<char> {
    "UNION SELECT i.tag_id, i.value_id FROM implication i, ift WHERE i.implied_tag_id = ift.tag_id AND (ift.value_id = 0 OR i.implied_value_id = ift.value_id)) SELECT file_id FROM file_tag INNER JOIN ift ON file_tag.tag_id = ift.tag_id AND (ift.value_id = 0 OR file_tag.value_id = ift.value_id))"@
}

/// Files carrying a tag, whatever its value.
pub open spec fn tag_fragments(t: Seq<char>, s: TagSpecificity, c: Casing) -> Seq<Fragment> {
    match s {
        TagSpecificity::ExplicitOnly => seq![
            Fragment::Sql("id IN (SELECT file_id FROM file_tag WHERE tag_id IN (SELECT id FROM tag WHERE name"@),
            Fragment::Sql(collation_text(c)),
            Fragment::Sql("="@),
            param(t),
            Fragment::Sql("))"@),
        ],
        TagSpecificity::All => seq![
            Fragment::Sql("id IN (WITH RECURSIVE ift (tag_id, value_id) AS (SELECT t.id, 0 FROM tag t WHERE t.name"@),
            Fragment::Sql(collation_text(c)),
            Fragment::Sql("="@),
            param(t),
            Fragment::Sql(closure_tail()),
        ],
    }
}

/// Files carrying a tag with a value that compares as `op` says.
pub open spec fn compare_fragments(
    op: CompareOp,
    t: Seq<char>,
    v: Seq<char>,
    s: TagSpecificity,
    c: Casing,
) -> Seq<Fragment> {
    seq![
        Fragment::Sql(membership_text(op)),
        Fragment::Sql(
            match s {
                TagSpecificity::ExplicitOnly => "WITH ift (tag_id, value_id) AS (SELECT t.id, v.id FROM tag t, value v WHERE t.name"@,
                TagSpecificity::All => "WITH RECURSIVE ift (tag_id, value_id) AS (SELECT t.id, v.id FROM tag t, value v WHERE t.name"@,
            },
        ),
        Fragment::Sql(collation_text(c)),
        Fragment::Sql("="@),
        param(t),
        Fragment::Sql("AND v.name"@),
        Fragment::Sql(collation_text(c)),
        Fragment::Sql(operator_text(op)),
        param(v),
        Fragment::Sql(
            match s {
                TagSpecificity::ExplicitOnly => ") SELECT file_id FROM file_tag INNER JOIN ift ON file_tag.tag_id = ift.tag_id AND file_tag.value_id = ift.value_id)"@,
                TagSpecificity::All => closure_tail(),
            },
        ),
    ]
}

/// The predicate that an expression lowers to.
pub open spec fn predicate(e: Expression, s: TagSpecificity, c: Casing) -> Seq<Fragment>
    decreases e,
{
    match e {
        Expression::Tagged(t) => tag_fragments(t@, s, c),
        Expression::And(l, r) => seq![Fragment::Sql("("@)] + predicate(*l, s, c) + seq![
            Fragment::Sql(") AND ("@),
        ] + predicate(*r, s, c) + seq![Fragment::Sql(")"@)],
        Expression::Or(l, r) => seq![Fragment::Sql("("@)] + predicate(*l, s, c) + seq![
            Fragment::Sql(") OR ("@),
        ] + predicate(*r, s, c) + seq![Fragment::Sql(")"@)],
        Expression::Not(x) => seq![Fragment::Sql("NOT ("@)] + predicate(*x, s, c) + seq![
            Fragment::Sql(")"@),
        ],
        Expression::Equal(t, v) => compare_fragments(CompareOp::Equal, t@, v@, s, c),
        Expression::NotEqual(t, v) => compare_fragments(CompareOp::NotEqual, t@, v@, s, c),
        Expression::GreaterThan(t, v) => compare_fragments(CompareOp::GreaterThan, t@, v@, s, c),
        Expression::LessThan(t, v) => compare_fragments(CompareOp::LessThan, t@, v@, s, c),
        Expression::GreaterOrEqual(t, v) => compare_fragments(
            CompareOp::GreaterOrEqual,
            t@,
            v@,
            s,
            c,
        ),
        Expression::LessOrEqual(t, v) => compare_fragments(CompareOp::LessOrEqual, t@, v@, s, c),
    }
}

/// The restriction to one kind of entry.
pub open spec fn file_type_fragments(f: FileTypeSpecificity) -> Seq<Fragment> {
    match f {
        FileTypeSpecificity::Any => Seq::empty(),
        FileTypeSpecificity::FileOnly => seq![Fragment::Sql("AND NOT is_dir"@)],
        FileTypeSpecificity::DirectoryOnly => seq![Fragment::Sql("AND is_dir"@)],
    }
}

/// The restriction to a path: entries in the directory itself, the entry
/// that the path names, and entries anywhere below the directory. A path
/// with no meaningful component restricts nothing.
pub open spec fn path_fragments(path: Option<Seq<char>>) -> Seq<Fragment> {
    match path {
        None => Seq::empty(),
        Some(p) => if components(p).len() == 0 {
            Seq::empty()
        } else {
            seq![
                Fragment::Sql("AND (directory ="@),
                param(scope_path(p)),
                Fragment::Sql("OR (directory ="@),
                param(scope_directory(p)),
                Fragment::Sql("AND name ="@),
                param(scope_name(p)),
                Fragment::Sql(") OR directory LIKE"@),
                param(scope_path(p) + seq!['/', '%']),
                Fragment::Sql(")"@),
            ]
        },
    }
}

/// The predicate of a query; no query matches every file.
pub open spec fn query_fragments(q: Option<Expression>, s: TagSpecificity, c: Casing) -> Seq<
    Fragment,
> {
    match q {
        None => seq![Fragment::Sql("true"@)],
        Some(e) => predicate(e, s, c),
    }
}

/// Everything after `WHERE` that the listing and the count share: the
/// bracketed predicate, then the restrictions, which so apply to all of it.
pub open spec fn filter(
    q: Option<Expression>,
    s: TagSpecificity,
    c: Casing,
    f: FileTypeSpecificity,
    path: Option<Seq<char>>,
) -> Seq<Fragment> {
    seq![Fragment::Sql("("@)] + query_fragments(q, s, c) + seq![Fragment::Sql(")"@)]
        + file_type_fragments(f) + path_fragments(path)
}

pub open spec fn files_head() -> Seq<char> {
    "SELECT id, directory, name, fingerprint, mod_time, size, is_dir FROM file WHERE"@
}

pub open spec fn count_head() -> Seq<char> {
    "SELECT count(1) FROM file WHERE"@
}

pub open spec fn order_text() -> Seq<char> {
    "ORDER BY directory, name"@
}

/// The listing statement's fragments.
pub open spec fn files_fragments(
    q: Option<Expression>,
    s: TagSpecificity,
    c: Casing,
    f: FileTypeSpecificity,
    path: Option<Seq<char>>,
) -> Seq<Fragment> {
    seq![Fragment::Sql(files_head())] + filter(q, s, c, f, path) + seq![
        Fragment::Sql(order_text()),
    ]
}

/// The count statement's fragments.
pub open spec fn count_fragments(
    q: Option<Expression>,
    s: TagSpecificity,
    c: Casing,
    f: FileTypeSpecificity,
    path: Option<Seq<char>>,
) -> Seq<Fragment> {
    seq![Fragment::Sql(count_head())] + filter(q, s, c, f, path)
}

pub open spec fn query_expression(q: Option<&Query>) -> Option<Expression> {
    match q {
        None => None,
        Some(q) => Some(q.0),
    }
}

pub open spec fn path_view(p: Option<&str>) -> Option<Seq<char>> {
    match p {
        None => None,
        Some(p) => Some(p@),
    }
}

/// Lowers query expressions into SQL statements over the file tables.
pub struct QueryBuilder {
    tag_specificity: TagSpecificity,
    casing: Casing,
    builder: SqlBuilder,
}

impl QueryBuilder {
    pub closed spec fn tag_specificity(&self) -> TagSpecificity {
        self.tag_specificity
    }

    pub closed spec fn casing(&self) -> Casing {
        self.casing
    }

    pub closed spec fn built(&self) -> (Seq<char>, Seq<Param>) {
        self.builder@
    }

    /// Creates a builder for the given matching modes.
    pub fn new(tag_specificity: &TagSpecificity, casing: &Casing) -> (r: QueryBuilder)
        ensures
            r.tag_specificity() == *tag_specificity,
            r.casing() == *casing,
            r.built() == (Seq::<char>::empty(), Seq::<Param>::empty()),
    {
        QueryBuilder {
            tag_specificity: *tag_specificity,
            casing: *casing,
            builder: SqlBuilder::new(),
        }
    }

    fn sql(&mut self, s: &str, Ghost(fs): Ghost<Seq<Fragment>>, Ghost(b0): Ghost<(Seq<char>, Seq<Param>)>)
        requires
            old(self).builder@ == emit(b0, fs),
        ensures
            final(self).builder@ == emit(b0, fs.push(Fragment::Sql(s@))),
            final(self).tag_specificity == old(self).tag_specificity,
            final(self).casing == old(self).casing,
    {
        push_text(&mut self.builder, s);
        proof {
            lemma_emit_push(b0, fs, Fragment::Sql(s@));
        }
    }

    fn value(&mut self, s: String, Ghost(fs): Ghost<Seq<Fragment>>, Ghost(b0): Ghost<(Seq<char>, Seq<Param>)>)
        requires
            old(self).builder@ == emit(b0, fs),
        ensures
            final(self).builder@ == emit(b0, fs.push(param(s@))),
            final(self).tag_specificity == old(self).tag_specificity,
            final(self).casing == old(self).casing,
    {
        push_value(&mut self.builder, s);
        proof {
            lemma_emit_push(b0, fs, param(s@));
        }
    }

    fn collation(&self) -> (r: &'static str)
        ensures
            r@ == collation_text(self.casing),
    {
        match self.casing {
            Casing::Insensitive => "COLLATE NOCASE",
            Casing::Sensitive => "",
        }
    }

    fn tag(&mut self, tag: &Tag)
        ensures
            final(self).builder@ == emit(
                old(self).builder@,
                tag_fragments(tag@, old(self).tag_specificity, old(self).casing),
            ),
            final(self).tag_specificity == old(self).tag_specificity,
            final(self).casing == old(self).casing,
    {
        let ghost b0 = self.builder@;
        let ghost e = Seq::<Fragment>::empty();
        let collation = self.collation();
        match self.tag_specificity {
            TagSpecificity::ExplicitOnly => {
                self.sql(
                    "id IN (SELECT file_id FROM file_tag WHERE tag_id IN (SELECT id FROM tag WHERE name",
                    Ghost(e),
                    Ghost(b0),
                );
            },
            TagSpecificity::All => {
                self.sql(
                    "id IN (WITH RECURSIVE ift (tag_id, value_id) AS (SELECT t.id, 0 FROM tag t WHERE t.name",
                    Ghost(e),
                    Ghost(b0),
                );
            },
        }
        let ghost f1 = e.push(
            match self.tag_specificity {
                TagSpecificity::ExplicitOnly => Fragment::Sql("id IN (SELECT file_id FROM file_tag WHERE tag_id IN (SELECT id FROM tag WHERE name"@),
                TagSpecificity::All => Fragment::Sql("id IN (WITH RECURSIVE ift (tag_id, value_id) AS (SELECT t.id, 0 FROM tag t WHERE t.name"@),
            },
        );
        self.sql(collation, Ghost(f1), Ghost(b0));
        let ghost f2 = f1.push(Fragment::Sql(collation@));
        self.sql("=", Ghost(f2), Ghost(b0));
        let ghost f3 = f2.push(Fragment::Sql("="@));
        self.value(tag.0.clone(), Ghost(f3), Ghost(b0));
        let ghost f4 = f3.push(param(tag@));
        match self.tag_specificity {
            TagSpecificity::ExplicitOnly => {
                self.sql("))", Ghost(f4), Ghost(b0));
            },
            TagSpecificity::All => {
                self.sql(
                    "UNION SELECT i.tag_id, i.value_id FROM implication i, ift WHERE i.implied_tag_id = ift.tag_id AND (ift.value_id = 0 OR i.implied_value_id = ift.value_id)) SELECT file_id FROM file_tag INNER JOIN ift ON file_tag.tag_id = ift.tag_id AND (ift.value_id = 0 OR file_tag.value_id = ift.value_id))",
                    Ghost(f4),
                    Ghost(b0),
                );
            },
        }
        proof {
            let expected = tag_fragments(tag@, self.tag_specificity, self.casing);
            match self.tag_specificity {
                TagSpecificity::ExplicitOnly => {
                    assert(f4.push(Fragment::Sql("))"@)) =~= expected);
                },
                TagSpecificity::All => {
                    assert(f4.push(Fragment::Sql(closure_tail())) =~= expected);
                },
            }
        }
    }

    fn operator(op: CompareOp) -> (r: &'static str)
        ensures
            r@ == operator_text(op),
    {
        match op {
            CompareOp::Equal => "=",
            CompareOp::NotEqual => "=",
            CompareOp::GreaterThan => ">",
            CompareOp::LessThan => "<",
            CompareOp::GreaterOrEqual => ">=",
            CompareOp::LessOrEqual => "<=",
        }
    }

    fn compare(&mut self, op: CompareOp, tag: &Tag, value: &Value)
        ensures
            final(self).builder@ == emit(
                old(self).builder@,
                compare_fragments(op, tag@, value@, old(self).tag_specificity, old(self).casing),
            ),
            final(self).tag_specificity == old(self).tag_specificity,
            final(self).casing == old(self).casing,
    {
        let ghost b0 = self.builder@;
        let ghost f0 = Seq::<Fragment>::empty();
        let collation = self.collation();
        let membership = if op == CompareOp::NotEqual { "id NOT IN (" } else { "id IN (" };
        self.sql(membership, Ghost(f0), Ghost(b0));
        let ghost f1 = f0.push(Fragment::Sql(membership@));
        let head = match self.tag_specificity {
            TagSpecificity::ExplicitOnly => "WITH ift (tag_id, value_id) AS (SELECT t.id, v.id FROM tag t, value v WHERE t.name",
            TagSpecificity::All => "WITH RECURSIVE ift (tag_id, value_id) AS (SELECT t.id, v.id FROM tag t, value v WHERE t.name",
        };
        self.sql(head, Ghost(f1), Ghost(b0));
        let ghost f2 = f1.push(Fragment::Sql(head@));
        self.sql(collation, Ghost(f2), Ghost(b0));
        let ghost f3 = f2.push(Fragment::Sql(collation@));
        self.sql("=", Ghost(f3), Ghost(b0));
        let ghost f4 = f3.push(Fragment::Sql("="@));
        self.value(tag.0.clone(), Ghost(f4), Ghost(b0));
        let ghost f5 = f4.push(param(tag@));
        self.sql("AND v.name", Ghost(f5), Ghost(b0));
        let ghost f6 = f5.push(Fragment::Sql("AND v.name"@));
        self.sql(collation, Ghost(f6), Ghost(b0));
        let ghost f7 = f6.push(Fragment::Sql(collation@));
        let operator = Self::operator(op);
        self.sql(operator, Ghost(f7), Ghost(b0));
        let ghost f8 = f7.push(Fragment::Sql(operator@));
        self.value(value.0.clone(), Ghost(f8), Ghost(b0));
        let ghost f9 = f8.push(param(value@));
        let tail = match self.tag_specificity {
            TagSpecificity::ExplicitOnly => ") SELECT file_id FROM file_tag INNER JOIN ift ON file_tag.tag_id = ift.tag_id AND file_tag.value_id = ift.value_id)",
            TagSpecificity::All => "UNION SELECT i.tag_id, i.value_id FROM implication i, ift WHERE i.implied_tag_id = ift.tag_id AND (ift.value_id = 0 OR i.implied_value_id = ift.value_id)) SELECT file_id FROM file_tag INNER JOIN ift ON file_tag.tag_id = ift.tag_id AND (ift.value_id = 0 OR file_tag.value_id = ift.value_id))",
        };
        self.sql(tail, Ghost(f9), Ghost(b0));
        assert(f9.push(Fragment::Sql(tail@)) =~= compare_fragments(
            op,
            tag@,
            value@,
            self.tag_specificity,
            self.casing,
        ));
    }

    fn wrap(
        &mut self,
        open: &str,
        x: &Expression,
        close: &str,
        Ghost(fs): Ghost<Seq<Fragment>>,
        Ghost(b0): Ghost<(Seq<char>, Seq<Param>)>,
    )
        requires
            old(self).builder@ == emit(b0, fs),
        ensures
            final(self).builder@ == emit(
                b0,
                fs + seq![Fragment::Sql(open@)] + predicate(
                    *x,
                    old(self).tag_specificity,
                    old(self).casing,
                ) + seq![Fragment::Sql(close@)],
            ),
            final(self).tag_specificity == old(self).tag_specificity,
            final(self).casing == old(self).casing,
        decreases x, 2int,
    {
        self.sql(open, Ghost(fs), Ghost(b0));
        let ghost f1 = fs.push(Fragment::Sql(open@));
        let ghost b1 = self.builder@;
        self.expression(x);
        let ghost p = predicate(*x, self.tag_specificity, self.casing);
        proof {
            lemma_emit_append(b0, f1, p);
        }
        self.sql(close, Ghost(f1 + p), Ghost(b0));
        assert(fs.push(Fragment::Sql(open@)) =~= fs + seq![Fragment::Sql(open@)]);
        assert((f1 + p).push(Fragment::Sql(close@)) =~= fs + seq![Fragment::Sql(open@)] + p + seq![
            Fragment::Sql(close@),
        ]);
    }

    /// Appends the predicate of an expression.
    fn expression(&mut self, e: &Expression)
        ensures
            final(self).builder@ == emit(
                old(self).builder@,
                predicate(*e, old(self).tag_specificity, old(self).casing),
            ),
            final(self).tag_specificity == old(self).tag_specificity,
            final(self).casing == old(self).casing,
        decreases e, 1int,
    {
        match e {
            Expression::Tagged(t) => self.tag(t),
            Expression::And(l, r) => {
                let ghost b0 = self.builder@;
                let ghost s = self.tag_specificity;
                let ghost c = self.casing;
                self.wrap("(", l, ") AND (", Ghost(Seq::<Fragment>::empty()), Ghost(b0));
                let ghost f1 = Seq::<Fragment>::empty() + seq![Fragment::Sql("("@)] + predicate(
                    **l,
                    s,
                    c,
                ) + seq![Fragment::Sql(") AND ("@)];
                self.expression(r);
                let ghost p = predicate(**r, s, c);
                proof {
                    lemma_emit_append(b0, f1, p);
                }
                self.sql(")", Ghost(f1 + p), Ghost(b0));
                assert((f1 + p).push(Fragment::Sql(")"@)) =~= predicate(*e, s, c));
            },
            Expression::Or(l, r) => {
                let ghost b0 = self.builder@;
                let ghost s = self.tag_specificity;
                let ghost c = self.casing;
                self.wrap("(", l, ") OR (", Ghost(Seq::<Fragment>::empty()), Ghost(b0));
                let ghost f1 = Seq::<Fragment>::empty() + seq![Fragment::Sql("("@)] + predicate(
                    **l,
                    s,
                    c,
                ) + seq![Fragment::Sql(") OR ("@)];
                self.expression(r);
                let ghost p = predicate(**r, s, c);
                proof {
                    lemma_emit_append(b0, f1, p);
                }
                self.sql(")", Ghost(f1 + p), Ghost(b0));
                assert((f1 + p).push(Fragment::Sql(")"@)) =~= predicate(*e, s, c));
            },
            Expression::Not(x) => {
                let ghost b0 = self.builder@;
                self.wrap("NOT (", x, ")", Ghost(Seq::<Fragment>::empty()), Ghost(b0));
                assert(Seq::<Fragment>::empty() + seq![Fragment::Sql("NOT ("@)] =~= seq![
                    Fragment::Sql("NOT ("@),
                ]);
            },
            Expression::Equal(t, v) => self.compare(CompareOp::Equal, t, v),
            Expression::NotEqual(t, v) => self.compare(CompareOp::NotEqual, t, v),
            Expression::GreaterThan(t, v) => self.compare(CompareOp::GreaterThan, t, v),
            Expression::LessThan(t, v) => self.compare(CompareOp::LessThan, t, v),
            Expression::GreaterOrEqual(t, v) => self.compare(CompareOp::GreaterOrEqual, t, v),
            Expression::LessOrEqual(t, v) => self.compare(CompareOp::LessOrEqual, t, v),
        }
    }

    fn file_type(&mut self, f: &FileTypeSpecificity, Ghost(fs): Ghost<Seq<Fragment>>, Ghost(b0): Ghost<(Seq<char>, Seq<Param>)>)
        requires
            old(self).builder@ == emit(b0, fs),
        ensures
            final(self).builder@ == emit(b0, fs + file_type_fragments(*f)),
            final(self).tag_specificity == old(self).tag_specificity,
            final(self).casing == old(self).casing,
    {
        match f {
            FileTypeSpecificity::Any => {
                assert(fs + file_type_fragments(*f) =~= fs);
            },
            FileTypeSpecificity::FileOnly => {
                self.sql("AND NOT is_dir", Ghost(fs), Ghost(b0));
                assert(fs + file_type_fragments(*f) =~= fs.push(Fragment::Sql("AND NOT is_dir"@)));
            },
            FileTypeSpecificity::DirectoryOnly => {
                self.sql("AND is_dir", Ghost(fs), Ghost(b0));
                assert(fs + file_type_fragments(*f) =~= fs.push(Fragment::Sql("AND is_dir"@)));
            },
        }
    }

    fn path(&mut self, path: Option<&str>, Ghost(fs): Ghost<Seq<Fragment>>, Ghost(b0): Ghost<(Seq<char>, Seq<Param>)>)
        requires
            old(self).builder@ == emit(b0, fs),
        ensures
            final(self).builder@ == emit(b0, fs + path_fragments(path_view(path))),
            final(self).tag_specificity == old(self).tag_specificity,
            final(self).casing == old(self).casing,
    {
        match path {
            None => {
                assert(fs + path_fragments(path_view(path)) =~= fs);
            },
            Some(text) => {
                match PathScope::from_text(text) {
                    None => {
                        assert(fs + path_fragments(path_view(path)) =~= fs);
                    },
                    Some(scope) => {
                        let mut pattern = scope.path.clone();
                        push_char(&mut pattern, '/');
                        push_char(&mut pattern, '%');
                        assert(pattern@ =~= scope.path@ + seq!['/', '%']);
                        let ghost f0 = fs;
                        self.sql("AND (directory =", Ghost(f0), Ghost(b0));
                        let ghost f1 = f0.push(Fragment::Sql("AND (directory ="@));
                        self.value(scope.path, Ghost(f1), Ghost(b0));
                        let ghost f2 = f1.push(param(scope_path(text@)));
                        self.sql("OR (directory =", Ghost(f2), Ghost(b0));
                        let ghost f3 = f2.push(Fragment::Sql("OR (directory ="@));
                        self.value(scope.directory, Ghost(f3), Ghost(b0));
                        let ghost f4 = f3.push(param(scope_directory(text@)));
                        self.sql("AND name =", Ghost(f4), Ghost(b0));
                        let ghost f5 = f4.push(Fragment::Sql("AND name ="@));
                        self.value(scope.name, Ghost(f5), Ghost(b0));
                        let ghost f6 = f5.push(param(scope_name(text@)));
                        self.sql(") OR directory LIKE", Ghost(f6), Ghost(b0));
                        let ghost f7 = f6.push(Fragment::Sql(") OR directory LIKE"@));
                        self.value(pattern, Ghost(f7), Ghost(b0));
                        let ghost f8 = f7.push(param(scope_path(text@) + seq!['/', '%']));
                        self.sql(")", Ghost(f8), Ghost(b0));
                        assert(f8.push(Fragment::Sql(")"@)) =~= fs + path_fragments(path_view(path)));
                    },
                }
            },
        }
    }

    fn build(
        &mut self,
        head: &str,
        query: Option<&Query>,
        file_type: &FileTypeSpecificity,
        path: Option<&str>,
        order: bool,
    )
        requires
            old(self).builder@ == (Seq::<char>::empty(), Seq::<Param>::empty()),
        ensures
            final(self).builder@ == statement(
                seq![Fragment::Sql(head@)] + filter(
                    query_expression(query),
                    old(self).tag_specificity,
                    old(self).casing,
                    *file_type,
                    path_view(path),
                ) + (if order {
                    seq![Fragment::Sql(order_text())]
                } else {
                    Seq::empty()
                }),
            ),
    {
        let ghost b0 = self.builder@;
        let ghost s = self.tag_specificity;
        let ghost c = self.casing;
        let ghost e = Seq::<Fragment>::empty();
        self.sql(head, Ghost(e), Ghost(b0));
        self.sql("(", Ghost(e.push(Fragment::Sql(head@))), Ghost(b0));
        let ghost f1 = e.push(Fragment::Sql(head@)).push(Fragment::Sql("("@));
        match query {
            None => {
                self.sql("true", Ghost(f1), Ghost(b0));
            },
            Some(q) => {
                self.expression(&q.0);
                proof {
                    lemma_emit_append(b0, f1, predicate(q.0, s, c));
                }
            },
        }
        let ghost g = f1 + query_fragments(query_expression(query), s, c);
        assert(f1.push(Fragment::Sql("true"@)) =~= f1 + seq![Fragment::Sql("true"@)]);
        self.sql(")", Ghost(g), Ghost(b0));
        let ghost f2 = g.push(Fragment::Sql(")"@));
        self.file_type(file_type, Ghost(f2), Ghost(b0));
        let ghost f3 = f2 + file_type_fragments(*file_type);
        self.path(path, Ghost(f3), Ghost(b0));
        let ghost f4 = f3 + path_fragments(path_view(path));
        assert(f4 =~= seq![Fragment::Sql(head@)] + filter(
            query_expression(query),
            s,
            c,
            *file_type,
            path_view(path),
        ));
        if order {
            self.sql("ORDER BY directory, name", Ghost(f4), Ghost(b0));
            assert(f4.push(Fragment::Sql(order_text())) =~= f4 + seq![Fragment::Sql(order_text())]);
        } else {
            assert(f4 + Seq::<Fragment>::empty() =~= f4);
        }
    }

    /// The statement listing the files that match a query (all files for
    /// none), restricted to a kind of entry and a path, ordered by directory
    /// then name.
    pub fn file_query(
        self,
        query: Option<&Query>,
        file_type: &FileTypeSpecificity,
        path: Option<&str>,
    ) -> (r: (String, Vec<SqlValue>))
        requires
            self.built() == (Seq::<char>::empty(), Seq::<Param>::empty()),
        ensures
            (r.0@, params_view(r.1@)) == statement(
                files_fragments(
                    query_expression(query),
                    self.tag_specificity(),
                    self.casing(),
                    *file_type,
                    path_view(path),
                ),
            ),
    {
        let mut b = self;
        b.build(
            "SELECT id, directory, name, fingerprint, mod_time, size, is_dir FROM file WHERE",
            query,
            file_type,
            path,
            true,
        );
        (b.builder.to_string(), b.builder.parameters())
    }

    /// The statement counting the files that [`Self::file_query`] lists.
    pub fn file_count_query(
        self,
        query: Option<&Query>,
        file_type: &FileTypeSpecificity,
        path: Option<&str>,
    ) -> (r: (String, Vec<SqlValue>))
        requires
            self.built() == (Seq::<char>::empty(), Seq::<Param>::empty()),
        ensures
            (r.0@, params_view(r.1@)) == statement(
                count_fragments(
                    query_expression(query),
                    self.tag_specificity(),
                    self.casing(),
                    *file_type,
                    path_view(path),
                ),
            ),
    {
        let mut b = self;
        b.build("SELECT count(1) FROM file WHERE", query, file_type, path, false);
        assert(count_fragments(
            query_expression(query),
            self.tag_specificity,
            self.casing,
            *file_type,
            path_view(path),
        ) =~= count_fragments(
            query_expression(query),
            self.tag_specificity,
            self.casing,
            *file_type,
            path_view(path),
        ) + Seq::<Fragment>::empty());
        (b.builder.to_string(), b.builder.parameters())
    }
}


/// The count and the listing of a query agree: both statements apply the
/// same filter, bind the same parameters in the same order, and differ only
/// in what they select and in the listing's ordering, so the count is the
/// number of rows that the listing returns.
pub proof fn lemma_count_agrees_with_listing(
    q: Option<Expression>,
    s: TagSpecificity,
    c: Casing,
    f: FileTypeSpecificity,
    path: Option<Seq<char>>,
)
    ensures
        files_fragments(q, s, c, f, path) == seq![Fragment::Sql(files_head())] + filter(
            q,
            s,
            c,
            f,
            path,
        ) + seq![Fragment::Sql(order_text())],
        count_fragments(q, s, c, f, path) == seq![Fragment::Sql(count_head())] + filter(
            q,
            s,
            c,
            f,
            path,
        ),
        statement(files_fragments(q, s, c, f, path)).1 == statement(
            count_fragments(q, s, c, f, path),
        ).1,
        statement(count_fragments(q, s, c, f, path)).1 == params_of(filter(q, s, c, f, path)),
{
    let w = filter(q, s, c, f, path);
    let e = (Seq::<char>::empty(), Seq::<Param>::empty());
    let head = seq![Fragment::Sql(files_head())];
    let count = seq![Fragment::Sql(count_head())];
    let order = seq![Fragment::Sql(order_text())];
    lemma_emit_params(e, files_fragments(q, s, c, f, path));
    lemma_emit_params(e, count_fragments(q, s, c, f, path));
    lemma_params_append(head, w);
    lemma_params_append(head + w, order);
    lemma_params_append(count, w);
    assert(params_of(head.drop_last()) =~= Seq::<Param>::empty());
    assert(head.drop_last() =~= Seq::<Fragment>::empty());
    assert(count.drop_last() =~= Seq::<Fragment>::empty());
    assert(order.drop_last() =~= Seq::<Fragment>::empty());
    assert(e.1 + params_of(w) =~= params_of(w));
    assert(params_of(w) + Seq::<Param>::empty() =~= params_of(w));
    assert(Seq::<Param>::empty() + params_of(w) =~= params_of(w));
}

/// The statement listing the files that match a query.
pub fn files_sql(
    query: &Query,
    tag_specificity: &TagSpecificity,
    file_type_specificity: &FileTypeSpecificity,
    casing: &Casing,
    path: Option<&str>,
) -> (r: (String, Vec<SqlValue>))
    ensures
        (r.0@, params_view(r.1@)) == statement(
            files_fragments(
                Some(query.0),
                *tag_specificity,
                *casing,
                *file_type_specificity,
                path_view(path),
            ),
        ),
{
    let qb = QueryBuilder::new(tag_specificity, casing);
    qb.file_query(Some(query), file_type_specificity, path)
}

/// The statement counting the files that match a query.
pub fn file_count_sql(
    query: &Query,
    tag_specificity: &TagSpecificity,
    file_type_specificity: &FileTypeSpecificity,
    casing: &Casing,
    path: Option<&str>,
) -> (r: (String, Vec<SqlValue>))
    ensures
        (r.0@, params_view(r.1@)) == statement(
            count_fragments(
                Some(query.0),
                *tag_specificity,
                *casing,
                *file_type_specificity,
                path_view(path),
            ),
        ),
{
    let qb = QueryBuilder::new(tag_specificity, casing);
    qb.file_count_query(Some(query), file_type_specificity, path)
}

} // verus!
