//! Statement text with numbered placeholders, and the values bound to them.
//!
//! No value that a request carries ever becomes part of statement text: it
//! is bound to a placeholder instead.

use vstd::prelude::*;
use vstd::string::StringExecFns;
use crate::calendar::year_window;
use crate::error::BackendError;
use crate::model::{QueryArticle, QueryCategory, QueryTag};
use crate::predicate::{
    article_clauses, article_predicate, category_predicate, name_clauses, tag_predicate, Clause,
    ClauseView, Predicate, Table, YearWindow, YEAR_SECONDS,
};
use crate::text::{decimal, decimal_text};

verus! {

/// A value bound to a placeholder.
#[derive(Clone, Debug, PartialEq, Eq)]
pub enum SqlValue {
    Int(i32),
    BigInt(i64),
    IntList(Vec<i32>),
    Text(String),
}

/// The mathematical value of a bound value.
pub enum SqlValueView {
    Int(i32),
    BigInt(i64),
    IntList(Seq<i32>),
    Text(Seq<char>),
}

/// A piece of statement text and the values for its placeholders, in the
/// order of their numbers.
#[derive(Clone, Debug, PartialEq, Eq)]
pub struct SqlFragment {
    pub text: String,
    pub params: Vec<SqlValue>,
}

/// The mathematical value of a fragment.
pub struct SqlFragmentView {
    pub text: Seq<char>,
    pub params: Seq<SqlValueView>,
}

impl View for SqlValue {
    type V = SqlValueView;

    open spec fn view(&self) -> SqlValueView {
        match *self {
            SqlValue::Int(n) => SqlValueView::Int(n),
            SqlValue::BigInt(n) => SqlValueView::BigInt(n),
            SqlValue::IntList(ns) => SqlValueView::IntList(ns@),
            SqlValue::Text(s) => SqlValueView::Text(s@),
        }
    }
}

/// The values of a list of bound values.
pub open spec fn values_view(values: Seq<SqlValue>) -> Seq<SqlValueView> {
    Seq::new(values.len(), |i: int| values[i]@)
}

impl View for SqlFragment {
    type V = SqlFragmentView;

    open spec fn view(&self) -> SqlFragmentView {
        SqlFragmentView { text: self.text@, params: values_view(self.params@) }
    }
}

/// The placeholder with number `k`.
pub open spec fn placeholder_text(k: nat) -> Seq<char> {
    "$"@ + decimal_text(k)
}

/// The column that a text filter over `table` reads.
pub open spec fn label_column(table: Table) -> Seq<char> {
    match table {
        Table::Articles => "title"@,
        Table::Categories => "name"@,
        Table::Tags => "name"@,
    }
}

impl ClauseView {
    /// The number of placeholders in the clause's text.
    pub open spec fn arity(self) -> nat {
        match self {
            ClauseView::Always => 0,
            ClauseView::CreatedWithin(_) => 2,
            _ => 1,
        }
    }

    /// The values bound to the clause's placeholders.
    pub open spec fn params(self) -> Seq<SqlValueView> {
        match self {
            ClauseView::Always => seq![],
            ClauseView::IdIn(ids) => seq![SqlValueView::IntList(ids)],
            ClauseView::Contains(needle) => seq![SqlValueView::Text(needle)],
            ClauseView::StateIs(state) => seq![SqlValueView::Int(state)],
            ClauseView::CreatedWithin(window) => seq![
                SqlValueView::BigInt(window.start),
                SqlValueView::BigInt(window.end),
            ],
            ClauseView::CategoryIs(category) => seq![SqlValueView::Int(category)],
        }
    }

    /// The clause's text over `table`, its placeholders numbered from
    /// `first`.
    pub open spec fn text(self, table: Table, first: nat) -> Seq<char> {
        match self {
            ClauseView::Always => "True"@,
            ClauseView::IdIn(_) => "id = ANY("@ + placeholder_text(first) + ")"@,
            ClauseView::Contains(_) => "strpos("@ + label_column(table) + ", "@ + placeholder_text(
                first,
            ) + ") > 0"@,
            ClauseView::StateIs(_) =>
                "CASE state WHEN 'published' THEN 1 WHEN 'hidden' THEN 2 ELSE 0 END = "@
                    + placeholder_text(first),
            ClauseView::CreatedWithin(_) => "created_at >= to_timestamp("@ + placeholder_text(first)
                + ") AND created_at < to_timestamp("@ + placeholder_text(first + 1) + ")"@,
            ClauseView::CategoryIs(_) => "category_id = "@ + placeholder_text(first),
        }
    }
}

/// The values bound to the placeholders of a conjunction, clause by clause.
pub open spec fn clauses_params(clauses: Seq<ClauseView>) -> Seq<SqlValueView>
    decreases clauses.len(),
{
    if clauses.len() == 0 {
        seq![]
    } else {
        clauses_params(clauses.drop_last()) + clauses.last().params()
    }
}

/// The text of a conjunction over `table`: its clauses joined by ` AND `,
/// their placeholders numbered onward from `first`. A conjunction of no
/// clause reads `True`.
pub open spec fn clauses_text(clauses: Seq<ClauseView>, table: Table, first: nat) -> Seq<char>
    decreases clauses.len(),
{
    if clauses.len() == 0 {
        "True"@
    } else if clauses.len() == 1 {
        clauses[0].text(table, first)
    } else {
        clauses_text(clauses.drop_last(), table, first) + " AND "@ + clauses.last().text(
            table,
            first + clauses_params(clauses.drop_last()).len(),
        )
    }
}

/// The fragment that a conjunction over `table` renders to.
pub open spec fn clauses_sql(clauses: Seq<ClauseView>, table: Table, first: nat) -> SqlFragmentView {
    SqlFragmentView {
        text: clauses_text(clauses, table, first),
        params: clauses_params(clauses),
    }
}

impl ClauseView {
    /// Whether two clauses test the same column in the same way, whatever
    /// values they test it against.
    pub open spec fn same_shape(self, other: ClauseView) -> bool {
        match (self, other) {
            (ClauseView::Always, ClauseView::Always) => true,
            (ClauseView::IdIn(_), ClauseView::IdIn(_)) => true,
            (ClauseView::Contains(_), ClauseView::Contains(_)) => true,
            (ClauseView::StateIs(_), ClauseView::StateIs(_)) => true,
            (ClauseView::CreatedWithin(_), ClauseView::CreatedWithin(_)) => true,
            (ClauseView::CategoryIs(_), ClauseView::CategoryIs(_)) => true,
            _ => false,
        }
    }
}

/// Whether two conjunctions have clauses of the same shape, one by one.
pub open spec fn same_shapes(a: Seq<ClauseView>, b: Seq<ClauseView>) -> bool {
    a.len() == b.len() && forall|i: int| 0 <= i < a.len() ==> (#[trigger] a[i]).same_shape(b[i])
}

/// The text of a conjunction does not depend on the values that its clauses
/// hold: two conjunctions of one shape read the same and bind equally many
/// values. No value of a request can change what a statement says.
pub proof fn lemma_text_ignores_values(
    a: Seq<ClauseView>,
    b: Seq<ClauseView>,
    table: Table,
    first: nat,
)
    requires
        same_shapes(a, b),
    ensures
        clauses_text(a, table, first) == clauses_text(b, table, first),
        clauses_params(a).len() == clauses_params(b).len(),
    decreases a.len(),
{
    if a.len() > 0 {
        assert(a.last().same_shape(b.last())) by {
            assert(a[a.len() - 1].same_shape(b[a.len() - 1]));
        }
        assert(same_shapes(a.drop_last(), b.drop_last())) by {
            assert forall|i: int| 0 <= i < a.drop_last().len() implies (#[trigger] a.drop_last()[i]).same_shape(
                b.drop_last()[i],
            ) by {
                assert(a[i].same_shape(b[i]));
            }
        }
        lemma_text_ignores_values(a.drop_last(), b.drop_last(), table, first);
        if a.len() == 1 {
            assert(a[0].same_shape(b[0]));
        }
    }
}

/// Two article filters that supply the same fields render to the same text,
/// whatever they supply for them.
pub proof fn lemma_article_text_ignores_values(
    a: QueryArticle,
    b: QueryArticle,
    window_a: Option<YearWindow>,
    window_b: Option<YearWindow>,
)
    requires
        (a.ids@.len() == 0) == (b.ids@.len() == 0),
        (a.title@.len() == 0) == (b.title@.len() == 0),
        (a.state == 0) == (b.state == 0),
        (window_a is None) == (window_b is None),
        (a.category_id == 0) == (b.category_id == 0),
    ensures
        article_condition(a, window_a).text == article_condition(b, window_b).text,
        article_condition(a, window_a).params.len() == article_condition(b, window_b).params.len(),
{
    let ca = article_clauses(a, None, window_a);
    let cb = article_clauses(b, None, window_b);
    assert(same_shapes(ca, cb)) by {
        assert(ca[0].same_shape(cb[0]));
        assert(ca[1].same_shape(cb[1]));
        assert(ca[2].same_shape(cb[2]));
        assert(ca[3].same_shape(cb[3]));
        assert(ca[4].same_shape(cb[4]));
    }
    lemma_text_ignores_values(ca, cb, Table::Articles, 1);
}

/// Copies a list of ids.
pub fn copy_ids(ids: &Vec<i32>) -> (copy: Vec<i32>)
    ensures
        copy@ == ids@,
{
    let mut copy: Vec<i32> = Vec::new();
    let mut i: usize = 0;
    while i < ids.len()
        invariant
            i <= ids.len(),
            copy@ == ids@.take(i as int),
        decreases ids.len() - i,
    {
        copy.push(ids[i]);
        assert(ids@.take(i as int).push(ids@[i as int]) == ids@.take(i as int + 1));
        i += 1;
    }
    assert(ids@.take(ids.len() as int) == ids@);
    copy
}

/// Renders the placeholder with number `k`.
pub fn placeholder(k: u128) -> (text: String)
    ensures
        text@ == placeholder_text(k as nat),
{
    let mut text = String::from_str("$");
    let number = decimal(k);
    text.append(number.as_str());
    text
}

fn column_of(table: Table) -> (name: &'static str)
    ensures
        name@ == label_column(table),
{
    match table {
        Table::Articles => "title",
        Table::Categories => "name",
        Table::Tags => "name",
    }
}

impl Clause {
    /// Renders the clause over `table`, numbering its placeholders from
    /// `first`.
    pub fn to_sql(&self, table: Table, first: u64) -> (fragment: SqlFragment)
        ensures
            fragment@.text == self@.text(table, first as nat),
            fragment@.params == self@.params(),
            fragment.params@.len() == self@.arity(),
    {
        self.render(table, first as u128)
    }

    fn render(&self, table: Table, first: u128) -> (fragment: SqlFragment)
        requires
            first < u128::MAX,
        ensures
            fragment@.text == self@.text(table, first as nat),
            fragment@.params == self@.params(),
            fragment.params@.len() == self@.arity(),
    {
        let mut params: Vec<SqlValue> = Vec::new();
        let mut text: String;
        match self {
            Clause::Always => {
                text = String::from_str("True");
            },
            Clause::IdIn(ids) => {
                text = String::from_str("id = ANY(");
                text.append(placeholder(first).as_str());
                text.append(")");
                params.push(SqlValue::IntList(copy_ids(ids)));
            },
            Clause::Contains(needle) => {
                text = String::from_str("strpos(");
                text.append(column_of(table));
                text.append(", ");
                text.append(placeholder(first).as_str());
                text.append(") > 0");
                params.push(SqlValue::Text(needle.clone()));
            },
            Clause::StateIs(state) => {
                text = String::from_str(
                    "CASE state WHEN 'published' THEN 1 WHEN 'hidden' THEN 2 ELSE 0 END = ",
                );
                text.append(placeholder(first).as_str());
                params.push(SqlValue::Int(*state));
            },
            Clause::CreatedWithin(window) => {
                text = String::from_str("created_at >= to_timestamp(");
                text.append(placeholder(first).as_str());
                text.append(") AND created_at < to_timestamp(");
                text.append(placeholder(first + 1).as_str());
                text.append(")");
                params.push(SqlValue::BigInt(window.start));
                params.push(SqlValue::BigInt(window.end));
            },
            Clause::CategoryIs(category) => {
                text = String::from_str("category_id = ");
                text.append(placeholder(first).as_str());
                params.push(SqlValue::Int(*category));
            },
        }
        let fragment = SqlFragment { text, params };
        assert(fragment@.params =~= self@.params());
        fragment
    }
}

impl Predicate {
    /// Renders the predicate as a condition, numbering its placeholders from
    /// `first`.
    pub fn to_sql(&self, first: u64) -> (fragment: SqlFragment)
        ensures
            fragment@ == clauses_sql(self@.clauses, self@.table, first as nat),
    {
        let ghost clauses = self@.clauses;
        let mut text = String::new();
        let mut params: Vec<SqlValue> = Vec::new();
        let count: usize = self.clauses.len();
        if count == 0 {
            text.append("True");
            let fragment = SqlFragment { text, params };
            assert(fragment@.params =~= clauses_params(clauses));
            assert("True"@ == Seq::<char>::empty() + "True"@);
            return fragment;
        }
        let mut i: usize = 0;
        while i < count
            invariant
                i <= count,
                count == self.clauses@.len(),
                count > 0,
                clauses == self@.clauses,
                values_view(params@) == clauses_params(clauses.take(i as int)),
                i == 0 ==> text@ == Seq::<char>::empty(),
                i > 0 ==> text@ == clauses_text(clauses.take(i as int), self.table, first as nat),
            decreases count - i,
        {
            let ghost before = clauses.take(i as int);
            let ghost after = clauses.take(i as int + 1);
            proof {
                assert(after.drop_last() == before);
                assert(after.last() == clauses[i as int]);
                assert(clauses[i as int] == self.clauses@[i as int]@);
            }
            let number: u128 = first as u128 + params.len() as u128;
            let mut piece = self.clauses[i].render(self.table, number);
            if i > 0 {
                text.append(" AND ");
            }
            text.append(piece.text.as_str());
            let ghost held = params@;
            params.append(&mut piece.params);
            proof {
                assert(values_view(params@) =~= values_view(held) + clauses[i as int].params());
                assert(values_view(held).len() == held.len());
                if i == 0 {
                    assert(after.len() == 1);
                    assert(after[0] == clauses[0]);
                    assert(before.len() == 0);
                    assert(clauses_params(before).len() == 0);
                    assert(Seq::<char>::empty() + clauses[0].text(self.table, first as nat)
                        == clauses[0].text(self.table, first as nat));
                }
            }
            i += 1;
        }
        assert(clauses.take(count as int) == clauses);
        SqlFragment { text, params }
    }
}

/// A request that can be put as a piece of statement text with bound values.
pub trait ToSql: Sized {
    /// The fragment that the request renders to, where that is settled by
    /// the request alone.
    spec fn sql_of(self) -> Option<SqlFragmentView>;

    /// Renders the request, numbering placeholders from 1.
    fn to_sql(self) -> (res: Result<SqlFragment, BackendError>)
        ensures
            self.sql_of() is Some ==> res is Ok && res->Ok_0@ == self.sql_of()->0,
    ;
}

/// The condition of an article filter for a given span of its year.
pub open spec fn article_condition(query: QueryArticle, window: Option<YearWindow>) -> SqlFragmentView {
    clauses_sql(article_clauses(query, None, window), Table::Articles, 1)
}

/// The condition of a filter by ids and name over `table`.
pub open spec fn name_condition(table: Table, ids: Seq<i32>, name: Seq<char>) -> SqlFragmentView {
    clauses_sql(name_clauses(ids, name), table, 1)
}

/// Whether `window` is a span of 365 days.
pub open spec fn is_year_long(window: YearWindow) -> bool {
    window.end == window.start + YEAR_SECONDS
}

/// Renders an article filter whose year, if it names one, stands for
/// `window`.
pub fn article_condition_for(
    query: QueryArticle,
    window: Option<YearWindow>,
) -> (fragment: SqlFragment)
    ensures
        fragment@ == article_condition(query, window),
{
    let predicate = article_predicate(query, None, window);
    predicate.to_sql(1)
}

impl ToSql for QueryArticle {
    /// Settled by the filter alone where it names no year.
    open spec fn sql_of(self) -> Option<SqlFragmentView> {
        if self.created_year is None {
            Some(article_condition(self, None))
        } else {
            None
        }
    }

    /// Renders the filter as a condition over the articles. The filter's
    /// tags are not part of the condition. Where the filter names a year,
    /// the condition holds a span of 365 days for it, and the request is
    /// refused as invalid where no such span can be found.
    fn to_sql(self) -> (res: Result<SqlFragment, BackendError>)
        ensures
            match res {
                Ok(fragment) => match self.created_year {
                    None => fragment@ == article_condition(self, None),
                    Some(_) => exists|window: YearWindow|
                        is_year_long(window) && #[trigger] article_condition(self, Some(window))
                            == fragment@,
                },
                Err(error) => self.created_year is Some && error is InvalidRequest
                    && error.detail() == "No year can be read from the instant given."@,
            },
    {
        match self.created_year {
            None => Ok(article_condition_for(self, None)),
            Some(at) => match year_window(at) {
                Some(window) => {
                    let fragment = article_condition_for(self, Some(window));
                    assert(is_year_long(window) && article_condition(self, Some(window))
                        == fragment@);
                    Ok(fragment)
                },
                None => Err(BackendError::invalid("No year can be read from the instant given.")),
            },
        }
    }
}

impl ToSql for QueryCategory {
    open spec fn sql_of(self) -> Option<SqlFragmentView> {
        Some(name_condition(Table::Categories, self.ids@, self.name@))
    }

    /// Renders the filter as a condition over the categories.
    fn to_sql(self) -> (res: Result<SqlFragment, BackendError>)
        ensures
            res is Ok,
            res->Ok_0@ == name_condition(Table::Categories, self.ids@, self.name@),
    {
        let predicate = category_predicate(self);
        Ok(predicate.to_sql(1))
    }
}

impl ToSql for QueryTag {
    open spec fn sql_of(self) -> Option<SqlFragmentView> {
        Some(name_condition(Table::Tags, self.ids@, self.name@))
    }

    /// Renders the filter as a condition over the tags.
    fn to_sql(self) -> (res: Result<SqlFragment, BackendError>)
        ensures
            res is Ok,
            res->Ok_0@ == name_condition(Table::Tags, self.ids@, self.name@),
    {
        let predicate = tag_predicate(self);
        Ok(predicate.to_sql(1))
    }
}

} // verus!
