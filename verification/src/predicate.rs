//! Sparse filters as conjunctions of column tests, and what those
//! conjunctions mean for a row.

use vstd::prelude::*;
use crate::model::{QueryArticle, QueryCategory, QueryTag};

verus! {

/// The table a predicate ranges over.
#[derive(Clone, Copy, Debug, PartialEq, Eq)]
pub enum Table {
    Articles,
    Categories,
    Tags,
}

/// The number of seconds in the 365 days that a year filter spans. The span
/// is fixed: in a leap year it ends one day before the calendar year does.
pub const YEAR_SECONDS: i64 = 31536000;

/// A half-open span of instants, in seconds since 1970-01-01T00:00:00Z:
/// `start` belongs to it, `end` does not.
#[derive(Clone, Copy, Debug, PartialEq, Eq)]
pub struct YearWindow {
    pub start: i64,
    pub end: i64,
}

/// One test on a row.
#[derive(Clone, Debug, PartialEq, Eq)]
pub enum Clause {
    /// Holds of every row.
    Always,
    /// The row's id is one of these; of no row where the list is empty.
    IdIn(Vec<i32>),
    /// The row's title (of an article) or name (of a category or tag) holds
    /// this text as a contiguous part, letter case observed.
    Contains(String),
    /// The article's state has this number.
    StateIs(i32),
    /// The article was created within this span.
    CreatedWithin(YearWindow),
    /// The article belongs to this category.
    CategoryIs(i32),
}

/// A conjunction of tests over the rows of one table.
#[derive(Clone, Debug, PartialEq, Eq)]
pub struct Predicate {
    pub table: Table,
    pub clauses: Vec<Clause>,
}

/// What a predicate reads of a row. `label` is the title of an article or
/// the name of a category or tag; `created_at` counts seconds since
/// 1970-01-01T00:00:00Z. Rows of categories and tags have no use for the
/// other three columns.
pub struct Row {
    pub id: i32,
    pub label: Seq<char>,
    pub state: i32,
    pub created_at: int,
    pub category_id: i32,
}

/// The mathematical value of a clause.
pub enum ClauseView {
    Always,
    IdIn(Seq<i32>),
    Contains(Seq<char>),
    StateIs(i32),
    CreatedWithin(YearWindow),
    CategoryIs(i32),
}

/// The mathematical value of a predicate.
pub struct PredicateView {
    pub table: Table,
    pub clauses: Seq<ClauseView>,
}

/// Whether `needle` occurs in `text` as a contiguous part.
pub open spec fn contains_text(text: Seq<char>, needle: Seq<char>) -> bool {
    exists|at: int|
        0 <= at && at + needle.len() <= text.len() && #[trigger] text.subrange(
            at,
            at + needle.len(),
        ) == needle
}

impl ClauseView {
    /// Whether the clause holds of `row`.
    pub open spec fn holds(self, row: Row) -> bool {
        match self {
            ClauseView::Always => true,
            ClauseView::IdIn(ids) => ids.contains(row.id),
            ClauseView::Contains(needle) => contains_text(row.label, needle),
            ClauseView::StateIs(state) => row.state == state,
            ClauseView::CreatedWithin(window) => window.start <= row.created_at < window.end,
            ClauseView::CategoryIs(category) => row.category_id == category,
        }
    }
}

/// Whether every clause holds of `row`.
pub open spec fn all_hold(clauses: Seq<ClauseView>, row: Row) -> bool {
    forall|i: int| 0 <= i < clauses.len() ==> (#[trigger] clauses[i]).holds(row)
}

impl PredicateView {
    /// Whether the predicate selects `row`.
    pub open spec fn matches(self, row: Row) -> bool {
        all_hold(self.clauses, row)
    }
}

impl View for Clause {
    type V = ClauseView;

    open spec fn view(&self) -> ClauseView {
        match *self {
            Clause::Always => ClauseView::Always,
            Clause::IdIn(ids) => ClauseView::IdIn(ids@),
            Clause::Contains(needle) => ClauseView::Contains(needle@),
            Clause::StateIs(state) => ClauseView::StateIs(state),
            Clause::CreatedWithin(window) => ClauseView::CreatedWithin(window),
            Clause::CategoryIs(category) => ClauseView::CategoryIs(category),
        }
    }
}

impl View for Predicate {
    type V = PredicateView;

    open spec fn view(&self) -> PredicateView {
        PredicateView {
            table: self.table,
            clauses: Seq::new(self.clauses@.len(), |i: int| self.clauses@[i]@),
        }
    }
}

/// Whether a filter on ids lets a row with this id pass: an empty list lets
/// every row pass.
pub open spec fn ids_accept(ids: Seq<i32>, id: i32) -> bool {
    ids.len() == 0 || ids.contains(id)
}

/// Whether a filter on a text column lets this text pass: an empty needle
/// lets every text pass.
pub open spec fn text_accepts(needle: Seq<char>, text: Seq<char>) -> bool {
    needle.len() == 0 || contains_text(text, needle)
}

/// Whether a filter on a number lets this number pass: zero lets every
/// number pass.
pub open spec fn number_accepts(wanted: i32, actual: i32) -> bool {
    wanted == 0 || wanted == actual
}

/// Whether a filter on the year of creation lets this instant pass.
pub open spec fn window_accepts(window: Option<YearWindow>, at: int) -> bool {
    match window {
        None => true,
        Some(w) => w.start <= at < w.end,
    }
}

/// Whether the id part of an article filter lets a row with this id pass.
/// Where articles were looked up by their tags (`tagged` is given), the row
/// passes if its id was asked for by number or was found by that lookup.
pub open spec fn article_ids_accept(ids: Seq<i32>, tagged: Option<Seq<i32>>, id: i32) -> bool {
    match tagged {
        None => ids_accept(ids, id),
        Some(found) => ids.contains(id) || found.contains(id),
    }
}

/// Whether an article filter selects `row`, given the articles found by tag
/// and the span that its year stands for.
pub open spec fn article_filter_accepts(
    query: QueryArticle,
    tagged: Option<Seq<i32>>,
    window: Option<YearWindow>,
    row: Row,
) -> bool {
    &&& article_ids_accept(query.ids@, tagged, row.id)
    &&& text_accepts(query.title@, row.label)
    &&& number_accepts(query.state, row.state)
    &&& window_accepts(window, row.created_at)
    &&& number_accepts(query.category_id, row.category_id)
}

/// Whether a filter by ids and name selects `row`.
pub open spec fn name_filter_accepts(ids: Seq<i32>, name: Seq<char>, row: Row) -> bool {
    ids_accept(ids, row.id) && text_accepts(name, row.label)
}

/// The clause for a filter on ids.
pub open spec fn id_clause(ids: Seq<i32>) -> ClauseView {
    if ids.len() == 0 {
        ClauseView::Always
    } else {
        ClauseView::IdIn(ids)
    }
}

/// The clause for the id part of an article filter.
pub open spec fn article_id_clause(ids: Seq<i32>, tagged: Option<Seq<i32>>) -> ClauseView {
    match tagged {
        None => id_clause(ids),
        Some(found) => ClauseView::IdIn(ids + found),
    }
}

/// The clause for a filter on a text column.
pub open spec fn text_clause(needle: Seq<char>) -> ClauseView {
    if needle.len() == 0 {
        ClauseView::Always
    } else {
        ClauseView::Contains(needle)
    }
}

/// The clause for a filter on the state.
pub open spec fn state_clause(state: i32) -> ClauseView {
    if state == 0 {
        ClauseView::Always
    } else {
        ClauseView::StateIs(state)
    }
}

/// The clause for a filter on the year of creation.
pub open spec fn window_clause(window: Option<YearWindow>) -> ClauseView {
    match window {
        None => ClauseView::Always,
        Some(w) => ClauseView::CreatedWithin(w),
    }
}

/// The clause for a filter on the category.
pub open spec fn category_clause(category: i32) -> ClauseView {
    if category == 0 {
        ClauseView::Always
    } else {
        ClauseView::CategoryIs(category)
    }
}

/// The five clauses of an article filter: ids, title, state, year, category.
pub open spec fn article_clauses(
    query: QueryArticle,
    tagged: Option<Seq<i32>>,
    window: Option<YearWindow>,
) -> Seq<ClauseView> {
    seq![
        article_id_clause(query.ids@, tagged),
        text_clause(query.title@),
        state_clause(query.state),
        window_clause(window),
        category_clause(query.category_id),
    ]
}

/// The two clauses of a filter by ids and name.
pub open spec fn name_clauses(ids: Seq<i32>, name: Seq<char>) -> Seq<ClauseView> {
    seq![id_clause(ids), text_clause(name)]
}

/// The view of the list found by tag, where there is one.
pub open spec fn tagged_view(tagged: Option<Vec<i32>>) -> Option<Seq<i32>> {
    match tagged {
        None => None,
        Some(found) => Some(found@),
    }
}

fn ids_to_clause(ids: Vec<i32>) -> (clause: Clause)
    ensures
        clause@ == id_clause(ids@),
{
    if ids.len() == 0 {
        Clause::Always
    } else {
        Clause::IdIn(ids)
    }
}

fn text_to_clause(needle: String) -> (clause: Clause)
    ensures
        clause@ == text_clause(needle@),
{
    if needle.as_str().is_empty() {
        Clause::Always
    } else {
        Clause::Contains(needle)
    }
}

/// Builds the predicate of an article filter. `tagged` holds the ids of the
/// articles that a lookup by the filter's tags found, where such a lookup was
/// made; `window` is the span that the filter's year stands for, where it
/// names one. The filter's own `tags_id` and `created_year` are not read.
pub fn article_predicate(
    query: QueryArticle,
    tagged: Option<Vec<i32>>,
    window: Option<YearWindow>,
) -> (predicate: Predicate)
    ensures
        predicate@.table == Table::Articles,
        predicate@.clauses == article_clauses(query, tagged_view(tagged), window),
        forall|row: Row|
            #[trigger] predicate@.matches(row) <==> article_filter_accepts(
                query,
                tagged_view(tagged),
                window,
                row,
            ),
{
    let ghost wanted = article_clauses(query, tagged_view(tagged), window);
    let QueryArticle { ids, title, state, created_year: _, category_id, tags_id: _ } = query;
    let by_id = match tagged {
        None => ids_to_clause(ids),
        Some(found) => {
            let mut all = ids;
            let mut more = found;
            all.append(&mut more);
            Clause::IdIn(all)
        },
    };
    let by_title = text_to_clause(title);
    let by_state = if state == 0 {
        Clause::Always
    } else {
        Clause::StateIs(state)
    };
    let by_year = match window {
        None => Clause::Always,
        Some(w) => Clause::CreatedWithin(w),
    };
    let by_category = if category_id == 0 {
        Clause::Always
    } else {
        Clause::CategoryIs(category_id)
    };
    let mut clauses: Vec<Clause> = Vec::new();
    clauses.push(by_id);
    clauses.push(by_title);
    clauses.push(by_state);
    clauses.push(by_year);
    clauses.push(by_category);
    let predicate = Predicate { table: Table::Articles, clauses };
    proof {
        assert(predicate@.clauses =~= wanted);
        assert forall|row: Row|
            #[trigger] predicate@.matches(row) <==> article_filter_accepts(
                query,
                tagged_view(tagged),
                window,
                row,
            ) by {
            lemma_article_clauses_meaning(query, tagged_view(tagged), window, row);
        }
    }
    predicate
}

/// Builds the predicate of a filter by ids and name over `table`.
pub fn name_predicate(table: Table, ids: Vec<i32>, name: String) -> (predicate: Predicate)
    ensures
        predicate@.table == table,
        predicate@.clauses == name_clauses(ids@, name@),
        forall|row: Row| #[trigger] predicate@.matches(row) <==> name_filter_accepts(ids@, name@, row),
{
    let ghost wanted = name_clauses(ids@, name@);
    let by_id = ids_to_clause(ids);
    let by_name = text_to_clause(name);
    let mut clauses: Vec<Clause> = Vec::new();
    clauses.push(by_id);
    clauses.push(by_name);
    let predicate = Predicate { table, clauses };
    proof {
        assert(predicate@.clauses =~= wanted);
        assert forall|row: Row| #[trigger]
            predicate@.matches(row) <==> name_filter_accepts(ids@, name@, row) by {
            lemma_name_clauses_meaning(ids@, name@, row);
        }
    }
    predicate
}

/// Builds the predicate of a category filter.
pub fn category_predicate(query: QueryCategory) -> (predicate: Predicate)
    ensures
        predicate@.table == Table::Categories,
        predicate@.clauses == name_clauses(query.ids@, query.name@),
        forall|row: Row|
            #[trigger] predicate@.matches(row) <==> name_filter_accepts(query.ids@, query.name@, row),
{
    let QueryCategory { ids, name } = query;
    name_predicate(Table::Categories, ids, name)
}

/// Builds the predicate of a tag filter.
pub fn tag_predicate(query: QueryTag) -> (predicate: Predicate)
    ensures
        predicate@.table == Table::Tags,
        predicate@.clauses == name_clauses(query.ids@, query.name@),
        forall|row: Row|
            #[trigger] predicate@.matches(row) <==> name_filter_accepts(query.ids@, query.name@, row),
{
    let QueryTag { ids, name } = query;
    name_predicate(Table::Tags, ids, name)
}

/// The empty text occurs in every text.
pub proof fn lemma_empty_text_is_contained(text: Seq<char>)
    ensures
        contains_text(text, Seq::<char>::empty()),
{
    assert(text.subrange(0, 0 + Seq::<char>::empty().len() as int) =~= Seq::<char>::empty());
}

/// The clauses of an article filter hold of a row exactly when the filter
/// selects it.
pub proof fn lemma_article_clauses_meaning(
    query: QueryArticle,
    tagged: Option<Seq<i32>>,
    window: Option<YearWindow>,
    row: Row,
)
    ensures
        all_hold(article_clauses(query, tagged, window), row) <==> article_filter_accepts(
            query,
            tagged,
            window,
            row,
        ),
{
    let clauses = article_clauses(query, tagged, window);
    assert(clauses.len() == 5);
    match tagged {
        None => {},
        Some(found) => {
            let all = query.ids@ + found;
            if query.ids@.contains(row.id) {
                let k = choose|k: int| 0 <= k < query.ids@.len() && query.ids@[k] == row.id;
                assert(all[k] == row.id);
            }
            if found.contains(row.id) {
                let k = choose|k: int| 0 <= k < found.len() && found[k] == row.id;
                assert(all[query.ids@.len() + k] == row.id);
            }
            if all.contains(row.id) {
                let k = choose|k: int| 0 <= k < all.len() && all[k] == row.id;
                if k < query.ids@.len() {
                    assert(query.ids@[k] == row.id);
                } else {
                    assert(found[k - query.ids@.len()] == row.id);
                }
            }
        },
    }
    if all_hold(clauses, row) {
        assert(clauses[0].holds(row));
        assert(clauses[1].holds(row));
        assert(clauses[2].holds(row));
        assert(clauses[3].holds(row));
        assert(clauses[4].holds(row));
    }
}

/// The clauses of a filter by ids and name hold of a row exactly when the
/// filter selects it.
pub proof fn lemma_name_clauses_meaning(ids: Seq<i32>, name: Seq<char>, row: Row)
    ensures
        all_hold(name_clauses(ids, name), row) <==> name_filter_accepts(ids, name, row),
{
    let clauses = name_clauses(ids, name);
    assert(clauses.len() == 2);
    if all_hold(clauses, row) {
        assert(clauses[0].holds(row));
        assert(clauses[1].holds(row));
    }
}

/// An article filter that puts no condition on any column selects every row.
pub proof fn lemma_blank_article_filter_matches_all(query: QueryArticle, row: Row)
    requires
        query.is_blank(),
    ensures
        all_hold(article_clauses(query, None, None), row),
        article_filter_accepts(query, None, None, row),
{
    lemma_article_clauses_meaning(query, None, None, row);
}

/// A category filter that puts no condition on any column selects every row.
pub proof fn lemma_blank_category_filter_matches_all(query: QueryCategory, row: Row)
    requires
        query.is_blank(),
    ensures
        all_hold(name_clauses(query.ids@, query.name@), row),
{
    lemma_name_clauses_meaning(query.ids@, query.name@, row);
}

/// A tag filter that puts no condition on any column selects every row.
pub proof fn lemma_blank_tag_filter_matches_all(query: QueryTag, row: Row)
    requires
        query.is_blank(),
    ensures
        all_hold(name_clauses(query.ids@, query.name@), row),
{
    lemma_name_clauses_meaning(query.ids@, query.name@, row);
}

/// Every absent field contributes a clause that holds of all rows.
pub proof fn lemma_absent_fields_hold(row: Row)
    ensures
        id_clause(Seq::<i32>::empty()).holds(row),
        text_clause(Seq::<char>::empty()).holds(row),
        state_clause(0).holds(row),
        window_clause(None).holds(row),
        category_clause(0).holds(row),
{
}

} // verus!
