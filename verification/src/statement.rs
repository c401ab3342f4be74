//! The statements that the store issues, their text, and what they do to
//! the tables.

use vstd::prelude::*;
use vstd::string::StringExecFns;
use crate::model::{ArticleState, AS};
use crate::predicate::{all_hold, ClauseView, Predicate, PredicateView, Row};
use crate::sql::{
    clauses_sql, copy_ids, placeholder, placeholder_text, values_view, SqlFragment, SqlFragmentView,
    SqlValue, SqlValueView,
};
use crate::update::{ArticleChanges, ArticleChangesView, ArticleFields};

verus! {

/// One statement against the tables `blog.articles`, `blog.categories`,
/// `blog.tags` and the link table `blog.article_tag`.
#[derive(Clone, Debug, PartialEq, Eq)]
pub enum Statement {
    /// Reads the articles that a predicate selects, each with its tag ids.
    SelectArticles(Predicate),
    /// Reads the categories that a predicate selects.
    SelectCategories(Predicate),
    /// Reads the tags that a predicate selects.
    SelectTags(Predicate),
    /// Reads the ids of the articles linked to every one of these tags.
    ArticlesWithAllTags(Vec<i32>),
    /// Adds an article and reads the id it was given.
    InsertArticle { title: String, content: String, summary: String, state: AS, category_id: i32 },
    /// Writes some fields of an article and reads its id; fails where there
    /// is no such article.
    UpdateArticle { id: i32, changes: ArticleChanges },
    /// Removes an article, if there is one with this id.
    DeleteArticle(i32),
    /// Adds a category and reads the id it was given.
    InsertCategory(String),
    /// Renames a category and reads its id; fails where there is none.
    UpdateCategory { id: i32, name: String },
    /// Removes a category, if there is one with this id.
    DeleteCategory(i32),
    /// Adds a tag and reads the id it was given.
    InsertTag(String),
    /// Renames a tag and reads its id; fails where there is none.
    UpdateTag { id: i32, name: String },
    /// Removes a tag, if there is one with this id.
    DeleteTag(i32),
    /// Links an article to a tag.
    InsertLink { article_id: i32, tag_id: i32 },
    /// Removes the link between an article and a tag.
    DeleteLink { article_id: i32, tag_id: i32 },
    /// Removes every link of an article.
    DeleteLinksOfArticle(i32),
    /// Removes every link of a tag.
    DeleteLinksOfTag(i32),
    /// Reads the ids of the tags linked to an article.
    TagsOfArticle(i32),
    /// Reads the ids of the articles linked to a tag.
    ArticlesOfTag(i32),
}

/// The mathematical value of a statement.
pub enum StatementView {
    SelectArticles(PredicateView),
    SelectCategories(PredicateView),
    SelectTags(PredicateView),
    ArticlesWithAllTags(Seq<i32>),
    InsertArticle(ArticleFields),
    UpdateArticle { id: i32, changes: ArticleChangesView },
    DeleteArticle(i32),
    InsertCategory(Seq<char>),
    UpdateCategory { id: i32, name: Seq<char> },
    DeleteCategory(i32),
    InsertTag(Seq<char>),
    UpdateTag { id: i32, name: Seq<char> },
    DeleteTag(i32),
    InsertLink { article_id: i32, tag_id: i32 },
    DeleteLink { article_id: i32, tag_id: i32 },
    DeleteLinksOfArticle(i32),
    DeleteLinksOfTag(i32),
    TagsOfArticle(i32),
    ArticlesOfTag(i32),
}

impl View for Statement {
    type V = StatementView;

    open spec fn view(&self) -> StatementView {
        match *self {
            Statement::SelectArticles(p) => StatementView::SelectArticles(p@),
            Statement::SelectCategories(p) => StatementView::SelectCategories(p@),
            Statement::SelectTags(p) => StatementView::SelectTags(p@),
            Statement::ArticlesWithAllTags(tags) => StatementView::ArticlesWithAllTags(tags@),
            Statement::InsertArticle { title, content, summary, state, category_id } =>
                StatementView::InsertArticle(
                ArticleFields {
                    title: title@,
                    content: content@,
                    summary: summary@,
                    state: ArticleState::of_stored(state),
                    category_id,
                },
            ),
            Statement::UpdateArticle { id, changes } => StatementView::UpdateArticle {
                id,
                changes: changes@,
            },
            Statement::DeleteArticle(id) => StatementView::DeleteArticle(id),
            Statement::InsertCategory(name) => StatementView::InsertCategory(name@),
            Statement::UpdateCategory { id, name } => StatementView::UpdateCategory {
                id,
                name: name@,
            },
            Statement::DeleteCategory(id) => StatementView::DeleteCategory(id),
            Statement::InsertTag(name) => StatementView::InsertTag(name@),
            Statement::UpdateTag { id, name } => StatementView::UpdateTag { id, name: name@ },
            Statement::DeleteTag(id) => StatementView::DeleteTag(id),
            Statement::InsertLink { article_id, tag_id } => StatementView::InsertLink {
                article_id,
                tag_id,
            },
            Statement::DeleteLink { article_id, tag_id } => StatementView::DeleteLink {
                article_id,
                tag_id,
            },
            Statement::DeleteLinksOfArticle(id) => StatementView::DeleteLinksOfArticle(id),
            Statement::DeleteLinksOfTag(id) => StatementView::DeleteLinksOfTag(id),
            Statement::TagsOfArticle(id) => StatementView::TagsOfArticle(id),
            Statement::ArticlesOfTag(id) => StatementView::ArticlesOfTag(id),
        }
    }
}

/// The values of a list of statements.
pub open spec fn plan_view(plan: Seq<Statement>) -> Seq<StatementView> {
    Seq::new(plan.len(), |i: int| plan[i]@)
}

/// An article as the store keeps it.
pub struct StoredArticle {
    pub fields: ArticleFields,
    /// The instant of creation, in seconds since 1970-01-01T00:00:00Z.
    pub created_at: int,
}

/// The contents of the store: the rows of the three tables by id, and the
/// links between articles and tags as pairs of an article id and a tag id.
pub struct Tables {
    pub articles: Map<i32, StoredArticle>,
    pub categories: Map<i32, Seq<char>>,
    pub tags: Map<i32, Seq<char>>,
    pub links: Set<(i32, i32)>,
}

impl Tables {
    /// What a predicate reads of the article with this id.
    pub open spec fn article_row(self, id: i32) -> Row {
        Row {
            id,
            label: self.articles[id].fields.title,
            state: self.articles[id].fields.state.code(),
            created_at: self.articles[id].created_at,
            category_id: self.articles[id].fields.category_id,
        }
    }

    /// The ids of the articles that a conjunction selects.
    pub open spec fn selected_articles(self, clauses: Seq<ClauseView>) -> Set<i32> {
        Set::new(|id: i32| self.articles.dom().contains(id) && all_hold(clauses, self.article_row(id)))
    }

    /// The ids of the tags linked to an article.
    pub open spec fn tags_of(self, article_id: i32) -> Set<i32> {
        Set::new(|tag_id: i32| self.links.contains((article_id, tag_id)))
    }

    /// The ids of the articles linked to a tag.
    pub open spec fn articles_of(self, tag_id: i32) -> Set<i32> {
        Set::new(|article_id: i32| self.links.contains((article_id, tag_id)))
    }

    /// The ids of the articles that have a link at all and are linked to
    /// every one of `tags`.
    pub open spec fn articles_with_all(self, tags: Seq<i32>) -> Set<i32> {
        Set::new(
            |article_id: i32|
                (exists|any: i32| self.links.contains((article_id, any))) && forall|i: int|
                    0 <= i < tags.len() ==> self.links.contains((article_id, #[trigger] tags[i])),
        )
    }
}

impl StatementView {
    /// Whether the statement only reads.
    pub open spec fn is_read(self) -> bool {
        match self {
            StatementView::SelectArticles(_) => true,
            StatementView::SelectCategories(_) => true,
            StatementView::SelectTags(_) => true,
            StatementView::ArticlesWithAllTags(_) => true,
            StatementView::TagsOfArticle(_) => true,
            StatementView::ArticlesOfTag(_) => true,
            _ => false,
        }
    }

    /// The tables after the statement has succeeded. `assigned` is the id
    /// and `now` the instant that the store gives to a row that the
    /// statement adds; other statements read neither.
    pub open spec fn effect(self, before: Tables, assigned: i32, now: int) -> Tables {
        match self {
            StatementView::InsertArticle(fields) => Tables {
                articles: before.articles.insert(assigned, StoredArticle { fields, created_at: now }),
                ..before
            },
            StatementView::UpdateArticle { id, changes } => Tables {
                articles: before.articles.insert(
                    id,
                    StoredArticle {
                        fields: changes.apply(before.articles[id].fields),
                        created_at: before.articles[id].created_at,
                    },
                ),
                ..before
            },
            StatementView::DeleteArticle(id) => Tables {
                articles: before.articles.remove(id),
                ..before
            },
            StatementView::InsertCategory(name) => Tables {
                categories: before.categories.insert(assigned, name),
                ..before
            },
            StatementView::UpdateCategory { id, name } => Tables {
                categories: before.categories.insert(id, name),
                ..before
            },
            StatementView::DeleteCategory(id) => Tables {
                categories: before.categories.remove(id),
                ..before
            },
            StatementView::InsertTag(name) => Tables {
                tags: before.tags.insert(assigned, name),
                ..before
            },
            StatementView::UpdateTag { id, name } => Tables {
                tags: before.tags.insert(id, name),
                ..before
            },
            StatementView::DeleteTag(id) => Tables { tags: before.tags.remove(id), ..before },
            StatementView::InsertLink { article_id, tag_id } => Tables {
                links: before.links.insert((article_id, tag_id)),
                ..before
            },
            StatementView::DeleteLink { article_id, tag_id } => Tables {
                links: before.links.remove((article_id, tag_id)),
                ..before
            },
            StatementView::DeleteLinksOfArticle(id) => Tables {
                links: Set::new(|link: (i32, i32)| before.links.contains(link) && link.0 != id),
                ..before
            },
            StatementView::DeleteLinksOfTag(id) => Tables {
                links: Set::new(|link: (i32, i32)| before.links.contains(link) && link.1 != id),
                ..before
            },
            _ => before,
        }
    }

    /// Whether the statement succeeds on these tables, the store itself
    /// being in order: an update needs its row, every other statement
    /// succeeds.
    pub open spec fn applies(self, before: Tables) -> bool {
        match self {
            StatementView::UpdateArticle { id, changes } => before.articles.dom().contains(id),
            StatementView::UpdateCategory { id, name } => before.categories.dom().contains(id),
            StatementView::UpdateTag { id, name } => before.tags.dom().contains(id),
            _ => true,
        }
    }

    /// The statement's text.
    pub open spec fn text(self) -> Seq<char> {
        match self {
            StatementView::SelectArticles(p) => "SELECT * FROM (SELECT * FROM blog.articles WHERE "@
                + clauses_sql(p.clauses, p.table, 1).text
                + ") AS first LEFT OUTER JOIN blog.article2tag AS second ON first.id = second.article_id;"@,
            StatementView::SelectCategories(p) => "SELECT * FROM blog.categories WHERE "@
                + clauses_sql(p.clauses, p.table, 1).text + ";"@,
            StatementView::SelectTags(p) => "SELECT * FROM blog.tags WHERE "@ + clauses_sql(
                p.clauses,
                p.table,
                1,
            ).text + ";"@,
            StatementView::ArticlesWithAllTags(_) =>
                "SELECT article_id FROM blog.article_tag WHERE tag_id = ANY($1) GROUP BY article_id HAVING count(DISTINCT tag_id) = (SELECT count(DISTINCT wanted) FROM unnest($1) AS wanted);"@,
            StatementView::InsertArticle(_) =>
                "INSERT INTO blog.articles (title, content, summary, state, category_id) VALUES ($1, $2, $3, $4::blog.article_state, $5) RETURNING id;"@,
            StatementView::UpdateArticle { id, changes } => "UPDATE blog.articles SET "@
                + changes.text(1) + " WHERE id = "@ + placeholder_text(changes.count() + 1)
                + " RETURNING id;"@,
            StatementView::DeleteArticle(_) => "DELETE FROM blog.articles WHERE id = $1;"@,
            StatementView::InsertCategory(_) =>
                "INSERT INTO blog.categories (name) VALUES ($1) RETURNING id;"@,
            StatementView::UpdateCategory { id, name } =>
                "UPDATE blog.categories SET name = $1 WHERE id = $2 RETURNING id;"@,
            StatementView::DeleteCategory(_) => "DELETE FROM blog.categories WHERE id = $1;"@,
            StatementView::InsertTag(_) => "INSERT INTO blog.tags (name) VALUES ($1) RETURNING id;"@,
            StatementView::UpdateTag { id, name } =>
                "UPDATE blog.tags SET name = $1 WHERE id = $2 RETURNING id;"@,
            StatementView::DeleteTag(_) => "DELETE FROM blog.tags WHERE id = $1;"@,
            StatementView::InsertLink { article_id, tag_id } =>
                "INSERT INTO blog.article_tag (article_id, tag_id) VALUES ($1, $2);"@,
            StatementView::DeleteLink { article_id, tag_id } =>
                "DELETE FROM blog.article_tag WHERE article_id = $1 AND tag_id = $2;"@,
            StatementView::DeleteLinksOfArticle(_) =>
                "DELETE FROM blog.article_tag WHERE article_id = $1;"@,
            StatementView::DeleteLinksOfTag(_) => "DELETE FROM blog.article_tag WHERE tag_id = $1;"@,
            StatementView::TagsOfArticle(_) =>
                "SELECT tag_id FROM blog.article_tag WHERE article_id = $1;"@,
            StatementView::ArticlesOfTag(_) =>
                "SELECT article_id FROM blog.article_tag WHERE tag_id = $1;"@,
        }
    }

    /// The values bound to the placeholders of the statement's text.
    pub open spec fn params(self) -> Seq<SqlValueView> {
        match self {
            StatementView::SelectArticles(p) => clauses_sql(p.clauses, p.table, 1).params,
            StatementView::SelectCategories(p) => clauses_sql(p.clauses, p.table, 1).params,
            StatementView::SelectTags(p) => clauses_sql(p.clauses, p.table, 1).params,
            StatementView::ArticlesWithAllTags(tags) => seq![SqlValueView::IntList(tags)],
            StatementView::InsertArticle(fields) => seq![
                SqlValueView::Text(fields.title),
                SqlValueView::Text(fields.content),
                SqlValueView::Text(fields.summary),
                SqlValueView::Text(fields.state.label()),
                SqlValueView::Int(fields.category_id),
            ],
            StatementView::UpdateArticle { id, changes } => changes.params().push(
                SqlValueView::Int(id),
            ),
            StatementView::DeleteArticle(id) => seq![SqlValueView::Int(id)],
            StatementView::InsertCategory(name) => seq![SqlValueView::Text(name)],
            StatementView::UpdateCategory { id, name } => seq![
                SqlValueView::Text(name),
                SqlValueView::Int(id),
            ],
            StatementView::DeleteCategory(id) => seq![SqlValueView::Int(id)],
            StatementView::InsertTag(name) => seq![SqlValueView::Text(name)],
            StatementView::UpdateTag { id, name } => seq![
                SqlValueView::Text(name),
                SqlValueView::Int(id),
            ],
            StatementView::DeleteTag(id) => seq![SqlValueView::Int(id)],
            StatementView::InsertLink { article_id, tag_id } => seq![
                SqlValueView::Int(article_id),
                SqlValueView::Int(tag_id),
            ],
            StatementView::DeleteLink { article_id, tag_id } => seq![
                SqlValueView::Int(article_id),
                SqlValueView::Int(tag_id),
            ],
            StatementView::DeleteLinksOfArticle(id) => seq![SqlValueView::Int(id)],
            StatementView::DeleteLinksOfTag(id) => seq![SqlValueView::Int(id)],
            StatementView::TagsOfArticle(id) => seq![SqlValueView::Int(id)],
            StatementView::ArticlesOfTag(id) => seq![SqlValueView::Int(id)],
        }
    }

    /// The statement as text with bound values.
    pub open spec fn sql(self) -> SqlFragmentView {
        SqlFragmentView { text: self.text(), params: self.params() }
    }
}

/// The tables after the statements of `plan` have succeeded one after the
/// other. None of them may add a row to a table other than the link table.
pub open spec fn run(plan: Seq<StatementView>, before: Tables) -> Tables
    decreases plan.len(),
{
    if plan.len() == 0 {
        before
    } else {
        plan.last().effect(run(plan.drop_last(), before), 0, 0)
    }
}

fn one_number(text: &str, number: i32) -> (fragment: SqlFragment)
    ensures
        fragment@.text == text@,
        fragment@.params == seq![SqlValueView::Int(number)],
{
    let mut params: Vec<SqlValue> = Vec::new();
    params.push(SqlValue::Int(number));
    let fragment = SqlFragment { text: String::from_str(text), params };
    fragment
}

fn two_numbers(text: &str, first: i32, second: i32) -> (fragment: SqlFragment)
    ensures
        fragment@.text == text@,
        fragment@.params == seq![SqlValueView::Int(first), SqlValueView::Int(second)],
{
    let mut params: Vec<SqlValue> = Vec::new();
    params.push(SqlValue::Int(first));
    params.push(SqlValue::Int(second));
    let fragment = SqlFragment { text: String::from_str(text), params };
    fragment
}

fn one_name(text: &str, name: &String) -> (fragment: SqlFragment)
    ensures
        fragment@.text == text@,
        fragment@.params == seq![SqlValueView::Text(name@)],
{
    let mut params: Vec<SqlValue> = Vec::new();
    params.push(SqlValue::Text(name.clone()));
    let fragment = SqlFragment { text: String::from_str(text), params };
    fragment
}

fn name_and_number(text: &str, name: &String, number: i32) -> (fragment: SqlFragment)
    ensures
        fragment@.text == text@,
        fragment@.params == seq![SqlValueView::Text(name@), SqlValueView::Int(number)],
{
    let mut params: Vec<SqlValue> = Vec::new();
    params.push(SqlValue::Text(name.clone()));
    params.push(SqlValue::Int(number));
    let fragment = SqlFragment { text: String::from_str(text), params };
    fragment
}

fn select_where(lead: &str, predicate: &Predicate, tail: &str) -> (fragment: SqlFragment)
    ensures
        fragment@.text == lead@ + clauses_sql(predicate@.clauses, predicate@.table, 1).text + tail@,
        fragment@.params == clauses_sql(predicate@.clauses, predicate@.table, 1).params,
{
    let condition = predicate.to_sql(1);
    let mut text = String::from_str(lead);
    text.append(condition.text.as_str());
    text.append(tail);
    SqlFragment { text, params: condition.params }
}

impl Statement {
    /// Renders the statement as text with numbered placeholders and the
    /// values bound to them.
    pub fn to_sql(&self) -> (fragment: SqlFragment)
        ensures
            fragment@ == self@.sql(),
    {
        match self {
            Statement::SelectArticles(p) => select_where(
                "SELECT * FROM (SELECT * FROM blog.articles WHERE ",
                p,
                ") AS first LEFT OUTER JOIN blog.article2tag AS second ON first.id = second.article_id;",
            ),
            Statement::SelectCategories(p) => select_where(
                "SELECT * FROM blog.categories WHERE ",
                p,
                ";",
            ),
            Statement::SelectTags(p) => select_where("SELECT * FROM blog.tags WHERE ", p, ";"),
            Statement::ArticlesWithAllTags(tags) => {
                let mut params: Vec<SqlValue> = Vec::new();
                params.push(SqlValue::IntList(copy_ids(tags)));
                let fragment = SqlFragment {
                    text: String::from_str(
                        "SELECT article_id FROM blog.article_tag WHERE tag_id = ANY($1) GROUP BY article_id HAVING count(DISTINCT tag_id) = (SELECT count(DISTINCT wanted) FROM unnest($1) AS wanted);",
                    ),
                    params,
                };
                assert(fragment@.params =~= self@.params());
                fragment
            },
            Statement::InsertArticle { title, content, summary, state, category_id } => {
                let stored: ArticleState = ArticleState::from(*state);
                let mut params: Vec<SqlValue> = Vec::new();
                params.push(SqlValue::Text(title.clone()));
                params.push(SqlValue::Text(content.clone()));
                params.push(SqlValue::Text(summary.clone()));
                params.push(SqlValue::Text(String::from_str(stored.stored_label())));
                params.push(SqlValue::Int(*category_id));
                let fragment = SqlFragment {
                    text: String::from_str(
                        "INSERT INTO blog.articles (title, content, summary, state, category_id) VALUES ($1, $2, $3, $4::blog.article_state, $5) RETURNING id;",
                    ),
                    params,
                };
                assert(fragment@.params =~= self@.params());
                fragment
            },
            Statement::UpdateArticle { id, changes } => {
                let assignments = changes.to_sql(1);
                let last: u128 = assignments.params.len() as u128 + 1;
                let mut text = String::from_str("UPDATE blog.articles SET ");
                text.append(assignments.text.as_str());
                text.append(" WHERE id = ");
                text.append(placeholder(last).as_str());
                text.append(" RETURNING id;");
                let mut params = assignments.params;
                let ghost held = params@;
                params.push(SqlValue::Int(*id));
                let fragment = SqlFragment { text, params };
                assert(fragment@.params =~= values_view(held).push(SqlValueView::Int(*id)));
                fragment
            },
            Statement::DeleteArticle(id) => one_number("DELETE FROM blog.articles WHERE id = $1;", *id),
            Statement::InsertCategory(name) => one_name(
                "INSERT INTO blog.categories (name) VALUES ($1) RETURNING id;",
                name,
            ),
            Statement::UpdateCategory { id, name } => name_and_number(
                "UPDATE blog.categories SET name = $1 WHERE id = $2 RETURNING id;",
                name,
                *id,
            ),
            Statement::DeleteCategory(id) => one_number(
                "DELETE FROM blog.categories WHERE id = $1;",
                *id,
            ),
            Statement::InsertTag(name) => one_name(
                "INSERT INTO blog.tags (name) VALUES ($1) RETURNING id;",
                name,
            ),
            Statement::UpdateTag { id, name } => name_and_number(
                "UPDATE blog.tags SET name = $1 WHERE id = $2 RETURNING id;",
                name,
                *id,
            ),
            Statement::DeleteTag(id) => one_number("DELETE FROM blog.tags WHERE id = $1;", *id),
            Statement::InsertLink { article_id, tag_id } => two_numbers(
                "INSERT INTO blog.article_tag (article_id, tag_id) VALUES ($1, $2);",
                *article_id,
                *tag_id,
            ),
            Statement::DeleteLink { article_id, tag_id } => two_numbers(
                "DELETE FROM blog.article_tag WHERE article_id = $1 AND tag_id = $2;",
                *article_id,
                *tag_id,
            ),
            Statement::DeleteLinksOfArticle(id) => one_number(
                "DELETE FROM blog.article_tag WHERE article_id = $1;",
                *id,
            ),
            Statement::DeleteLinksOfTag(id) => one_number(
                "DELETE FROM blog.article_tag WHERE tag_id = $1;",
                *id,
            ),
            Statement::TagsOfArticle(id) => one_number(
                "SELECT tag_id FROM blog.article_tag WHERE article_id = $1;",
                *id,
            ),
            Statement::ArticlesOfTag(id) => one_number(
                "SELECT article_id FROM blog.article_tag WHERE tag_id = $1;",
                *id,
            ),
        }
    }
}

} // verus!
