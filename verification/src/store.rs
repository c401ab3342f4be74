//! The operations of the content store, as the statements to issue for each.
//!
//! An operation that needs an answer from the store before it can go on is
//! given in steps: each step takes what the store answered to the one before.
//! Nothing is issued for a request that is refused.

use vstd::prelude::*;
use crate::calendar::year_window;
use crate::error::BackendError;
use crate::model::{Article, ArticleState, Category, QueryArticle, QueryCategory, QueryTag, Tag, AS};
use crate::predicate::{
    article_clauses, article_predicate, category_predicate, name_clauses, tag_predicate,
    tagged_view, PredicateView, Table, YearWindow,
};
use crate::reconcile::{difference_of, distinct, distinct_of, reconcile};
use crate::sql::{copy_ids, is_year_long};
use crate::statement::{plan_view, Statement, StatementView};
use crate::summary::{stored_summary, stored_summary_of};
use crate::update::{article_changes, changes_of, state_is_known, supplies_nothing, ArticleFields};

verus! {

/// One statement per tag that links it to the article, in the order of the
/// list.
pub open spec fn insert_links(article_id: i32, tags: Seq<i32>) -> Seq<StatementView> {
    Seq::new(tags.len(), |i: int| StatementView::InsertLink { article_id, tag_id: tags[i] })
}

/// One statement per tag that removes its link to the article, in the order
/// of the list.
pub open spec fn delete_links(article_id: i32, tags: Seq<i32>) -> Seq<StatementView> {
    Seq::new(tags.len(), |i: int| StatementView::DeleteLink { article_id, tag_id: tags[i] })
}

/// The statement that reads the articles an article filter selects.
pub open spec fn select_articles_view(
    query: QueryArticle,
    tagged: Option<Seq<i32>>,
    window: Option<YearWindow>,
) -> StatementView {
    StatementView::SelectArticles(
        PredicateView { table: Table::Articles, clauses: article_clauses(query, tagged, window) },
    )
}

/// The fields of the row that creating `article` adds, where its state is
/// one that exists.
pub open spec fn created_fields(article: Article) -> ArticleFields {
    ArticleFields {
        title: article.title@,
        content: article.content@,
        summary: stored_summary_of(article.summary@, article.content@),
        state: ArticleState::of_code(article.state)->0,
        category_id: article.category_id,
    }
}

/// The statements that reconcile the links of an article: first one for each
/// tag that is desired and not stored, then one for each that is stored and
/// not desired.
pub open spec fn reconciling_links(
    article_id: i32,
    stored: Seq<i32>,
    desired: Seq<i32>,
) -> Seq<StatementView> {
    insert_links(article_id, difference_of(desired, stored)) + delete_links(
        article_id,
        difference_of(stored, desired),
    )
}

/// The statements that remove an article: its links first, then its row.
pub open spec fn deleting_article(id: i32) -> Seq<StatementView> {
    seq![StatementView::DeleteLinksOfArticle(id), StatementView::DeleteArticle(id)]
}

/// The statements that remove a tag: its links first, then its row.
pub open spec fn deleting_tag(id: i32) -> Seq<StatementView> {
    seq![StatementView::DeleteLinksOfTag(id), StatementView::DeleteTag(id)]
}

/// The statements that remove a category: its row only. Articles that
/// belong to it are left as they are.
pub open spec fn deleting_category(id: i32) -> Seq<StatementView> {
    seq![StatementView::DeleteCategory(id)]
}

fn link_statements(article_id: i32, tags: &Vec<i32>, plan: &mut Vec<Statement>, insert: bool)
    ensures
        plan_view(final(plan)@) == plan_view(old(plan)@) + (if insert {
            insert_links(article_id, tags@)
        } else {
            delete_links(article_id, tags@)
        }),
{
    let ghost start = plan_view(plan@);
    let mut i: usize = 0;
    while i < tags.len()
        invariant
            i <= tags.len(),
            plan_view(plan@) == start + (if insert {
                insert_links(article_id, tags@.take(i as int))
            } else {
                delete_links(article_id, tags@.take(i as int))
            }),
        decreases tags.len() - i,
    {
        let ghost held = plan@;
        let next = if insert {
            Statement::InsertLink { article_id, tag_id: tags[i] }
        } else {
            Statement::DeleteLink { article_id, tag_id: tags[i] }
        };
        plan.push(next);
        proof {
            assert(plan_view(plan@) =~= plan_view(held).push(next@));
        }
        i += 1;
    }
}

/// The lookup that a query for articles starts with where it names tags:
/// which articles are linked to all of them. A query that names no tag
/// needs none.
pub fn query_articles_lookup(query: &QueryArticle) -> (lookup: Option<Statement>)
    ensures
        query.tags_id@.len() == 0 ==> lookup is None,
        query.tags_id@.len() > 0 ==> lookup is Some && lookup->0@
            == StatementView::ArticlesWithAllTags(query.tags_id@),
{
    if query.tags_id.len() == 0 {
        None
    } else {
        Some(Statement::ArticlesWithAllTags(copy_ids(&query.tags_id)))
    }
}

/// The statement that reads the articles a filter selects. `tagged` holds
/// what the lookup by tags found, where one was made: those articles are
/// selected beside the ones asked for by id, and no others. `window` is the
/// span that the filter's year stands for, where it names one.
pub fn select_articles(
    query: QueryArticle,
    tagged: Option<Vec<i32>>,
    window: Option<YearWindow>,
) -> (statement: Statement)
    ensures
        statement@ == select_articles_view(query, tagged_view(tagged), window),
{
    let predicate = article_predicate(query, tagged, window);
    Statement::SelectArticles(predicate)
}

/// The statement that reads the articles a filter selects, after the lookup
/// by tags. Where the filter names a year, the span of 365 days for it is
/// found first, and the request is refused as invalid where there is none.
pub fn query_articles(
    query: QueryArticle,
    tagged: Option<Vec<i32>>,
) -> (res: Result<Statement, BackendError>)
    ensures
        match res {
            Ok(statement) => match query.created_year {
                None => statement@ == select_articles_view(query, tagged_view(tagged), None),
                Some(_) => exists|window: YearWindow|
                    is_year_long(window) && #[trigger] select_articles_view(
                        query,
                        tagged_view(tagged),
                        Some(window),
                    ) == statement@,
            },
            Err(error) => query.created_year is Some && error is InvalidRequest && error.detail()
                == "No year can be read from the instant given."@,
        },
{
    match query.created_year {
        None => Ok(select_articles(query, tagged, None)),
        Some(at) => match year_window(at) {
            Some(window) => {
                let statement = select_articles(query, tagged, Some(window));
                assert(is_year_long(window) && select_articles_view(
                    query,
                    tagged_view(tagged),
                    Some(window),
                ) == statement@);
                Ok(statement)
            },
            None => Err(BackendError::invalid("No year can be read from the instant given.")),
        },
    }
}

/// The statement that adds the row of a new article. The summary is the one
/// supplied, or is derived from the content where none is. A state that does
/// not exist is refused.
pub fn add_article(article: &Article) -> (res: Result<Statement, BackendError>)
    ensures
        match res {
            Ok(statement) => state_is_known(*article) && statement@ == StatementView::InsertArticle(
                created_fields(*article),
            ),
            Err(error) => !state_is_known(*article) && error is InvalidRequest && error.detail()
                == AS::refusal(article.state),
        },
{
    match AS::try_from(article.state) {
        Ok(state) => Ok(
            Statement::InsertArticle {
                title: article.title.clone(),
                content: article.content.clone(),
                summary: stored_summary(article.summary.as_str(), article.content.as_str()),
                state,
                category_id: article.category_id,
            },
        ),
        Err(msg) => Err(BackendError::InvalidRequest(msg)),
    }
}

/// The statements that link a new article, once the store has given it an
/// id, to each of its tags once. An article without tags gets no link.
pub fn add_article_links(article_id: i32, tags: &Vec<i32>) -> (plan: Vec<Statement>)
    ensures
        plan_view(plan@) == insert_links(article_id, distinct_of(tags@)),
{
    let each_once = distinct(tags);
    let mut plan: Vec<Statement> = Vec::new();
    link_statements(article_id, &each_once, &mut plan, true);
    plan
}

/// The statement that writes the supplied fields of an article. A request
/// that supplies none is refused, and so is one whose state does not exist.
pub fn edit_article(article: &Article) -> (res: Result<Statement, BackendError>)
    ensures
        match res {
            Ok(statement) => {
                &&& !supplies_nothing(*article)
                &&& state_is_known(*article)
                &&& statement@ == StatementView::UpdateArticle {
                    id: article.id,
                    changes: changes_of(*article),
                }
            },
            Err(error) => {
                &&& error is InvalidRequest
                &&& supplies_nothing(*article) || !state_is_known(*article)
                &&& supplies_nothing(*article) ==> error.detail()
                    == "Empty update article request."@
                &&& !supplies_nothing(*article) ==> error.detail() == "No such state"@
            },
        },
{
    match article_changes(article) {
        Ok(changes) => Ok(Statement::UpdateArticle { id: article.id, changes }),
        Err(error) => Err(error),
    }
}

/// The statements that bring the links of an updated article from the tags
/// stored for it to the tags desired: insertions first, then deletions.
pub fn edit_article_links(
    article_id: i32,
    old_tags: &Vec<i32>,
    new_tags: &Vec<i32>,
) -> (plan: Vec<Statement>)
    ensures
        plan_view(plan@) == reconciling_links(article_id, old_tags@, new_tags@),
{
    let changes = reconcile(old_tags, new_tags);
    let mut plan: Vec<Statement> = Vec::new();
    link_statements(article_id, &changes.to_insert, &mut plan, true);
    link_statements(article_id, &changes.to_delete, &mut plan, false);
    plan
}

/// The statements that remove an article: its links, then its row.
pub fn delete_article(id: i32) -> (plan: Vec<Statement>)
    ensures
        plan_view(plan@) == deleting_article(id),
{
    let mut plan: Vec<Statement> = Vec::new();
    plan.push(Statement::DeleteLinksOfArticle(id));
    plan.push(Statement::DeleteArticle(id));
    plan
}

/// The statement that reads the categories a filter selects.
pub fn query_categories(query: QueryCategory) -> (statement: Statement)
    ensures
        statement@ == StatementView::SelectCategories(
            PredicateView {
                table: Table::Categories,
                clauses: name_clauses(query.ids@, query.name@),
            },
        ),
{
    let predicate = category_predicate(query);
    Statement::SelectCategories(predicate)
}

/// The statement that adds a category.
pub fn add_category(category: Category) -> (statement: Statement)
    ensures
        statement@ == StatementView::InsertCategory(category.name@),
{
    Statement::InsertCategory(category.name)
}

/// The statement that renames a category.
pub fn edit_category(category: Category) -> (statement: Statement)
    ensures
        statement@ == (StatementView::UpdateCategory { id: category.id, name: category.name@ }),
{
    Statement::UpdateCategory { id: category.id, name: category.name }
}

/// The statements that remove a category: its row only.
pub fn delete_category(id: i32) -> (plan: Vec<Statement>)
    ensures
        plan_view(plan@) == deleting_category(id),
{
    let mut plan: Vec<Statement> = Vec::new();
    plan.push(Statement::DeleteCategory(id));
    plan
}

/// The statement that reads the tags a filter selects.
pub fn query_tags(query: QueryTag) -> (statement: Statement)
    ensures
        statement@ == StatementView::SelectTags(
            PredicateView { table: Table::Tags, clauses: name_clauses(query.ids@, query.name@) },
        ),
{
    let predicate = tag_predicate(query);
    Statement::SelectTags(predicate)
}

/// The statement that adds a tag.
pub fn add_tag(tag: Tag) -> (statement: Statement)
    ensures
        statement@ == StatementView::InsertTag(tag.name@),
{
    Statement::InsertTag(tag.name)
}

/// The statement that renames a tag.
pub fn edit_tag(tag: Tag) -> (statement: Statement)
    ensures
        statement@ == (StatementView::UpdateTag { id: tag.id, name: tag.name@ }),
{
    Statement::UpdateTag { id: tag.id, name: tag.name }
}

/// The statements that remove a tag: its links, then its row.
pub fn delete_tag(id: i32) -> (plan: Vec<Statement>)
    ensures
        plan_view(plan@) == deleting_tag(id),
{
    let mut plan: Vec<Statement> = Vec::new();
    plan.push(Statement::DeleteLinksOfTag(id));
    plan.push(Statement::DeleteTag(id));
    plan
}

/// The statement that reads the ids of the articles linked to a tag.
pub fn tag_to_articles(tag_id: i32) -> (statement: Statement)
    ensures
        statement@ == StatementView::ArticlesOfTag(tag_id),
{
    Statement::ArticlesOfTag(tag_id)
}

/// The statement that reads the ids of the tags linked to an article. An
/// article without tags has none: no id stands in for "no tag".
pub fn article_to_tags(article_id: i32) -> (statement: Statement)
    ensures
        statement@ == StatementView::TagsOfArticle(article_id),
{
    Statement::TagsOfArticle(article_id)
}

} // verus!
