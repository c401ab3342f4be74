//! An operation of the content store as a dialogue: the library says which
//! statement to issue, the caller issues it and hands back what the store
//! replied, until the operation is done or has failed.

use vstd::prelude::*;
use vstd::string::StringExecFns;
use crate::error::BackendError;
use crate::model::{Article, Category, QueryArticle, QueryCategory, QueryTag, Tag, AS, ID};
use crate::predicate::{name_clauses, tagged_view, PredicateView, Table, YearWindow};
use crate::sql::is_year_long;
use crate::reconcile::distinct_of;
use crate::statement::{plan_view, Statement, StatementView};
use crate::store::{
    add_article, add_article_links, add_category, add_tag, article_to_tags, created_fields,
    delete_article, delete_category, delete_tag, deleting_article, deleting_category,
    deleting_tag, edit_article, edit_article_links, edit_category, edit_tag, insert_links,
    query_articles, query_articles_lookup, query_categories, query_tags, reconciling_links,
    select_articles_view, tag_to_articles,
};
use crate::update::{changes_of, state_is_known, supplies_nothing};

verus! {

/// An operation of the content store with what it is asked to work on.
#[derive(Clone, Debug, PartialEq, Eq)]
pub enum Operation {
    QueryArticles(QueryArticle),
    AddArticle(Article),
    EditArticle(Article),
    DeleteArticle(ID),
    QueryCategories(QueryCategory),
    AddCategory(Category),
    EditCategory(Category),
    DeleteCategory(ID),
    QueryTags(QueryTag),
    AddTag(Tag),
    EditTag(Tag),
    DeleteTag(ID),
    TagToArticles(ID),
    ArticleToTags(ID),
}

impl Operation {
    /// Whether the operation writes with more than one statement. Such
    /// statements belong in one transaction: all of them take effect, or
    /// none does.
    pub open spec fn is_compound(self) -> bool {
        match self {
            Operation::AddArticle(_) => true,
            Operation::EditArticle(_) => true,
            Operation::DeleteArticle(_) => true,
            Operation::DeleteTag(_) => true,
            _ => false,
        }
    }

    /// Whether the statements of the operation are to be issued inside one
    /// transaction.
    pub fn needs_transaction(&self) -> (needed: bool)
        ensures
            needed == self.is_compound(),
    {
        match self {
            Operation::AddArticle(_) => true,
            Operation::EditArticle(_) => true,
            Operation::DeleteArticle(_) => true,
            Operation::DeleteTag(_) => true,
            _ => false,
        }
    }
}

/// What an operation gives back when it is done.
#[derive(Clone, Debug, PartialEq, Eq)]
pub enum Outcome {
    Articles(Vec<Article>),
    Categories(Vec<Category>),
    Tags(Vec<Tag>),
    /// The id of the row that was added or written.
    Id(ID),
    /// The ids on the other side of the links that were looked up.
    Ids(Vec<ID>),
    /// The id whose row and links are gone, whether or not there were any.
    Removed(ID),
}

/// What the store replied to a statement.
#[derive(Clone, Debug, PartialEq, Eq)]
pub enum Reply {
    Articles(Vec<Article>),
    Categories(Vec<Category>),
    Tags(Vec<Tag>),
    /// The one id that the statement read.
    Id(ID),
    /// The ids that the statement read, one per row.
    Ids(Vec<ID>),
    /// The statement succeeded and read nothing.
    Done,
    /// The statement failed; the store's message.
    Failed(String),
}

/// Where an operation stands while a statement is with the store.
#[derive(Clone, Debug, PartialEq, Eq)]
pub enum Stage {
    /// The lookup by tags of this query is out.
    Tagged(QueryArticle),
    /// A selection over this table is out.
    Rows(Table),
    /// The row of a new article is out; these are its tags.
    Created(Vec<ID>),
    /// The update of an article's row is out; these are its desired tags.
    Updated(Vec<ID>),
    /// The lookup of the tags stored for this article is out; the list
    /// holds its desired tags.
    Stored(ID, Vec<ID>),
    /// A statement that reads nothing is out; these follow it, and then the
    /// operation is done with this outcome.
    Pending(Vec<Statement>, Outcome),
    /// A statement that reads the id of the row it wrote is out.
    Assigned,
    /// A lookup of ids is out.
    Listed,
}

impl Stage {
    /// How many kinds of reply the operation may still have to wait for,
    /// this one included.
    pub open spec fn phase(self) -> nat {
        match self {
            Stage::Updated(_) => 3,
            Stage::Tagged(_) => 2,
            Stage::Created(_) => 2,
            Stage::Stored(_, _) => 2,
            _ => 1,
        }
    }

    /// How many statements are kept to be issued after the one that is out.
    pub open spec fn backlog(self) -> nat {
        match self {
            Stage::Pending(rest, _) => rest@.len(),
            _ => 0,
        }
    }

    /// Whether `next` is nearer to the end of the operation than this stage:
    /// it is in an earlier phase, or in the same with fewer statements kept.
    pub open spec fn is_followed_by(self, next: Stage) -> bool {
        next.phase() < self.phase() || (next.phase() == self.phase() && next.backlog()
            < self.backlog())
    }
}

/// What is to happen next in an operation.
#[derive(Clone, Debug, PartialEq, Eq)]
pub enum Step {
    /// Issue this statement, then resume at this stage with the reply.
    Issue(Statement, Stage),
    /// The operation is done.
    Done(Outcome),
    /// The operation has failed. Nothing more is issued.
    Failed(BackendError),
}

/// Whether `step` is the selection of the articles of `query`, given what a
/// lookup by tags found, or the refusal of a year that cannot be read.
pub open spec fn selects_articles(query: QueryArticle, tagged: Option<Seq<i32>>, step: Step) -> bool {
    match step {
        Step::Issue(statement, stage) => {
            &&& stage == Stage::Rows(Table::Articles)
            &&& match query.created_year {
                None => statement@ == select_articles_view(query, tagged, None),
                Some(_) => exists|window: YearWindow|
                    is_year_long(window) && #[trigger] select_articles_view(
                        query,
                        tagged,
                        Some(window),
                    ) == statement@,
            }
        },
        Step::Failed(error) => {
            &&& query.created_year is Some
            &&& error is InvalidRequest
            &&& error.detail() == "No year can be read from the instant given."@
        },
        Step::Done(_) => false,
    }
}

/// Whether `step` carries on with the statements of `plan`, to end with
/// `outcome`: it issues the first and keeps the others, or is done where
/// there is none.
pub open spec fn carries_on(plan: Seq<StatementView>, outcome: Outcome, step: Step) -> bool {
    if plan.len() == 0 {
        step == Step::Done(outcome)
    } else {
        match step {
            Step::Issue(statement, Stage::Pending(rest, then)) => {
                &&& statement@ == plan[0]
                &&& plan_view(rest@) == plan.drop_first()
                &&& then == outcome
            },
            _ => false,
        }
    }
}

/// Whether `step` issues exactly `statement` and waits at `stage`.
pub open spec fn issues(statement: StatementView, stage: Stage, step: Step) -> bool {
    match step {
        Step::Issue(issued, at) => issued@ == statement && at == stage,
        _ => false,
    }
}

/// Whether `step` is the first step of `operation`.
pub open spec fn begins(operation: Operation, step: Step) -> bool {
    match operation {
        Operation::QueryArticles(query) => if query.tags_id@.len() > 0 {
            issues(StatementView::ArticlesWithAllTags(query.tags_id@), Stage::Tagged(query), step)
        } else {
            selects_articles(query, None, step)
        },
        Operation::AddArticle(article) => if state_is_known(article) {
            match step {
                Step::Issue(statement, Stage::Created(tags)) => statement@
                    == StatementView::InsertArticle(created_fields(article)) && tags
                    == article.tags_id,
                _ => false,
            }
        } else {
            step is Failed && step->Failed_0 is InvalidRequest && step->Failed_0.detail()
                == AS::refusal(article.state)
        },
        Operation::EditArticle(article) => if supplies_nothing(article) {
            step is Failed && step->Failed_0 is InvalidRequest && step->Failed_0.detail()
                == "Empty update article request."@
        } else if !state_is_known(article) {
            step is Failed && step->Failed_0 is InvalidRequest && step->Failed_0.detail()
                == "No such state"@
        } else {
            match step {
                Step::Issue(statement, Stage::Updated(tags)) => statement@
                    == (StatementView::UpdateArticle {
                    id: article.id,
                    changes: changes_of(article),
                }) && tags == article.tags_id,
                _ => false,
            }
        },
        Operation::DeleteArticle(id) => carries_on(deleting_article(id), Outcome::Removed(id), step),
        Operation::QueryCategories(query) => issues(
            StatementView::SelectCategories(
                PredicateView {
                    table: Table::Categories,
                    clauses: name_clauses(query.ids@, query.name@),
                },
            ),
            Stage::Rows(Table::Categories),
            step,
        ),
        Operation::AddCategory(category) => issues(
            StatementView::InsertCategory(category.name@),
            Stage::Assigned,
            step,
        ),
        Operation::EditCategory(category) => issues(
            StatementView::UpdateCategory { id: category.id, name: category.name@ },
            Stage::Assigned,
            step,
        ),
        Operation::DeleteCategory(id) => carries_on(
            deleting_category(id),
            Outcome::Removed(id),
            step,
        ),
        Operation::QueryTags(query) => issues(
            StatementView::SelectTags(
                PredicateView { table: Table::Tags, clauses: name_clauses(query.ids@, query.name@) },
            ),
            Stage::Rows(Table::Tags),
            step,
        ),
        Operation::AddTag(tag) => issues(StatementView::InsertTag(tag.name@), Stage::Assigned, step),
        Operation::EditTag(tag) => issues(
            StatementView::UpdateTag { id: tag.id, name: tag.name@ },
            Stage::Assigned,
            step,
        ),
        Operation::DeleteTag(id) => carries_on(deleting_tag(id), Outcome::Removed(id), step),
        Operation::TagToArticles(id) => issues(StatementView::ArticlesOfTag(id), Stage::Listed, step),
        Operation::ArticleToTags(id) => issues(StatementView::TagsOfArticle(id), Stage::Listed, step),
    }
}

/// Whether `step` is what follows at `stage` on `reply`.
pub open spec fn follows(stage: Stage, reply: Reply, step: Step) -> bool {
    match (stage, reply) {
        (_, Reply::Failed(message)) => step is Failed && step->Failed_0 is StorageError
            && step->Failed_0.detail() == message@,
        (Stage::Tagged(query), Reply::Ids(found)) => selects_articles(query, Some(found@), step),
        (Stage::Rows(Table::Articles), Reply::Articles(rows)) => step == Step::Done(
            Outcome::Articles(rows),
        ),
        (Stage::Rows(Table::Categories), Reply::Categories(rows)) => step == Step::Done(
            Outcome::Categories(rows),
        ),
        (Stage::Rows(Table::Tags), Reply::Tags(rows)) => step == Step::Done(Outcome::Tags(rows)),
        (Stage::Created(tags), Reply::Id(id)) => carries_on(
            insert_links(id, distinct_of(tags@)),
            Outcome::Id(id),
            step,
        ),
        (Stage::Updated(tags), Reply::Id(id)) => issues(
            StatementView::TagsOfArticle(id),
            Stage::Stored(id, tags),
            step,
        ),
        (Stage::Stored(id, tags), Reply::Ids(stored)) => carries_on(
            reconciling_links(id, stored@, tags@),
            Outcome::Id(id),
            step,
        ),
        (Stage::Pending(rest, outcome), Reply::Done) => carries_on(plan_view(rest@), outcome, step),
        (Stage::Assigned, Reply::Id(id)) => step == Step::Done(Outcome::Id(id)),
        (Stage::Listed, Reply::Ids(ids)) => step == Step::Done(Outcome::Ids(ids)),
        _ => step is Failed && step->Failed_0 is StorageError && step->Failed_0.detail()
            == "The store gave a reply of an unexpected kind."@,
    }
}

fn carry_on(plan: Vec<Statement>, outcome: Outcome) -> (step: Step)
    ensures
        carries_on(plan_view(plan@), outcome, step),
        step is Issue ==> step->Issue_1.phase() == 1 && step->Issue_1.backlog() + 1 == plan@.len(),
{
    let mut rest = plan;
    if rest.len() == 0 {
        Step::Done(outcome)
    } else {
        let ghost whole = rest@;
        let first = rest.remove(0);
        assert(plan_view(rest@) =~= plan_view(whole).drop_first());
        Step::Issue(first, Stage::Pending(rest, outcome))
    }
}

fn select(query: QueryArticle, tagged: Option<Vec<i32>>) -> (step: Step)
    ensures
        selects_articles(query, tagged_view(tagged), step),
        step is Issue ==> step->Issue_1.phase() == 1 && step->Issue_1.backlog() == 0,
{
    match query_articles(query, tagged) {
        Ok(statement) => Step::Issue(statement, Stage::Rows(Table::Articles)),
        Err(error) => Step::Failed(error),
    }
}

fn unexpected() -> (step: Step)
    ensures
        step is Failed && step->Failed_0 is StorageError && step->Failed_0.detail()
            == "The store gave a reply of an unexpected kind."@,
{
    Step::Failed(
        BackendError::StorageError(String::from_str("The store gave a reply of an unexpected kind.")),
    )
}

/// The first step of an operation: the first statement to issue, or the
/// refusal of a request that is invalid. A refused request issues nothing,
/// so it leaves the store as it is.
pub fn begin(operation: Operation) -> (step: Step)
    ensures
        begins(operation, step),
{
    match operation {
        Operation::QueryArticles(query) => match query_articles_lookup(&query) {
            Some(lookup) => Step::Issue(lookup, Stage::Tagged(query)),
            None => select(query, None),
        },
        Operation::AddArticle(article) => match add_article(&article) {
            Ok(statement) => Step::Issue(statement, Stage::Created(article.tags_id)),
            Err(error) => Step::Failed(error),
        },
        Operation::EditArticle(article) => match edit_article(&article) {
            Ok(statement) => Step::Issue(statement, Stage::Updated(article.tags_id)),
            Err(error) => Step::Failed(error),
        },
        Operation::DeleteArticle(id) => carry_on(delete_article(id), Outcome::Removed(id)),
        Operation::QueryCategories(query) => Step::Issue(
            query_categories(query),
            Stage::Rows(Table::Categories),
        ),
        Operation::AddCategory(category) => Step::Issue(add_category(category), Stage::Assigned),
        Operation::EditCategory(category) => Step::Issue(edit_category(category), Stage::Assigned),
        Operation::DeleteCategory(id) => carry_on(delete_category(id), Outcome::Removed(id)),
        Operation::QueryTags(query) => Step::Issue(query_tags(query), Stage::Rows(Table::Tags)),
        Operation::AddTag(tag) => Step::Issue(add_tag(tag), Stage::Assigned),
        Operation::EditTag(tag) => Step::Issue(edit_tag(tag), Stage::Assigned),
        Operation::DeleteTag(id) => carry_on(delete_tag(id), Outcome::Removed(id)),
        Operation::TagToArticles(id) => Step::Issue(tag_to_articles(id), Stage::Listed),
        Operation::ArticleToTags(id) => Step::Issue(article_to_tags(id), Stage::Listed),
    }
}

/// The step that follows at `stage` once the store has replied. A failure
/// of the store ends the operation with a storage error that carries the
/// store's message; so does a reply of a kind that the stage does not wait
/// for. Where another statement is issued, the operation is nearer to its
/// end than before, so every operation ends after finitely many replies.
pub fn resume(stage: Stage, reply: Reply) -> (step: Step)
    ensures
        follows(stage, reply, step),
        step is Issue ==> stage.is_followed_by(step->Issue_1),
{
    match (stage, reply) {
        (_, Reply::Failed(message)) => Step::Failed(BackendError::StorageError(message)),
        (Stage::Tagged(query), Reply::Ids(found)) => select(query, Some(found)),
        (Stage::Rows(Table::Articles), Reply::Articles(rows)) => Step::Done(Outcome::Articles(rows)),
        (Stage::Rows(Table::Categories), Reply::Categories(rows)) => Step::Done(
            Outcome::Categories(rows),
        ),
        (Stage::Rows(Table::Tags), Reply::Tags(rows)) => Step::Done(Outcome::Tags(rows)),
        (Stage::Created(tags), Reply::Id(id)) => carry_on(
            add_article_links(id, &tags),
            Outcome::Id(id),
        ),
        (Stage::Updated(tags), Reply::Id(id)) => Step::Issue(
            article_to_tags(id),
            Stage::Stored(id, tags),
        ),
        (Stage::Stored(id, tags), Reply::Ids(stored)) => carry_on(
            edit_article_links(id, &stored, &tags),
            Outcome::Id(id),
        ),
        (Stage::Pending(rest, outcome), Reply::Done) => carry_on(rest, outcome),
        (Stage::Assigned, Reply::Id(id)) => Step::Done(Outcome::Id(id)),
        (Stage::Listed, Reply::Ids(ids)) => Step::Done(Outcome::Ids(ids)),
        _ => unexpected(),
    }
}

} // verus!
