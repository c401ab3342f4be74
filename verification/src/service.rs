//! The four verbs that remote callers use, and how each request becomes an
//! operation of the store and each outcome a response.

use vstd::prelude::*;
use vstd::string::StringExecFns;
use crate::error::BackendError;
use crate::model::{Article, Category, QueryArticle, QueryCategory, QueryTag, Tag, ID};
use crate::session::{Operation, Outcome};

verus! {

/// What a query asks for.
#[derive(Clone, Debug, PartialEq, Eq)]
pub enum Query {
    QueryArticle(QueryArticle),
    QueryCategory(QueryCategory),
    QueryTag(QueryTag),
}

/// What is to be created.
#[derive(Clone, Debug, PartialEq, Eq)]
pub enum Create {
    Article(Article),
    Category(Category),
    Tag(Tag),
}

/// What is to be updated.
#[derive(Clone, Debug, PartialEq, Eq)]
pub enum Update {
    Article(Article),
    Category(Category),
    Tag(Tag),
}

/// What is to be deleted.
#[derive(Clone, Copy, Debug, PartialEq, Eq)]
pub enum Delete {
    ArticleId(ID),
    CategoryId(ID),
    TagId(ID),
}

#[derive(Clone, Debug, PartialEq, Eq)]
pub struct QueryRequest {
    pub query: Option<Query>,
}

#[derive(Clone, Debug, PartialEq, Eq)]
pub struct CreateRequest {
    pub create: Option<Create>,
}

#[derive(Clone, Debug, PartialEq, Eq)]
pub struct UpdateRequest {
    pub update: Option<Update>,
}

#[derive(Clone, Copy, Debug, PartialEq, Eq)]
pub struct DeleteRequest {
    pub delete: Option<Delete>,
}

/// The answer to a query: the list for the kind that was asked for is
/// filled, the other two are empty.
#[derive(Clone, Debug, PartialEq, Eq)]
pub struct QueryResponse {
    pub articles: Vec<Article>,
    pub categories: Vec<Category>,
    pub tags: Vec<Tag>,
}

#[derive(Clone, Copy, Debug, PartialEq, Eq)]
pub struct CreateResponse {
    pub id: ID,
}

#[derive(Clone, Copy, Debug, PartialEq, Eq)]
pub struct UpdateResponse {
    pub id: ID,
}

#[derive(Clone, Copy, Debug, PartialEq, Eq)]
pub struct DeleteResponse {
    pub id: ID,
}

/// The reason given for a request that names nothing to work on.
pub open spec fn no_payload() -> Seq<char> {
    "The request carries no payload."@
}

/// The reason given where an operation ended with an outcome of another
/// kind than its verb answers with.
pub open spec fn wrong_outcome() -> Seq<char> {
    "The operation ended with an outcome of an unexpected kind."@
}

/// Whether `error` refuses a request for carrying no payload.
pub open spec fn refuses_empty(error: BackendError) -> bool {
    error is InvalidRequest && error.detail() == no_payload()
}

/// Whether `error` reports an outcome of an unexpected kind.
pub open spec fn reports_wrong_outcome(error: BackendError) -> bool {
    error is StorageError && error.detail() == wrong_outcome()
}

fn empty_request() -> (error: BackendError)
    ensures
        refuses_empty(error),
{
    BackendError::invalid("The request carries no payload.")
}

fn unexpected_outcome() -> (error: BackendError)
    ensures
        reports_wrong_outcome(error),
{
    BackendError::StorageError(
        String::from_str("The operation ended with an outcome of an unexpected kind."),
    )
}

impl QueryRequest {
    /// The operation that the request asks for. A request without a payload
    /// is refused as invalid.
    pub fn operation(self) -> (res: Result<Operation, BackendError>)
        ensures
            match self.query {
                Some(Query::QueryArticle(q)) => res == Ok::<Operation, BackendError>(
                    Operation::QueryArticles(q),
                ),
                Some(Query::QueryCategory(q)) => res == Ok::<Operation, BackendError>(
                    Operation::QueryCategories(q),
                ),
                Some(Query::QueryTag(q)) => res == Ok::<Operation, BackendError>(
                    Operation::QueryTags(q),
                ),
                None => res is Err && refuses_empty(res->Err_0),
            },
    {
        match self.query {
            Some(Query::QueryArticle(q)) => Ok(Operation::QueryArticles(q)),
            Some(Query::QueryCategory(q)) => Ok(Operation::QueryCategories(q)),
            Some(Query::QueryTag(q)) => Ok(Operation::QueryTags(q)),
            None => Err(empty_request()),
        }
    }
}

impl CreateRequest {
    /// The operation that the request asks for. A request without a payload
    /// is refused as invalid.
    pub fn operation(self) -> (res: Result<Operation, BackendError>)
        ensures
            match self.create {
                Some(Create::Article(a)) => res == Ok::<Operation, BackendError>(
                    Operation::AddArticle(a),
                ),
                Some(Create::Category(c)) => res == Ok::<Operation, BackendError>(
                    Operation::AddCategory(c),
                ),
                Some(Create::Tag(t)) => res == Ok::<Operation, BackendError>(Operation::AddTag(t)),
                None => res is Err && refuses_empty(res->Err_0),
            },
    {
        match self.create {
            Some(Create::Article(a)) => Ok(Operation::AddArticle(a)),
            Some(Create::Category(c)) => Ok(Operation::AddCategory(c)),
            Some(Create::Tag(t)) => Ok(Operation::AddTag(t)),
            None => Err(empty_request()),
        }
    }
}

impl UpdateRequest {
    /// The operation that the request asks for. A request without a payload
    /// is refused as invalid.
    pub fn operation(self) -> (res: Result<Operation, BackendError>)
        ensures
            match self.update {
                Some(Update::Article(a)) => res == Ok::<Operation, BackendError>(
                    Operation::EditArticle(a),
                ),
                Some(Update::Category(c)) => res == Ok::<Operation, BackendError>(
                    Operation::EditCategory(c),
                ),
                Some(Update::Tag(t)) => res == Ok::<Operation, BackendError>(Operation::EditTag(t)),
                None => res is Err && refuses_empty(res->Err_0),
            },
    {
        match self.update {
            Some(Update::Article(a)) => Ok(Operation::EditArticle(a)),
            Some(Update::Category(c)) => Ok(Operation::EditCategory(c)),
            Some(Update::Tag(t)) => Ok(Operation::EditTag(t)),
            None => Err(empty_request()),
        }
    }
}

impl DeleteRequest {
    /// The operation that the request asks for. A request without a payload
    /// is refused as invalid.
    pub fn operation(self) -> (res: Result<Operation, BackendError>)
        ensures
            match self.delete {
                Some(Delete::ArticleId(id)) => res == Ok::<Operation, BackendError>(
                    Operation::DeleteArticle(id),
                ),
                Some(Delete::CategoryId(id)) => res == Ok::<Operation, BackendError>(
                    Operation::DeleteCategory(id),
                ),
                Some(Delete::TagId(id)) => res == Ok::<Operation, BackendError>(
                    Operation::DeleteTag(id),
                ),
                None => res is Err && refuses_empty(res->Err_0),
            },
    {
        match self.delete {
            Some(Delete::ArticleId(id)) => Ok(Operation::DeleteArticle(id)),
            Some(Delete::CategoryId(id)) => Ok(Operation::DeleteCategory(id)),
            Some(Delete::TagId(id)) => Ok(Operation::DeleteTag(id)),
            None => Err(empty_request()),
        }
    }
}

impl Default for QueryResponse {
    fn default() -> (response: QueryResponse)
        ensures
            response.articles@.len() == 0,
            response.categories@.len() == 0,
            response.tags@.len() == 0,
    {
        QueryResponse { articles: Vec::new(), categories: Vec::new(), tags: Vec::new() }
    }
}

impl QueryResponse {
    /// The answer to a query whose operation ended with `outcome`: the rows
    /// read, in the list of their kind. An outcome that holds no rows is
    /// reported as a failure of the store.
    pub fn from_outcome(outcome: Outcome) -> (res: Result<QueryResponse, BackendError>)
        ensures
            match outcome {
                Outcome::Articles(rows) => res is Ok && res->Ok_0.articles == rows
                    && res->Ok_0.categories@.len() == 0 && res->Ok_0.tags@.len() == 0,
                Outcome::Categories(rows) => res is Ok && res->Ok_0.categories == rows
                    && res->Ok_0.articles@.len() == 0 && res->Ok_0.tags@.len() == 0,
                Outcome::Tags(rows) => res is Ok && res->Ok_0.tags == rows
                    && res->Ok_0.articles@.len() == 0 && res->Ok_0.categories@.len() == 0,
                _ => res is Err && reports_wrong_outcome(res->Err_0),
            },
    {
        match outcome {
            Outcome::Articles(rows) => Ok(
                QueryResponse { articles: rows, categories: Vec::new(), tags: Vec::new() },
            ),
            Outcome::Categories(rows) => Ok(
                QueryResponse { articles: Vec::new(), categories: rows, tags: Vec::new() },
            ),
            Outcome::Tags(rows) => Ok(
                QueryResponse { articles: Vec::new(), categories: Vec::new(), tags: rows },
            ),
            _ => Err(unexpected_outcome()),
        }
    }
}

impl CreateResponse {
    /// The answer to a creation whose operation ended with `outcome`: the
    /// id that the store assigned.
    pub fn from_outcome(outcome: Outcome) -> (res: Result<CreateResponse, BackendError>)
        ensures
            match outcome {
                Outcome::Id(id) => res == Ok::<CreateResponse, BackendError>(CreateResponse { id }),
                _ => res is Err && reports_wrong_outcome(res->Err_0),
            },
    {
        match outcome {
            Outcome::Id(id) => Ok(CreateResponse { id }),
            _ => Err(unexpected_outcome()),
        }
    }
}

impl UpdateResponse {
    /// The answer to an update whose operation ended with `outcome`: the id
    /// of the row written.
    pub fn from_outcome(outcome: Outcome) -> (res: Result<UpdateResponse, BackendError>)
        ensures
            match outcome {
                Outcome::Id(id) => res == Ok::<UpdateResponse, BackendError>(UpdateResponse { id }),
                _ => res is Err && reports_wrong_outcome(res->Err_0),
            },
    {
        match outcome {
            Outcome::Id(id) => Ok(UpdateResponse { id }),
            _ => Err(unexpected_outcome()),
        }
    }
}

impl DeleteResponse {
    /// The answer to a deletion whose operation ended with `outcome`: the
    /// id that was asked to go.
    pub fn from_outcome(outcome: Outcome) -> (res: Result<DeleteResponse, BackendError>)
        ensures
            match outcome {
                Outcome::Removed(id) => res == Ok::<DeleteResponse, BackendError>(
                    DeleteResponse { id },
                ),
                _ => res is Err && reports_wrong_outcome(res->Err_0),
            },
    {
        match outcome {
            Outcome::Removed(id) => Ok(DeleteResponse { id }),
            _ => Err(unexpected_outcome()),
        }
    }
}

} // verus!
