//! The records of the blog and the filters that select them.

use vstd::prelude::*;
use vstd::string::StringExecFns;
use crate::text::{signed_decimal, signed_text};

verus! {

/// A surrogate key. Zero stands for "not assigned yet".
pub type ID = i32;

/// An instant: whole seconds since 1970-01-01T00:00:00Z and the nanoseconds
/// that follow them.
#[derive(Clone, Copy, Debug, PartialEq, Eq)]
pub struct Timestamp {
    pub seconds: i64,
    pub nanos: i32,
}

/// The publication state of an article as requests carry it.
#[derive(Clone, Copy, Debug, PartialEq, Eq)]
pub enum ArticleState {
    Unspecified,
    Published,
    Hidden,
}

/// The publication state of an article as the store keeps it, under the
/// lower-case labels `all`, `published` and `hidden`.
#[derive(Clone, Copy, Debug, PartialEq, Eq)]
pub enum AS {
    All,
    Published,
    Hidden,
}

impl ArticleState {
    /// The number that stands for the state in a request.
    pub open spec fn code(self) -> i32 {
        match self {
            ArticleState::Unspecified => 0,
            ArticleState::Published => 1,
            ArticleState::Hidden => 2,
        }
    }

    /// The state that `value` stands for, if any.
    pub open spec fn of_code(value: i32) -> Option<ArticleState> {
        if value == 0 {
            Some(ArticleState::Unspecified)
        } else if value == 1 {
            Some(ArticleState::Published)
        } else if value == 2 {
            Some(ArticleState::Hidden)
        } else {
            None
        }
    }

    /// The upper-case name of the state.
    pub open spec fn name(self) -> Seq<char> {
        match self {
            ArticleState::Unspecified => "UNSPECIFIED"@,
            ArticleState::Published => "PUBLISHED"@,
            ArticleState::Hidden => "HIDDEN"@,
        }
    }

    /// The label under which the store keeps the state.
    pub open spec fn label(self) -> Seq<char> {
        match self {
            ArticleState::Unspecified => "all"@,
            ArticleState::Published => "published"@,
            ArticleState::Hidden => "hidden"@,
        }
    }

    pub fn number(self) -> (n: i32)
        ensures
            n == self.code(),
    {
        match self {
            ArticleState::Unspecified => 0,
            ArticleState::Published => 1,
            ArticleState::Hidden => 2,
        }
    }

    /// Reads a state from its number; any number but 0, 1 and 2 is refused.
    pub fn try_from(value: i32) -> (res: Result<ArticleState, String>)
        ensures
            match res {
                Ok(state) => ArticleState::of_code(value) == Some(state),
                Err(msg) => ArticleState::of_code(value) is None && msg@ == "No such state"@,
            },
    {
        if value == 0 {
            Ok(ArticleState::Unspecified)
        } else if value == 1 {
            Ok(ArticleState::Published)
        } else if value == 2 {
            Ok(ArticleState::Hidden)
        } else {
            Err(String::from_str("No such state"))
        }
    }

    pub fn as_str_name(self) -> (s: &'static str)
        ensures
            s@ == self.name(),
    {
        match self {
            ArticleState::Unspecified => "UNSPECIFIED",
            ArticleState::Published => "PUBLISHED",
            ArticleState::Hidden => "HIDDEN",
        }
    }

    pub fn stored_label(self) -> (s: &'static str)
        ensures
            s@ == self.label(),
    {
        match self {
            ArticleState::Unspecified => "all",
            ArticleState::Published => "published",
            ArticleState::Hidden => "hidden",
        }
    }

    /// The request-side state that a stored state corresponds to.
    pub open spec fn of_stored(value: AS) -> ArticleState {
        match value {
            AS::All => ArticleState::Unspecified,
            AS::Published => ArticleState::Published,
            AS::Hidden => ArticleState::Hidden,
        }
    }
}

impl From<AS> for ArticleState {
    fn from(value: AS) -> (state: ArticleState) {
        match value {
            AS::All => ArticleState::Unspecified,
            AS::Published => ArticleState::Published,
            AS::Hidden => ArticleState::Hidden,
        }
    }
}

impl vstd::std_specs::convert::FromSpecImpl<AS> for ArticleState {
    open spec fn obeys_from_spec() -> bool {
        true
    }

    open spec fn from_spec(value: AS) -> ArticleState {
        ArticleState::of_stored(value)
    }
}

impl AS {
    /// The number that stands for the stored state in a request.
    pub open spec fn code(self) -> i32 {
        ArticleState::of_stored(self).code()
    }

    /// The stored state that `value` stands for, if any.
    pub open spec fn of_code(value: i32) -> Option<AS> {
        if value == 0 {
            Some(AS::All)
        } else if value == 1 {
            Some(AS::Published)
        } else if value == 2 {
            Some(AS::Hidden)
        } else {
            None
        }
    }

    /// The message that refuses `value` as a stored state.
    pub open spec fn refusal(value: i32) -> Seq<char> {
        "AS: "@ + signed_text(value as int) + " not implement"@
    }

    pub fn number(self) -> (n: i32)
        ensures
            n == self.code(),
    {
        match self {
            AS::All => 0,
            AS::Published => 1,
            AS::Hidden => 2,
        }
    }

    /// Reads a stored state from its number; any number but 0, 1 and 2 is
    /// refused with a message that quotes it.
    pub fn try_from(value: i32) -> (res: Result<AS, String>)
        ensures
            match res {
                Ok(state) => AS::of_code(value) == Some(state),
                Err(msg) => AS::of_code(value) is None && msg@ == AS::refusal(value),
            },
    {
        if value == 0 {
            Ok(AS::All)
        } else if value == 1 {
            Ok(AS::Published)
        } else if value == 2 {
            Ok(AS::Hidden)
        } else {
            let mut msg = String::from_str("AS: ");
            let number = signed_decimal(value);
            msg.append(number.as_str());
            msg.append(" not implement");
            Err(msg)
        }
    }
}

/// An article. As a request to create or update, an empty text field or a
/// zero number means that the field is not supplied.
#[derive(Clone, Debug, PartialEq, Eq)]
pub struct Article {
    pub id: ID,
    pub title: String,
    pub content: String,
    pub summary: String,
    pub state: i32,
    pub created_at: Option<Timestamp>,
    pub updated_at: Option<Timestamp>,
    pub category_id: ID,
    pub tags_id: Vec<ID>,
}

#[derive(Clone, Debug, PartialEq, Eq)]
pub struct Category {
    pub id: ID,
    pub name: String,
}

#[derive(Clone, Debug, PartialEq, Eq)]
pub struct Tag {
    pub id: ID,
    pub name: String,
}

/// A filter over articles. An empty list, an empty text, an absent instant
/// or a zero number puts no condition on its column.
#[derive(Clone, Debug, PartialEq, Eq)]
pub struct QueryArticle {
    pub ids: Vec<ID>,
    pub title: String,
    pub state: i32,
    pub created_year: Option<Timestamp>,
    pub category_id: ID,
    pub tags_id: Vec<ID>,
}

/// A filter over categories.
#[derive(Clone, Debug, PartialEq, Eq)]
pub struct QueryCategory {
    pub ids: Vec<ID>,
    pub name: String,
}

/// A filter over tags.
#[derive(Clone, Debug, PartialEq, Eq)]
pub struct QueryTag {
    pub ids: Vec<ID>,
    pub name: String,
}

impl Default for Article {
    fn default() -> (article: Article)
        ensures
            article.id == 0,
            article.title@.len() == 0,
            article.content@.len() == 0,
            article.summary@.len() == 0,
            article.state == 0,
            article.created_at is None,
            article.updated_at is None,
            article.category_id == 0,
            article.tags_id@.len() == 0,
    {
        Article {
            id: 0,
            title: String::new(),
            content: String::new(),
            summary: String::new(),
            state: 0,
            created_at: None,
            updated_at: None,
            category_id: 0,
            tags_id: Vec::new(),
        }
    }
}

impl Default for Category {
    fn default() -> (category: Category)
        ensures
            category.id == 0,
            category.name@.len() == 0,
    {
        Category { id: 0, name: String::new() }
    }
}

impl Default for Tag {
    fn default() -> (tag: Tag)
        ensures
            tag.id == 0,
            tag.name@.len() == 0,
    {
        Tag { id: 0, name: String::new() }
    }
}

impl QueryArticle {
    /// Whether the filter puts no condition on any column.
    pub open spec fn is_blank(self) -> bool {
        &&& self.ids@.len() == 0
        &&& self.title@.len() == 0
        &&& self.state == 0
        &&& self.created_year is None
        &&& self.category_id == 0
        &&& self.tags_id@.len() == 0
    }
}

impl Default for QueryArticle {
    fn default() -> (query: QueryArticle)
        ensures
            query.is_blank(),
    {
        QueryArticle {
            ids: Vec::new(),
            title: String::new(),
            state: 0,
            created_year: None,
            category_id: 0,
            tags_id: Vec::new(),
        }
    }
}

impl QueryCategory {
    /// Whether the filter puts no condition on any column.
    pub open spec fn is_blank(self) -> bool {
        self.ids@.len() == 0 && self.name@.len() == 0
    }
}

impl Default for QueryCategory {
    fn default() -> (query: QueryCategory)
        ensures
            query.is_blank(),
    {
        QueryCategory { ids: Vec::new(), name: String::new() }
    }
}

impl QueryTag {
    /// Whether the filter puts no condition on any column.
    pub open spec fn is_blank(self) -> bool {
        self.ids@.len() == 0 && self.name@.len() == 0
    }
}

impl Default for QueryTag {
    fn default() -> (query: QueryTag)
        ensures
            query.is_blank(),
    {
        QueryTag { ids: Vec::new(), name: String::new() }
    }
}

/// An article as a row of the store hands it out, with the ids of its tags.
#[derive(Clone, Debug, PartialEq, Eq)]
pub struct ArticleRow {
    pub id: ID,
    pub title: String,
    pub content: String,
    pub summary: String,
    pub state: AS,
    pub category_id: ID,
    pub created_at: Timestamp,
    pub updated_at: Timestamp,
    pub tag_ids: Vec<ID>,
}

impl Article {
    /// The article that a row of the store stands for: every column is
    /// carried over, the state as its number, and the tags are those of the
    /// row, none added.
    pub fn from_row(row: ArticleRow) -> (article: Article)
        ensures
            article.id == row.id,
            article.title@ == row.title@,
            article.content@ == row.content@,
            article.summary@ == row.summary@,
            article.state == row.state.code(),
            article.created_at == Some(row.created_at),
            article.updated_at == Some(row.updated_at),
            article.category_id == row.category_id,
            article.tags_id@ == row.tag_ids@,
    {
        let state: ArticleState = ArticleState::from(row.state);
        Article {
            id: row.id,
            title: row.title,
            content: row.content,
            summary: row.summary,
            state: state.number(),
            created_at: Some(row.created_at),
            updated_at: Some(row.updated_at),
            category_id: row.category_id,
            tags_id: row.tag_ids,
        }
    }
}

/// The names of the states an article can be put in, in menu order.
pub fn articles_states() -> (names: Vec<&'static str>)
    ensures
        names@.len() == 2,
        names@[0]@ == ArticleState::Published.name(),
        names@[1]@ == ArticleState::Hidden.name(),
{
    let mut names: Vec<&'static str> = Vec::new();
    names.push(ArticleState::Published.as_str_name());
    names.push(ArticleState::Hidden.as_str_name());
    names
}

} // verus!
