//! Content storage and query building for a small blog platform.
//!
//! The crate turns structured requests about articles, categories and tags
//! into parameterised relational statements, and states what those statements
//! mean over a mathematical model of the tables.

pub mod text;
pub mod model;
pub mod summary;
pub mod reconcile;
pub mod predicate;
pub mod error;
pub mod calendar;
pub mod sql;
pub mod update;
pub mod statement;
pub mod store;
pub mod effects;
pub mod session;
pub mod service;
pub mod forms;

pub use error::BackendError;
pub use model::{
    articles_states, Article, ArticleState, Category, QueryArticle, QueryCategory, QueryTag, Tag,
    Timestamp, AS, ID,
};
pub use sql::ToSql;
pub use summary::get_summary;
