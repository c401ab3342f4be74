//! What the administrative pages submit, and the records made of it.

use vstd::prelude::*;
use crate::model::{Article, Category, Tag};

verus! {

/// The form for an article. `tags` holds tag names separated by commas.
#[derive(Clone, Debug, PartialEq, Eq)]
pub struct FormArticle {
    pub title: String,
    pub content: String,
    pub category_id: i32,
    pub summary: String,
    pub state: i32,
    pub tags: String,
}

/// The form for a category.
#[derive(Clone, Debug, PartialEq, Eq)]
pub struct FormCategory {
    pub name: String,
}

/// The form for a tag.
#[derive(Clone, Debug, PartialEq, Eq)]
pub struct FormTag {
    pub name: String,
}

impl FormArticle {
    /// The article that the form stands for, under the id given (zero for a
    /// new one) and with the tags that its tag names were resolved to. It
    /// carries no instants: those are the store's to assign.
    pub fn into_article(self, id: i32, tags_id: Vec<i32>) -> (article: Article)
        ensures
            article.id == id,
            article.title@ == self.title@,
            article.content@ == self.content@,
            article.summary@ == self.summary@,
            article.state == self.state,
            article.created_at is None,
            article.updated_at is None,
            article.category_id == self.category_id,
            article.tags_id@ == tags_id@,
    {
        Article {
            id,
            title: self.title,
            content: self.content,
            summary: self.summary,
            state: self.state,
            created_at: None,
            updated_at: None,
            category_id: self.category_id,
            tags_id,
        }
    }
}

impl FormCategory {
    /// The category that the form stands for, under the id given.
    pub fn into_category(self, id: i32) -> (category: Category)
        ensures
            category.id == id,
            category.name@ == self.name@,
    {
        Category { id, name: self.name }
    }
}

impl FormTag {
    /// The tag that the form stands for, under the id given.
    pub fn into_tag(self, id: i32) -> (tag: Tag)
        ensures
            tag.id == id,
            tag.name@ == self.name@,
    {
        Tag { id, name: self.name }
    }
}

} // verus!
