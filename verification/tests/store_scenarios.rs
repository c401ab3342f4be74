use std::collections::BTreeMap;

use blog_backend::error::{BackendError, StatusCode};
use blog_backend::model::{Article, Category, QueryArticle, QueryCategory, QueryTag, Tag, Timestamp};
use blog_backend::predicate::{Clause, Predicate};
use blog_backend::service::{
    Create, CreateRequest, CreateResponse, Delete, DeleteRequest, DeleteResponse, Query,
    QueryRequest, QueryResponse, Update, UpdateRequest, UpdateResponse,
};
use blog_backend::session::{begin, resume, Operation, Outcome, Reply, Step};
use blog_backend::statement::Statement;

/// A store in memory that carries out statements as a relational store
/// would, and counts what it was asked to do to the link table.
struct MemoryStore {
    articles: BTreeMap<i32, Article>,
    categories: BTreeMap<i32, String>,
    tags: BTreeMap<i32, String>,
    links: Vec<(i32, i32)>,
    next_id: i32,
    now: i64,
    link_insertions: usize,
    link_deletions: usize,
    broken: bool,
}

fn now_seconds() -> i64 {
    std::time::SystemTime::now()
        .duration_since(std::time::UNIX_EPOCH)
        .unwrap()
        .as_secs() as i64
}

fn holds(clause: &Clause, article: &Article) -> bool {
    match clause {
        Clause::Always => true,
        Clause::IdIn(ids) => ids.contains(&article.id),
        Clause::Contains(needle) => article.title.contains(needle.as_str()),
        Clause::StateIs(state) => article.state == *state,
        Clause::CreatedWithin(window) => {
            let at = article.created_at.unwrap().seconds;
            window.start <= at && at < window.end
        }
        Clause::CategoryIs(category) => article.category_id == *category,
    }
}

fn holds_of_name(clause: &Clause, id: i32, name: &str) -> bool {
    match clause {
        Clause::Always => true,
        Clause::IdIn(ids) => ids.contains(&id),
        Clause::Contains(needle) => name.contains(needle.as_str()),
        _ => false,
    }
}

fn named_rows(table: &BTreeMap<i32, String>, predicate: &Predicate) -> Vec<(i32, String)> {
    table
        .iter()
        .filter(|(id, name)| predicate.clauses.iter().all(|c| holds_of_name(c, **id, name)))
        .map(|(id, name)| (*id, name.clone()))
        .collect()
}

impl MemoryStore {
    fn seeded() -> MemoryStore {
        let now = now_seconds();
        let mut store = MemoryStore {
            articles: BTreeMap::new(),
            categories: BTreeMap::new(),
            tags: BTreeMap::new(),
            links: Vec::new(),
            next_id: 2000,
            now,
            link_insertions: 0,
            link_deletions: 0,
            broken: false,
        };
        store.categories.insert(1, "test_category0".to_string());
        store.categories.insert(2, "test_category1".to_string());
        store.tags.insert(1, "test_tag0".to_string());
        store.tags.insert(2, "test_tag1".to_string());
        store.tags.insert(3, "test_tag2".to_string());
        for (id, title) in [(1000, "test_title0"), (1001, "test_title1")] {
            store.articles.insert(
                id,
                Article {
                    id,
                    title: title.to_string(),
                    content: "test content".to_string(),
                    summary: "test summary".to_string(),
                    state: 1,
                    created_at: Some(Timestamp { seconds: now, nanos: 0 }),
                    updated_at: Some(Timestamp { seconds: now, nanos: 0 }),
                    category_id: 1,
                    tags_id: Vec::new(),
                },
            );
        }
        store.links.push((1000, 1));
        store.links.push((1000, 2));
        store.links.push((1001, 3));
        store
    }

    fn tags_of(&self, article_id: i32) -> Vec<i32> {
        self.links.iter().filter(|l| l.0 == article_id).map(|l| l.1).collect()
    }

    fn fresh_id(&mut self) -> i32 {
        self.next_id += 1;
        self.next_id
    }

    fn execute(&mut self, statement: &Statement) -> Reply {
        if self.broken {
            return Reply::Failed("connection refused".to_string());
        }
        match statement {
            Statement::SelectArticles(predicate) => Reply::Articles(
                self.articles
                    .values()
                    .filter(|a| predicate.clauses.iter().all(|c| holds(c, a)))
                    .map(|a| Article { tags_id: self.tags_of(a.id), ..a.clone() })
                    .collect(),
            ),
            Statement::SelectCategories(predicate) => Reply::Categories(
                named_rows(&self.categories, predicate)
                    .into_iter()
                    .map(|(id, name)| Category { id, name })
                    .collect(),
            ),
            Statement::SelectTags(predicate) => Reply::Tags(
                named_rows(&self.tags, predicate)
                    .into_iter()
                    .map(|(id, name)| Tag { id, name })
                    .collect(),
            ),
            Statement::ArticlesWithAllTags(tags) => {
                let mut found: Vec<i32> = Vec::new();
                for (article_id, _) in self.links.iter() {
                    let held = self.tags_of(*article_id);
                    if tags.iter().all(|t| held.contains(t)) && !found.contains(article_id) {
                        found.push(*article_id);
                    }
                }
                Reply::Ids(found)
            }
            Statement::InsertArticle { title, content, summary, state, category_id } => {
                let id = self.fresh_id();
                let stamp = Some(Timestamp { seconds: self.now, nanos: 0 });
                self.articles.insert(
                    id,
                    Article {
                        id,
                        title: title.clone(),
                        content: content.clone(),
                        summary: summary.clone(),
                        state: state.number(),
                        created_at: stamp,
                        updated_at: stamp,
                        category_id: *category_id,
                        tags_id: Vec::new(),
                    },
                );
                Reply::Id(id)
            }
            Statement::UpdateArticle { id, changes } => match self.articles.get_mut(id) {
                None => Reply::Failed("no rows returned".to_string()),
                Some(article) => {
                    if let Some(title) = &changes.title {
                        article.title = title.clone();
                    }
                    if let Some(content) = &changes.content {
                        article.content = content.clone();
                    }
                    if let Some(summary) = &changes.summary {
                        article.summary = summary.clone();
                    }
                    if let Some(state) = changes.state {
                        article.state = state.number();
                    }
                    if let Some(category_id) = changes.category_id {
                        article.category_id = category_id;
                    }
                    article.updated_at = Some(Timestamp { seconds: self.now, nanos: 0 });
                    Reply::Id(*id)
                }
            },
            Statement::DeleteArticle(id) => {
                self.articles.remove(id);
                Reply::Done
            }
            Statement::InsertCategory(name) => {
                let id = self.fresh_id();
                self.categories.insert(id, name.clone());
                Reply::Id(id)
            }
            Statement::UpdateCategory { id, name } => match self.categories.get_mut(id) {
                None => Reply::Failed("no rows returned".to_string()),
                Some(stored) => {
                    *stored = name.clone();
                    Reply::Id(*id)
                }
            },
            Statement::DeleteCategory(id) => {
                self.categories.remove(id);
                Reply::Done
            }
            Statement::InsertTag(name) => {
                let id = self.fresh_id();
                self.tags.insert(id, name.clone());
                Reply::Id(id)
            }
            Statement::UpdateTag { id, name } => match self.tags.get_mut(id) {
                None => Reply::Failed("no rows returned".to_string()),
                Some(stored) => {
                    *stored = name.clone();
                    Reply::Id(*id)
                }
            },
            Statement::DeleteTag(id) => {
                self.tags.remove(id);
                Reply::Done
            }
            Statement::InsertLink { article_id, tag_id } => {
                self.links.push((*article_id, *tag_id));
                self.link_insertions += 1;
                Reply::Done
            }
            Statement::DeleteLink { article_id, tag_id } => {
                self.links.retain(|l| *l != (*article_id, *tag_id));
                self.link_deletions += 1;
                Reply::Done
            }
            Statement::DeleteLinksOfArticle(id) => {
                self.links.retain(|l| l.0 != *id);
                Reply::Done
            }
            Statement::DeleteLinksOfTag(id) => {
                self.links.retain(|l| l.1 != *id);
                Reply::Done
            }
            Statement::TagsOfArticle(id) => Reply::Ids(self.tags_of(*id)),
            Statement::ArticlesOfTag(id) => {
                Reply::Ids(self.links.iter().filter(|l| l.1 == *id).map(|l| l.0).collect())
            }
        }
    }

    /// Carries an operation through: issues what the library asks for and
    /// hands back each reply.
    fn run(&mut self, operation: Operation) -> Result<Outcome, BackendError> {
        let mut step = begin(operation);
        loop {
            match step {
                Step::Issue(statement, stage) => {
                    let _rendered = statement.to_sql();
                    let reply = self.execute(&statement);
                    step = resume(stage, reply);
                }
                Step::Done(outcome) => return Ok(outcome),
                Step::Failed(error) => return Err(error),
            }
        }
    }

    fn query_articles(&mut self, req: QueryArticle) -> Result<Vec<Article>, BackendError> {
        match self.run(Operation::QueryArticles(req))? {
            Outcome::Articles(rows) => Ok(rows),
            other => panic!("unexpected outcome {:?}", other),
        }
    }

    fn query_categories(&mut self, req: QueryCategory) -> Result<Vec<Category>, BackendError> {
        match self.run(Operation::QueryCategories(req))? {
            Outcome::Categories(rows) => Ok(rows),
            other => panic!("unexpected outcome {:?}", other),
        }
    }

    fn query_tags(&mut self, req: QueryTag) -> Result<Vec<Tag>, BackendError> {
        match self.run(Operation::QueryTags(req))? {
            Outcome::Tags(rows) => Ok(rows),
            other => panic!("unexpected outcome {:?}", other),
        }
    }

    fn id_of(&mut self, operation: Operation) -> Result<i32, BackendError> {
        match self.run(operation)? {
            Outcome::Id(id) => Ok(id),
            other => panic!("unexpected outcome {:?}", other),
        }
    }

    fn remove(&mut self, operation: Operation) -> Result<(), BackendError> {
        match self.run(operation)? {
            Outcome::Removed(_) => Ok(()),
            other => panic!("unexpected outcome {:?}", other),
        }
    }

    fn ids_of(&mut self, operation: Operation) -> Result<Vec<i32>, BackendError> {
        match self.run(operation)? {
            Outcome::Ids(ids) => Ok(ids),
            other => panic!("unexpected outcome {:?}", other),
        }
    }

    fn query(&mut self, request: QueryRequest) -> Result<QueryResponse, BackendError> {
        let outcome = self.run(request.operation()?)?;
        QueryResponse::from_outcome(outcome)
    }

    fn create(&mut self, request: CreateRequest) -> Result<CreateResponse, BackendError> {
        let outcome = self.run(request.operation()?)?;
        CreateResponse::from_outcome(outcome)
    }

    fn update(&mut self, request: UpdateRequest) -> Result<UpdateResponse, BackendError> {
        let outcome = self.run(request.operation()?)?;
        UpdateResponse::from_outcome(outcome)
    }

    fn delete(&mut self, request: DeleteRequest) -> Result<DeleteResponse, BackendError> {
        let outcome = self.run(request.operation()?)?;
        DeleteResponse::from_outcome(outcome)
    }
}

fn sorted(mut ids: Vec<i32>) -> Vec<i32> {
    ids.sort();
    ids
}

#[test]
fn query_article_should_work() {
    let mut db = MemoryStore::seeded();

    // take all
    let req = QueryArticle::default();
    let res = db.query_articles(req);
    assert_eq!(res.unwrap().len(), 2);

    // by one tag
    let req = QueryArticle { tags_id: vec![1], ..QueryArticle::default() };
    let res = db.query_articles(req).unwrap();
    assert_eq!(res[0].id, 1000);

    // by tags
    let req = QueryArticle { tags_id: vec![1, 2], ..QueryArticle::default() };
    let res = db.query_articles(req).unwrap();
    assert_eq!(res[0].id, 1000);

    // by time
    let req = QueryArticle {
        created_year: Some(Timestamp { seconds: now_seconds(), nanos: 0 }),
        ..QueryArticle::default()
    };
    let res = db.query_articles(req);
    assert_eq!(res.unwrap().len(), 2);

    // by title
    let req = QueryArticle { title: "test_title1".to_string(), ..QueryArticle::default() };
    let res = db.query_articles(req).unwrap();
    assert_eq!(res[0].id, 1001);
}

#[test]
fn add_article_should_work() {
    let mut db = MemoryStore::seeded();

    let req = Article {
        title: "test_add".to_string(),
        content: "test add".to_string(),
        tags_id: vec![1, 2],
        category_id: 1,
        ..Article::default()
    };
    let id = db.id_of(Operation::AddArticle(req)).unwrap();

    let req = QueryArticle { title: "test_add".to_string(), ..QueryArticle::default() };
    let res = db.query_articles(req).unwrap();
    assert_eq!(res[0].id, id);
    // No placeholder tag is stored beside the two that were asked for.
    assert_eq!(res[0].tags_id, vec![1, 2]);
    assert_eq!(res[0].summary, "test add".to_string());
}

#[test]
fn update_article_should_work() {
    let mut db = MemoryStore::seeded();

    let req = Article {
        id: 1000,
        title: "test_update".to_string(),
        content: "test update".to_string(),
        tags_id: vec![1],
        category_id: 1,
        ..Article::default()
    };
    db.id_of(Operation::EditArticle(req)).unwrap();

    let req = QueryArticle { title: "test_update".to_string(), ..QueryArticle::default() };
    let res = db.query_articles(req).unwrap();
    assert_eq!(res[0].tags_id, vec![1]);

    let req = Article { id: 1000, tags_id: vec![2, 1], category_id: 1, ..Article::default() };
    db.id_of(Operation::EditArticle(req)).unwrap();

    let req = QueryArticle { title: "test_update".to_string(), ..QueryArticle::default() };
    let res = db.query_articles(req).unwrap();
    assert_eq!(res[0].tags_id, vec![1, 2]);
    assert_eq!(res[0].summary, "test update".to_string());
}

#[test]
fn delete_article_should_work() {
    let mut db = MemoryStore::seeded();

    let req = Article {
        title: "test_delete".to_string(),
        content: "test delete".to_string(),
        category_id: 1,
        tags_id: vec![1, 2],
        ..Article::default()
    };
    let id = db.id_of(Operation::AddArticle(req)).unwrap();

    let res = db.remove(Operation::DeleteArticle(id));
    assert!(res.is_ok());
}

#[test]
fn categories_operator_should_work() {
    let mut db = MemoryStore::seeded();

    // query
    let res = db.query_categories(QueryCategory::default()).unwrap();
    assert_eq!(res.len(), 2);

    // add
    let req = Category { name: "test_add".to_string(), ..Category::default() };
    let new_id = db.id_of(Operation::AddCategory(req)).unwrap();

    let req = QueryCategory { name: "test_add".to_string(), ..QueryCategory::default() };
    let res = db.query_categories(req).unwrap();
    assert_eq!(res[0].name, "test_add".to_string());

    // edit
    let req = Category { id: new_id, name: "test_edit".to_string() };
    db.id_of(Operation::EditCategory(req)).unwrap();

    let req = QueryCategory { ids: vec![new_id], ..QueryCategory::default() };
    let res = db.query_categories(req).unwrap();
    assert_eq!(res[0].name, "test_edit".to_string());

    // delete
    db.remove(Operation::DeleteCategory(new_id)).unwrap();

    let res = db.query_categories(QueryCategory::default()).unwrap();
    assert_eq!(res.len(), 2);
}

#[test]
fn tags_operator_should_work() {
    let mut db = MemoryStore::seeded();

    // query
    let res = db.query_tags(QueryTag::default()).unwrap();
    assert_eq!(res.len(), 3);

    // add
    let req = Tag { name: "test_add".to_string(), ..Tag::default() };
    let new_id = db.id_of(Operation::AddTag(req)).unwrap();

    let req = QueryTag { name: "test_add".to_string(), ..QueryTag::default() };
    let res = db.query_tags(req).unwrap();
    assert_eq!(res[0].name, "test_add".to_string());

    // edit
    let req = Tag { id: new_id, name: "test_edit".to_string() };
    db.id_of(Operation::EditTag(req)).unwrap();

    let req = QueryTag { ids: vec![new_id], ..QueryTag::default() };
    let res = db.query_tags(req).unwrap();
    assert_eq!(res[0].name, "test_edit".to_string());

    // delete
    db.remove(Operation::DeleteTag(new_id)).unwrap();

    let res = db.query_tags(QueryTag::default()).unwrap();
    assert_eq!(res.len(), 3);
}

#[test]
fn tag_article_should_work() {
    let mut db = MemoryStore::seeded();

    // delete article first
    let req = Tag { name: "test_tag".to_string(), ..Tag::default() };
    let tag_id = db.id_of(Operation::AddTag(req)).unwrap();

    let req = Article {
        title: "test_tag".to_string(),
        content: "test tag".to_string(),
        category_id: 1,
        tags_id: vec![tag_id],
        ..Article::default()
    };
    let article_id = db.id_of(Operation::AddArticle(req)).unwrap();

    db.remove(Operation::DeleteArticle(article_id)).unwrap();
    db.remove(Operation::DeleteTag(tag_id)).unwrap();

    // delete tag first
    let req = Tag { name: "test_tag".to_string(), ..Tag::default() };
    let tag_id = db.id_of(Operation::AddTag(req)).unwrap();

    let req = Article {
        title: "test_tag".to_string(),
        content: "test tag".to_string(),
        category_id: 1,
        tags_id: vec![tag_id],
        ..Article::default()
    };
    let article_id = db.id_of(Operation::AddArticle(req)).unwrap();

    db.remove(Operation::DeleteTag(tag_id)).unwrap();

    let req = QueryArticle { ids: vec![article_id], ..QueryArticle::default() };
    let res = db.query_articles(req).unwrap();
    // An article without tags has an empty list of them.
    assert_eq!(res[0].tags_id, Vec::<i32>::new());
    assert_eq!(db.ids_of(Operation::ArticleToTags(article_id)).unwrap(), Vec::<i32>::new());
}

#[test]
fn article_service_should_work() {
    let mut service = MemoryStore::seeded();

    // add
    let article = Article {
        title: "test_add".to_string(),
        content: "test content".to_string(),
        category_id: 1,
        ..Article::default()
    };
    let res = service.create(CreateRequest { create: Some(Create::Article(article)) });
    assert!(res.is_ok());
    let id = res.unwrap().id;

    // query
    let res = service.query(QueryRequest {
        query: Some(Query::QueryArticle(QueryArticle::default())),
    });
    assert!(res.is_ok());

    // edit
    let article = Article {
        id,
        title: "test_edit".to_string(),
        content: "test content".to_string(),
        ..Article::default()
    };
    let res = service.update(UpdateRequest { update: Some(Update::Article(article)) });
    assert!(res.is_ok());

    // delete
    let res = service.delete(DeleteRequest { delete: Some(Delete::ArticleId(id)) });
    assert!(res.is_ok());
}

#[test]
fn category_service_should_work() {
    let mut service = MemoryStore::seeded();

    let category = Category { name: "test_add".to_string(), ..Category::default() };
    let res = service.create(CreateRequest { create: Some(Create::Category(category)) });
    assert!(res.is_ok());
    let id = res.unwrap().id;

    let res = service.query(QueryRequest {
        query: Some(Query::QueryCategory(QueryCategory::default())),
    });
    assert!(res.is_ok());

    let category = Category { id, name: "test_edit".to_string() };
    let res = service.update(UpdateRequest { update: Some(Update::Category(category)) });
    assert!(res.is_ok());

    let res = service.delete(DeleteRequest { delete: Some(Delete::CategoryId(id)) });
    assert!(res.is_ok());
}

#[test]
fn tag_service_should_work() {
    let mut service = MemoryStore::seeded();

    let tag = Tag { name: "test_add".to_string(), ..Tag::default() };
    let res = service.create(CreateRequest { create: Some(Create::Tag(tag)) });
    assert!(res.is_ok());
    let id = res.unwrap().id;

    let res = service.query(QueryRequest { query: Some(Query::QueryTag(QueryTag::default())) });
    assert!(res.is_ok());

    let tag = Tag { id, name: "test_edit".to_string() };
    let res = service.update(UpdateRequest { update: Some(Update::Tag(tag)) });
    assert!(res.is_ok());

    let res = service.delete(DeleteRequest { delete: Some(Delete::TagId(id)) });
    assert!(res.is_ok());
}

#[test]
fn created_article_is_found_by_each_of_its_tags_and_by_both() {
    let mut db = MemoryStore::seeded();
    let one_tag_only = db
        .id_of(Operation::AddArticle(Article {
            title: "one".to_string(),
            category_id: 1,
            tags_id: vec![1],
            ..Article::default()
        }))
        .unwrap();
    let both = db
        .id_of(Operation::AddArticle(Article {
            title: "both".to_string(),
            category_id: 1,
            tags_id: vec![1, 2],
            ..Article::default()
        }))
        .unwrap();

    let by_one = db
        .query_articles(QueryArticle { tags_id: vec![1], ..QueryArticle::default() })
        .unwrap();
    let ids: Vec<i32> = by_one.iter().map(|a| a.id).collect();
    assert_eq!(sorted(ids), vec![1000, one_tag_only, both]);

    let by_both = db
        .query_articles(QueryArticle { tags_id: vec![1, 2], ..QueryArticle::default() })
        .unwrap();
    let ids: Vec<i32> = by_both.iter().map(|a| a.id).collect();
    assert_eq!(sorted(ids), vec![1000, both]);
    for article in by_both.iter() {
        assert!(article.tags_id.contains(&1) && article.tags_id.contains(&2));
    }
}

#[test]
fn query_by_tags_that_nothing_holds_selects_nothing() {
    let mut db = MemoryStore::seeded();
    let res = db
        .query_articles(QueryArticle { tags_id: vec![1, 3], ..QueryArticle::default() })
        .unwrap();
    assert_eq!(res.len(), 0);
    let res = db
        .query_articles(QueryArticle { tags_id: vec![1, 1], ..QueryArticle::default() })
        .unwrap();
    assert_eq!(res.len(), 1);
}

#[test]
fn updating_tags_touches_only_the_links_that_differ() {
    let mut db = MemoryStore::seeded();
    let id = db
        .id_of(Operation::AddArticle(Article {
            title: "t".to_string(),
            category_id: 1,
            tags_id: vec![1],
            ..Article::default()
        }))
        .unwrap();
    db.link_insertions = 0;
    db.link_deletions = 0;

    db.id_of(Operation::EditArticle(Article {
        id,
        category_id: 1,
        tags_id: vec![1, 2],
        ..Article::default()
    }))
    .unwrap();
    assert_eq!((db.link_insertions, db.link_deletions), (1, 0));
    assert_eq!(sorted(db.tags_of(id)), vec![1, 2]);

    db.link_insertions = 0;
    db.id_of(Operation::EditArticle(Article {
        id,
        category_id: 1,
        tags_id: vec![],
        ..Article::default()
    }))
    .unwrap();
    assert_eq!((db.link_insertions, db.link_deletions), (0, 2));
    assert_eq!(db.tags_of(id), Vec::<i32>::new());
}

#[test]
fn long_content_gives_a_summary_of_its_first_255_characters() {
    let mut db = MemoryStore::seeded();
    let content: String = (0..300).map(|i| if i < 255 { 'a' } else { 'b' }).collect();
    let id = db
        .id_of(Operation::AddArticle(Article {
            title: "long".to_string(),
            content: content.clone(),
            category_id: 1,
            ..Article::default()
        }))
        .unwrap();
    let stored = db
        .query_articles(QueryArticle { ids: vec![id], ..QueryArticle::default() })
        .unwrap();
    assert_eq!(stored[0].summary.chars().count(), 255);
    assert_eq!(stored[0].summary, "a".repeat(255));
    assert_eq!(stored[0].content, content);
}

#[test]
fn deleting_a_tag_leaves_its_articles_without_it() {
    let mut db = MemoryStore::seeded();
    db.remove(Operation::DeleteTag(3)).unwrap();
    assert_eq!(db.ids_of(Operation::ArticleToTags(1001)).unwrap(), Vec::<i32>::new());
    assert_eq!(db.ids_of(Operation::TagToArticles(3)).unwrap(), Vec::<i32>::new());
    assert_eq!(sorted(db.ids_of(Operation::ArticleToTags(1000)).unwrap()), vec![1, 2]);
    assert_eq!(db.query_tags(QueryTag::default()).unwrap().len(), 2);
    assert_eq!(db.query_articles(QueryArticle::default()).unwrap().len(), 2);
}

#[test]
fn update_without_fields_is_refused_and_changes_nothing() {
    let mut db = MemoryStore::seeded();
    let before = db.articles.get(&1000).unwrap().clone();
    let links_before = db.links.clone();
    let res = db.run(Operation::EditArticle(Article {
        id: 1000,
        tags_id: vec![3],
        ..Article::default()
    }));
    assert_eq!(
        res,
        Err(BackendError::InvalidRequest("Empty update article request.".to_string()))
    );
    assert_eq!(res.unwrap_err().into_status().code, StatusCode::InvalidArgument);
    assert_eq!(db.articles.get(&1000).unwrap(), &before);
    assert_eq!(db.links, links_before);
}

#[test]
fn create_query_delete_query_end_to_end() {
    let mut service = MemoryStore::seeded();
    let created = service
        .create(CreateRequest {
            create: Some(Create::Article(Article {
                title: "A".to_string(),
                category_id: 1,
                tags_id: vec![1, 2],
                ..Article::default()
            })),
        })
        .unwrap();
    let n = created.id;

    let found = service
        .query(QueryRequest {
            query: Some(Query::QueryArticle(QueryArticle { ids: vec![n], ..QueryArticle::default() })),
        })
        .unwrap();
    assert_eq!(found.articles.len(), 1);
    assert_eq!(found.articles[0].title, "A".to_string());
    assert_eq!(sorted(found.articles[0].tags_id.clone()), vec![1, 2]);
    assert_eq!(found.categories.len(), 0);
    assert_eq!(found.tags.len(), 0);

    let deleted = service.delete(DeleteRequest { delete: Some(Delete::ArticleId(n)) }).unwrap();
    assert_eq!(deleted, DeleteResponse { id: n });

    let found = service
        .query(QueryRequest {
            query: Some(Query::QueryArticle(QueryArticle { ids: vec![n], ..QueryArticle::default() })),
        })
        .unwrap();
    assert_eq!(found.articles.len(), 0);
    assert_eq!(service.tags_of(n), Vec::<i32>::new());
}

#[test]
fn deleting_what_is_not_there_succeeds() {
    let mut db = MemoryStore::seeded();
    assert_eq!(db.run(Operation::DeleteArticle(424242)), Ok(Outcome::Removed(424242)));
    assert_eq!(db.run(Operation::DeleteTag(424242)), Ok(Outcome::Removed(424242)));
    assert_eq!(db.run(Operation::DeleteCategory(424242)), Ok(Outcome::Removed(424242)));
    assert_eq!(db.articles.len(), 2);
    assert_eq!(db.links.len(), 3);
}

#[test]
fn deleting_a_category_leaves_its_articles() {
    let mut db = MemoryStore::seeded();
    db.remove(Operation::DeleteCategory(1)).unwrap();
    assert_eq!(db.query_categories(QueryCategory::default()).unwrap().len(), 1);
    let res = db
        .query_articles(QueryArticle { category_id: 1, ..QueryArticle::default() })
        .unwrap();
    assert_eq!(res.len(), 2);
}

#[test]
fn updating_a_row_that_is_not_there_fails() {
    let mut db = MemoryStore::seeded();
    let res = db.run(Operation::EditCategory(Category { id: 99, name: "x".to_string() }));
    assert_eq!(res, Err(BackendError::StorageError("no rows returned".to_string())));
    let res = db.run(Operation::EditTag(Tag { id: 99, name: "x".to_string() }));
    assert_eq!(res, Err(BackendError::StorageError("no rows returned".to_string())));
    let res = db.run(Operation::EditArticle(Article {
        id: 99,
        title: "x".to_string(),
        ..Article::default()
    }));
    assert_eq!(res, Err(BackendError::StorageError("no rows returned".to_string())));
}

#[test]
fn a_failing_store_gives_a_storage_error() {
    let mut db = MemoryStore::seeded();
    db.broken = true;
    let res = db.run(Operation::QueryTags(QueryTag::default()));
    assert_eq!(res, Err(BackendError::StorageError("connection refused".to_string())));
    let status = res.unwrap_err().into_status();
    assert_eq!(status.code, StatusCode::Internal);
    assert_eq!(status.message, "connection refused".to_string());
}

#[test]
fn sparse_update_leaves_other_fields_alone() {
    let mut db = MemoryStore::seeded();
    db.id_of(Operation::EditArticle(Article {
        id: 1001,
        state: 2,
        tags_id: vec![3],
        ..Article::default()
    }))
    .unwrap();
    let stored = db.articles.get(&1001).unwrap();
    assert_eq!(stored.state, 2);
    assert_eq!(stored.title, "test_title1".to_string());
    assert_eq!(stored.content, "test content".to_string());
    assert_eq!(stored.summary, "test summary".to_string());
    assert_eq!(stored.category_id, 1);
}

#[test]
fn creating_with_repeated_tags_links_each_once() {
    let mut db = MemoryStore::seeded();
    let id = db
        .id_of(Operation::AddArticle(Article {
            title: "dup".to_string(),
            category_id: 1,
            tags_id: vec![2, 1, 2, 2],
            ..Article::default()
        }))
        .unwrap();
    assert_eq!(db.tags_of(id), vec![2, 1]);
}

#[test]
fn requests_without_payload_are_refused() {
    let mut service = MemoryStore::seeded();
    let expected = BackendError::InvalidRequest("The request carries no payload.".to_string());
    assert_eq!(service.query(QueryRequest { query: None }), Err(expected.clone()));
    assert_eq!(service.create(CreateRequest { create: None }), Err(expected.clone()));
    assert_eq!(service.update(UpdateRequest { update: None }), Err(expected.clone()));
    assert_eq!(service.delete(DeleteRequest { delete: None }), Err(expected));
}
