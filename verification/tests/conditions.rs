use blog_backend::error::BackendError;
use blog_backend::model::{QueryArticle, QueryCategory, QueryTag, Timestamp};
use blog_backend::predicate::{
    article_predicate, category_predicate, name_predicate, tag_predicate, Clause, Predicate, Table,
    YearWindow,
};
use blog_backend::sql::{article_condition_for, copy_ids, placeholder, SqlFragment, SqlValue, ToSql};

const STATE_TEST: &str = "CASE state WHEN 'published' THEN 1 WHEN 'hidden' THEN 2 ELSE 0 END = ";

#[test]
fn a_blank_article_filter_is_true_five_times() {
    let fragment = QueryArticle::default().to_sql().unwrap();
    assert_eq!(
        fragment,
        SqlFragment { text: "True AND True AND True AND True AND True".to_string(), params: vec![] }
    );
    let predicate = article_predicate(QueryArticle::default(), None, None);
    assert_eq!(predicate.table, Table::Articles);
    assert_eq!(
        predicate.clauses,
        vec![Clause::Always, Clause::Always, Clause::Always, Clause::Always, Clause::Always]
    );
}

#[test]
fn blank_category_and_tag_filters_are_true_twice() {
    let expected = SqlFragment { text: "True AND True".to_string(), params: vec![] };
    assert_eq!(QueryCategory::default().to_sql(), Ok(expected.clone()));
    assert_eq!(QueryTag::default().to_sql(), Ok(expected));
}

#[test]
fn each_supplied_field_becomes_a_test_with_a_placeholder() {
    let query = QueryArticle {
        ids: vec![1, 2],
        title: "rust".to_string(),
        state: 1,
        created_year: None,
        category_id: 3,
        tags_id: vec![],
    };
    let fragment = query.to_sql().unwrap();
    assert_eq!(
        fragment.text,
        format!(
            "id = ANY($1) AND strpos(title, $2) > 0 AND {}$3 AND True AND category_id = $4",
            STATE_TEST
        )
    );
    assert_eq!(
        fragment.params,
        vec![
            SqlValue::IntList(vec![1, 2]),
            SqlValue::Text("rust".to_string()),
            SqlValue::Int(1),
            SqlValue::Int(3),
        ]
    );
}

#[test]
fn placeholders_are_numbered_over_absent_fields() {
    let query = QueryArticle { category_id: -7, ..QueryArticle::default() };
    let fragment = query.to_sql().unwrap();
    assert_eq!(fragment.text, "True AND True AND True AND True AND category_id = $1".to_string());
    assert_eq!(fragment.params, vec![SqlValue::Int(-7)]);
}

#[test]
fn a_year_becomes_a_span_of_two_bound_instants() {
    let query = QueryArticle { title: "x".to_string(), ..QueryArticle::default() };
    let window = YearWindow { start: 100, end: 200 };
    let fragment = article_condition_for(query, Some(window));
    assert_eq!(
        fragment.text,
        "True AND strpos(title, $1) > 0 AND True AND created_at >= to_timestamp($2) AND created_at < to_timestamp($3) AND True"
            .to_string()
    );
    assert_eq!(
        fragment.params,
        vec![SqlValue::Text("x".to_string()), SqlValue::BigInt(100), SqlValue::BigInt(200)]
    );
}

#[test]
fn a_filter_with_a_year_holds_a_window_of_365_days() {
    let query = QueryArticle {
        created_year: Some(Timestamp { seconds: 1700000000, nanos: 0 }),
        ..QueryArticle::default()
    };
    let fragment = query.to_sql().unwrap();
    assert_eq!(
        fragment.text,
        "True AND True AND True AND created_at >= to_timestamp($1) AND created_at < to_timestamp($2) AND True"
            .to_string()
    );
    match (&fragment.params[0], &fragment.params[1]) {
        (SqlValue::BigInt(start), SqlValue::BigInt(end)) => {
            assert_eq!(end - start, 31536000);
            assert!((start - 1672531200i64).abs() <= 14 * 3600 + 1800);
        }
        other => panic!("unexpected values {:?}", other),
    }
    assert_eq!(fragment.params.len(), 2);
}

#[test]
fn a_year_that_cannot_be_read_is_refused() {
    let query = QueryArticle {
        created_year: Some(Timestamp { seconds: i64::MAX, nanos: 0 }),
        ..QueryArticle::default()
    };
    assert_eq!(
        query.to_sql(),
        Err(BackendError::InvalidRequest(
            "No year can be read from the instant given.".to_string()
        ))
    );
}

#[test]
fn text_from_a_request_never_enters_the_statement_text() {
    let hostile = "%'; DROP TABLE blog.articles; --";
    let query = QueryArticle { title: hostile.to_string(), ..QueryArticle::default() };
    let fragment = query.to_sql().unwrap();
    assert_eq!(
        fragment.text,
        "True AND strpos(title, $1) > 0 AND True AND True AND True".to_string()
    );
    assert_eq!(fragment.params, vec![SqlValue::Text(hostile.to_string())]);

    let query = QueryTag { ids: vec![], name: hostile.to_string() };
    let fragment = query.to_sql().unwrap();
    assert_eq!(fragment.text, "True AND strpos(name, $1) > 0".to_string());
    assert_eq!(fragment.params, vec![SqlValue::Text(hostile.to_string())]);
}

#[test]
fn negative_ids_and_unknown_states_pass_through() {
    let query = QueryArticle { ids: vec![-1], state: 9, ..QueryArticle::default() };
    let fragment = query.to_sql().unwrap();
    assert_eq!(
        fragment.text,
        format!("id = ANY($1) AND True AND {}$2 AND True AND True", STATE_TEST)
    );
    assert_eq!(fragment.params, vec![SqlValue::IntList(vec![-1]), SqlValue::Int(9)]);
}

#[test]
fn the_tags_of_a_filter_are_no_part_of_its_condition() {
    let with = QueryArticle { tags_id: vec![1, 2], ..QueryArticle::default() };
    assert_eq!(with.to_sql(), QueryArticle::default().to_sql());
}

#[test]
fn articles_found_by_tag_join_the_ids_asked_for() {
    let query = QueryArticle { ids: vec![5], tags_id: vec![1], ..QueryArticle::default() };
    let predicate = article_predicate(query, Some(vec![7, 8]), None);
    assert_eq!(predicate.clauses[0], Clause::IdIn(vec![5, 7, 8]));
    let query = QueryArticle { tags_id: vec![1], ..QueryArticle::default() };
    let predicate = article_predicate(query, Some(vec![]), None);
    assert_eq!(predicate.clauses[0], Clause::IdIn(vec![]));
    assert_eq!(predicate.to_sql(1).text, "id = ANY($1) AND True AND True AND True AND True");
}

#[test]
fn category_and_tag_filters_read_the_name_column() {
    let fragment = QueryCategory { ids: vec![3], name: "news".to_string() }.to_sql().unwrap();
    assert_eq!(fragment.text, "id = ANY($1) AND strpos(name, $2) > 0".to_string());
    assert_eq!(
        fragment.params,
        vec![SqlValue::IntList(vec![3]), SqlValue::Text("news".to_string())]
    );
    let predicate = category_predicate(QueryCategory { ids: vec![3], name: String::new() });
    assert_eq!(
        predicate,
        Predicate { table: Table::Categories, clauses: vec![Clause::IdIn(vec![3]), Clause::Always] }
    );
    let predicate = tag_predicate(QueryTag { ids: vec![], name: "a".to_string() });
    assert_eq!(
        predicate,
        Predicate {
            table: Table::Tags,
            clauses: vec![Clause::Always, Clause::Contains("a".to_string())]
        }
    );
    assert_eq!(
        name_predicate(Table::Tags, vec![], String::new()),
        Predicate { table: Table::Tags, clauses: vec![Clause::Always, Clause::Always] }
    );
}

#[test]
fn clauses_render_from_any_first_number() {
    let clause = Clause::CreatedWithin(YearWindow { start: 1, end: 2 });
    let fragment = clause.to_sql(Table::Articles, 9);
    assert_eq!(
        fragment.text,
        "created_at >= to_timestamp($9) AND created_at < to_timestamp($10)".to_string()
    );
    assert_eq!(fragment.params, vec![SqlValue::BigInt(1), SqlValue::BigInt(2)]);
    assert_eq!(Clause::Always.to_sql(Table::Tags, 1).text, "True".to_string());
    let none = Predicate { table: Table::Tags, clauses: vec![] };
    assert_eq!(none.to_sql(1), SqlFragment { text: "True".to_string(), params: vec![] });
    assert_eq!(placeholder(12), "$12".to_string());
    assert_eq!(copy_ids(&vec![3, 1, 2]), vec![3, 1, 2]);
}

#[test]
fn placeholder_numbers_do_not_wrap() {
    let clause = Clause::CreatedWithin(YearWindow { start: 1, end: 2 });
    let predicate = Predicate { table: Table::Articles, clauses: vec![clause.clone(), clause] };
    let fragment = predicate.to_sql(u64::MAX - 1);
    assert_eq!(
        fragment.text,
        "created_at >= to_timestamp($18446744073709551614) AND created_at < to_timestamp($18446744073709551615) AND created_at >= to_timestamp($18446744073709551616) AND created_at < to_timestamp($18446744073709551617)"
            .to_string()
    );
    assert_eq!(fragment.params.len(), 4);
}
