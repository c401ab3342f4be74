//! What the statements of each operation do to the tables: the facts that
//! keep articles, tags and their links consistent.

use vstd::prelude::*;
use crate::model::QueryArticle;
use crate::predicate::{article_clauses, lemma_article_clauses_meaning, ClauseView, YearWindow};
use crate::reconcile::{difference_of, distinct_of, lemma_difference_of, tag_set};
use crate::statement::{run, StatementView, StoredArticle, Tables};
use crate::store::{
    delete_links, deleting_article, deleting_category, deleting_tag, insert_links,
    reconciling_links,
};
use crate::update::{ArticleChangesView, ArticleFields};

verus! {

/// Whether two states of the store hold the same rows in the three tables;
/// their links may differ.
pub open spec fn same_rows(a: Tables, b: Tables) -> bool {
    a.articles == b.articles && a.categories == b.categories && a.tags == b.tags
}

/// A statement that only reads leaves the store as it is.
pub proof fn lemma_reads_change_nothing(
    statement: StatementView,
    before: Tables,
    assigned: i32,
    now: int,
)
    requires
        statement.is_read(),
    ensures
        statement.effect(before, assigned, now) == before,
{
}

/// An update of an article writes the supplied fields of its row and leaves
/// the rest of the row, every other row and every link as they are.
pub proof fn lemma_update_touches_one_row(
    id: i32,
    changes: ArticleChangesView,
    before: Tables,
    other: i32,
)
    requires
        (StatementView::UpdateArticle { id, changes }).applies(before),
        other != id,
    ensures
        ({
            let after = (StatementView::UpdateArticle { id, changes }).effect(before, 0, 0);
            &&& after.articles.dom() == before.articles.dom()
            &&& after.articles[id].fields == changes.apply(before.articles[id].fields)
            &&& after.articles[id].created_at == before.articles[id].created_at
            &&& before.articles.dom().contains(other) ==> after.articles[other]
                == before.articles[other]
            &&& after.links == before.links
            &&& after.categories == before.categories
            &&& after.tags == before.tags
        }),
{
    let after = (StatementView::UpdateArticle { id, changes }).effect(before, 0, 0);
    assert(after.articles.dom() =~= before.articles.dom());
}

/// Running two plans one after the other is running them joined.
pub proof fn lemma_run_concat(first: Seq<StatementView>, second: Seq<StatementView>, before: Tables)
    ensures
        run(first + second, before) == run(second, run(first, before)),
    decreases second.len(),
{
    if second.len() == 0 {
        assert(first + second == first);
    } else {
        lemma_run_concat(first, second.drop_last(), before);
        assert((first + second).drop_last() == first + second.drop_last());
        assert((first + second).last() == second.last());
    }
}

/// Linking an article to a list of tags adds exactly those links and
/// touches no row.
pub proof fn lemma_insert_links_effect(article_id: i32, tags: Seq<i32>, before: Tables)
    ensures
        same_rows(run(insert_links(article_id, tags), before), before),
        forall|a: i32, t: i32| #[trigger]
            run(insert_links(article_id, tags), before).links.contains((a, t)) <==> (
            before.links.contains((a, t)) || (a == article_id && tags.contains(t))),
    decreases tags.len(),
{
    let plan = insert_links(article_id, tags);
    if tags.len() > 0 {
        let front = tags.drop_last();
        lemma_insert_links_effect(article_id, front, before);
        assert(plan.drop_last() == insert_links(article_id, front));
        assert(plan.last() == StatementView::InsertLink { article_id, tag_id: tags.last() });
        let mid = run(insert_links(article_id, front), before);
        assert forall|a: i32, t: i32| #[trigger]
            run(plan, before).links.contains((a, t)) <==> (before.links.contains((a, t)) || (a
                == article_id && tags.contains(t))) by {
            assert(run(plan, before).links == mid.links.insert((article_id, tags.last())));
            if front.contains(t) {
                let k = choose|k: int| 0 <= k < front.len() && front[k] == t;
                assert(tags[k] == t);
            }
            if tags.contains(t) && t != tags.last() {
                let k = choose|k: int| 0 <= k < tags.len() && tags[k] == t;
                assert(front[k] == t);
            }
            assert(tags[tags.len() - 1] == tags.last());
        }
    }
}

/// Unlinking an article from a list of tags removes exactly those links and
/// touches no row.
pub proof fn lemma_delete_links_effect(article_id: i32, tags: Seq<i32>, before: Tables)
    ensures
        same_rows(run(delete_links(article_id, tags), before), before),
        forall|a: i32, t: i32| #[trigger]
            run(delete_links(article_id, tags), before).links.contains((a, t)) <==> (
            before.links.contains((a, t)) && !(a == article_id && tags.contains(t))),
    decreases tags.len(),
{
    let plan = delete_links(article_id, tags);
    if tags.len() > 0 {
        let front = tags.drop_last();
        lemma_delete_links_effect(article_id, front, before);
        assert(plan.drop_last() == delete_links(article_id, front));
        assert(plan.last() == StatementView::DeleteLink { article_id, tag_id: tags.last() });
        let mid = run(delete_links(article_id, front), before);
        assert forall|a: i32, t: i32| #[trigger]
            run(plan, before).links.contains((a, t)) <==> (before.links.contains((a, t)) && !(a
                == article_id && tags.contains(t))) by {
            assert(run(plan, before).links == mid.links.remove((article_id, tags.last())));
            if front.contains(t) {
                let k = choose|k: int| 0 <= k < front.len() && front[k] == t;
                assert(tags[k] == t);
            }
            if tags.contains(t) && t != tags.last() {
                let k = choose|k: int| 0 <= k < tags.len() && tags[k] == t;
                assert(front[k] == t);
            }
            assert(tags[tags.len() - 1] == tags.last());
        }
    }
}

/// After the links of an article are reconciled, the article is linked to
/// exactly the desired tags, and nothing else in the store has changed.
pub proof fn lemma_reconciling_reaches_desired(
    article_id: i32,
    stored: Seq<i32>,
    desired: Seq<i32>,
    before: Tables,
)
    requires
        before.tags_of(article_id) == tag_set(stored),
    ensures
        run(reconciling_links(article_id, stored, desired), before).tags_of(article_id) == tag_set(
            desired,
        ),
        same_rows(run(reconciling_links(article_id, stored, desired), before), before),
        forall|other: i32|
            other != article_id ==> #[trigger] run(
                reconciling_links(article_id, stored, desired),
                before,
            ).tags_of(other) == before.tags_of(other),
{
    let to_insert = difference_of(desired, stored);
    let to_delete = difference_of(stored, desired);
    let mid = run(insert_links(article_id, to_insert), before);
    let after = run(reconciling_links(article_id, stored, desired), before);
    lemma_run_concat(
        insert_links(article_id, to_insert),
        delete_links(article_id, to_delete),
        before,
    );
    lemma_insert_links_effect(article_id, to_insert, before);
    lemma_delete_links_effect(article_id, to_delete, mid);
    lemma_difference_of(desired, stored);
    lemma_difference_of(stored, desired);
    assert forall|t: i32| after.tags_of(article_id).contains(t) <==> tag_set(desired).contains(
        t,
    ) by {
        assert(after.links.contains((article_id, t)) <==> (mid.links.contains((article_id, t))
            && !to_delete.contains(t)));
        assert(mid.links.contains((article_id, t)) <==> (before.links.contains((article_id, t))
            || to_insert.contains(t)));
        assert(before.tags_of(article_id).contains(t) <==> before.links.contains((article_id, t)));
        assert(tag_set(to_insert).contains(t) <==> to_insert.contains(t));
        assert(tag_set(to_delete).contains(t) <==> to_delete.contains(t));
        assert(tag_set(stored).contains(t) <==> stored.contains(t));
        assert(tag_set(desired).contains(t) <==> desired.contains(t));
    }
    assert(after.tags_of(article_id) =~= tag_set(desired));
    assert forall|other: i32| other != article_id implies #[trigger] after.tags_of(other)
        == before.tags_of(other) by {
        assert forall|t: i32| after.tags_of(other).contains(t) <==> before.tags_of(other).contains(
            t,
        ) by {
            assert(after.links.contains((other, t)) <==> mid.links.contains((other, t)));
            assert(mid.links.contains((other, t)) <==> before.links.contains((other, t)));
        }
        assert(after.tags_of(other) =~= before.tags_of(other));
    }
}

/// After a tag is removed, no article is linked to it and it is no row of
/// the tags; every other link and every other row is as before.
pub proof fn lemma_deleting_tag_unlinks(tag_id: i32, before: Tables)
    ensures
        !run(deleting_tag(tag_id), before).tags.dom().contains(tag_id),
        forall|article_id: i32| !(#[trigger] run(deleting_tag(tag_id), before).tags_of(article_id)).contains(tag_id),
        forall|article_id: i32, other: i32|
            other != tag_id ==> (#[trigger] run(deleting_tag(tag_id), before).links.contains(
                (article_id, other),
            ) <==> before.links.contains((article_id, other))),
        run(deleting_tag(tag_id), before).articles == before.articles,
        run(deleting_tag(tag_id), before).categories == before.categories,
        run(deleting_tag(tag_id), before).tags == before.tags.remove(tag_id),
{
    let plan = deleting_tag(tag_id);
    let first = seq![StatementView::DeleteLinksOfTag(tag_id)];
    assert(plan.drop_last() == first);
    assert(first.drop_last() == Seq::<StatementView>::empty());
    assert(run(first.drop_last(), before) == before);
    assert(first.last() == StatementView::DeleteLinksOfTag(tag_id));
    assert(plan.last() == StatementView::DeleteTag(tag_id));
    let mid = run(first, before);
    let after = run(plan, before);
    assert(mid.links == Set::new(
        |link: (i32, i32)| before.links.contains(link) && link.1 != tag_id,
    ));
    assert(after.links == mid.links);
    assert forall|article_id: i32| !(#[trigger] after.tags_of(article_id)).contains(tag_id) by {
        assert(!after.links.contains((article_id, tag_id)));
    }
}

/// After an article is removed, it is no row of the articles, it has no
/// links, and no query selects it; every other link and every other row is
/// as before.
pub proof fn lemma_deleting_article_removes(id: i32, before: Tables)
    ensures
        !run(deleting_article(id), before).articles.dom().contains(id),
        run(deleting_article(id), before).tags_of(id) == Set::<i32>::empty(),
        forall|clauses: Seq<ClauseView>| !(#[trigger] run(deleting_article(id), before).selected_articles(clauses)).contains(id),
        forall|other: i32, tag_id: i32|
            other != id ==> (#[trigger] run(deleting_article(id), before).links.contains(
                (other, tag_id),
            ) <==> before.links.contains((other, tag_id))),
        run(deleting_article(id), before).articles == before.articles.remove(id),
        run(deleting_article(id), before).categories == before.categories,
        run(deleting_article(id), before).tags == before.tags,
{
    let plan = deleting_article(id);
    let first = seq![StatementView::DeleteLinksOfArticle(id)];
    assert(plan.drop_last() == first);
    assert(first.drop_last() == Seq::<StatementView>::empty());
    assert(run(first.drop_last(), before) == before);
    assert(first.last() == StatementView::DeleteLinksOfArticle(id));
    assert(plan.last() == StatementView::DeleteArticle(id));
    let mid = run(first, before);
    let after = run(plan, before);
    assert(mid.links == Set::new(|link: (i32, i32)| before.links.contains(link) && link.0 != id));
    assert(after.links == mid.links);
    assert forall|t: i32| !after.tags_of(id).contains(t) by {
        assert(!after.links.contains((id, t)));
    }
    assert(after.tags_of(id) =~= Set::<i32>::empty());
}

/// Removing a category removes its row and nothing else: articles that
/// belong to it stay, and so do all links.
pub proof fn lemma_deleting_category_keeps_articles(id: i32, before: Tables)
    ensures
        run(deleting_category(id), before).categories == before.categories.remove(id),
        run(deleting_category(id), before).articles == before.articles,
        run(deleting_category(id), before).tags == before.tags,
        run(deleting_category(id), before).links == before.links,
{
    let plan = deleting_category(id);
    assert(plan.drop_last() == Seq::<StatementView>::empty());
    assert(run(plan.drop_last(), before) == before);
    assert(plan.last() == StatementView::DeleteCategory(id));
}

/// The tables after an article with these fields has been created under the
/// id `assigned` at the instant `now` and linked to `tags`.
pub open spec fn after_creating(
    fields: ArticleFields,
    tags: Seq<i32>,
    assigned: i32,
    now: int,
    before: Tables,
) -> Tables {
    run(
        insert_links(assigned, distinct_of(tags)),
        StatementView::InsertArticle(fields).effect(before, assigned, now),
    )
}

/// After an article is created under an id that nothing was linked to, it
/// is a row of the articles with the fields given, it is linked to exactly
/// its tags, and a query for its id alone selects it and nothing else.
pub proof fn lemma_created_article_is_stored(
    fields: ArticleFields,
    tags: Seq<i32>,
    assigned: i32,
    now: int,
    before: Tables,
    query: QueryArticle,
)
    requires
        before.tags_of(assigned) == Set::<i32>::empty(),
        query.ids@ == seq![assigned],
        query.title@.len() == 0,
        query.state == 0,
        query.category_id == 0,
    ensures
        after_creating(fields, tags, assigned, now, before).articles.dom().contains(assigned),
        after_creating(fields, tags, assigned, now, before).articles[assigned] == (StoredArticle {
            fields,
            created_at: now,
        }),
        after_creating(fields, tags, assigned, now, before).tags_of(assigned) == tag_set(tags),
        after_creating(fields, tags, assigned, now, before).selected_articles(
            article_clauses(query, None, None),
        ) == set![assigned],
{
    let inserted = StatementView::InsertArticle(fields).effect(before, assigned, now);
    let after = after_creating(fields, tags, assigned, now, before);
    lemma_insert_links_effect(assigned, distinct_of(tags), inserted);
    lemma_difference_of(tags, Seq::<i32>::empty());
    assert(tag_set(Seq::<i32>::empty()) =~= Set::<i32>::empty());
    assert(tag_set(tags).difference(Set::<i32>::empty()) =~= tag_set(tags));
    assert forall|t: i32| after.tags_of(assigned).contains(t) <==> tag_set(tags).contains(t) by {
        assert(before.tags_of(assigned).contains(t) <==> before.links.contains((assigned, t)));
        assert(after.links.contains((assigned, t)) <==> (inserted.links.contains((assigned, t))
            || distinct_of(tags).contains(t)));
        assert(tag_set(distinct_of(tags)).contains(t) <==> distinct_of(tags).contains(t));
    }
    assert(after.tags_of(assigned) =~= tag_set(tags));
    let clauses = article_clauses(query, None, None);
    assert forall|id: i32| after.selected_articles(clauses).contains(id) <==> id == assigned by {
        lemma_article_clauses_meaning(query, None, None, after.article_row(id));
        assert(query.ids@[0] == assigned);
    }
    assert(after.selected_articles(clauses) =~= set![assigned]);
}

/// A lookup by tags finds only articles that are linked to every tag asked
/// for, and finds each article that is linked to them all.
pub proof fn lemma_lookup_by_tags_is_conjunctive(tables: Tables, tags: Seq<i32>, article_id: i32)
    requires
        tags.len() > 0,
    ensures
        tables.articles_with_all(tags).contains(article_id) <==> tag_set(tags).subset_of(
            tables.tags_of(article_id),
        ),
{
    if tables.articles_with_all(tags).contains(article_id) {
        assert forall|t: i32| tag_set(tags).contains(t) implies tables.tags_of(article_id).contains(
            t,
        ) by {
            let k = choose|k: int| 0 <= k < tags.len() && tags[k] == t;
            assert(tables.links.contains((article_id, tags[k])));
        }
    }
    if tag_set(tags).subset_of(tables.tags_of(article_id)) {
        assert forall|i: int| 0 <= i < tags.len() implies tables.links.contains(
            (article_id, #[trigger] tags[i]),
        ) by {
            assert(tag_set(tags).contains(tags[i]));
            assert(tables.tags_of(article_id).contains(tags[i]));
        }
        assert(tables.links.contains((article_id, tags[0])));
    }
}

/// A query that names tags and no ids selects only articles that are linked
/// to every tag named, whatever else it asks for.
pub proof fn lemma_query_by_tags_selects_holders(
    tables: Tables,
    query: QueryArticle,
    found: Seq<i32>,
    window: Option<YearWindow>,
    article_id: i32,
)
    requires
        query.tags_id@.len() > 0,
        query.ids@.len() == 0,
        tag_set(found) == tables.articles_with_all(query.tags_id@),
        tables.selected_articles(article_clauses(query, Some(found), window)).contains(article_id),
    ensures
        tag_set(query.tags_id@).subset_of(tables.tags_of(article_id)),
{
    let row = tables.article_row(article_id);
    lemma_article_clauses_meaning(query, Some(found), window, row);
    assert(found.contains(article_id));
    assert(tag_set(found).contains(article_id));
    lemma_lookup_by_tags_is_conjunctive(tables, query.tags_id@, article_id);
}

/// An article that is linked to every tag a query names, and that meets the
/// query's other conditions, is selected.
pub proof fn lemma_query_by_tags_includes_holder(
    tables: Tables,
    query: QueryArticle,
    found: Seq<i32>,
    window: Option<YearWindow>,
    article_id: i32,
)
    requires
        query.tags_id@.len() > 0,
        tag_set(found) == tables.articles_with_all(query.tags_id@),
        tables.articles.dom().contains(article_id),
        tag_set(query.tags_id@).subset_of(tables.tags_of(article_id)),
        query.title@.len() == 0,
        query.state == 0,
        query.category_id == 0,
        window is None,
    ensures
        tables.selected_articles(article_clauses(query, Some(found), window)).contains(article_id),
{
    let row = tables.article_row(article_id);
    lemma_article_clauses_meaning(query, Some(found), window, row);
    lemma_lookup_by_tags_is_conjunctive(tables, query.tags_id@, article_id);
    assert(tag_set(found).contains(article_id));
    assert(found.contains(article_id));
}

} // verus!
