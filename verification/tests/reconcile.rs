use blog_backend::reconcile::{difference, distinct, reconcile, TagChanges};

fn sorted(mut ids: Vec<i32>) -> Vec<i32> {
    ids.sort();
    ids
}

#[test]
fn adding_one_tag_inserts_it_and_deletes_nothing() {
    let changes = reconcile(&vec![1], &vec![1, 2]);
    assert_eq!(changes, TagChanges { to_insert: vec![2], to_delete: vec![] });
}

#[test]
fn dropping_all_tags_deletes_each_and_inserts_nothing() {
    let changes = reconcile(&vec![1, 2], &vec![]);
    assert_eq!(changes.to_insert, Vec::<i32>::new());
    assert_eq!(sorted(changes.to_delete), vec![1, 2]);
}

#[test]
fn reconciling_a_set_with_itself_changes_nothing() {
    for tags in [vec![], vec![5], vec![3, 1, 2], vec![0, -4, 7, 7]] {
        let changes = reconcile(&tags, &tags);
        assert_eq!(changes, TagChanges { to_insert: vec![], to_delete: vec![] });
    }
    let changes = reconcile(&vec![1, 2, 2], &vec![2, 1]);
    assert_eq!(changes, TagChanges { to_insert: vec![], to_delete: vec![] });
}

#[test]
fn applying_the_changes_gives_the_desired_set() {
    let cases: Vec<(Vec<i32>, Vec<i32>)> = vec![
        (vec![], vec![]),
        (vec![], vec![4, 5]),
        (vec![1, 2, 3], vec![3, 4]),
        (vec![1, 1, 2], vec![2, 2, 9, 9]),
        (vec![0], vec![1]),
        (vec![i32::MIN, i32::MAX], vec![i32::MAX, 0]),
    ];
    for (old, new) in cases {
        let changes = reconcile(&old, &new);
        let mut reached: Vec<i32> = old.clone();
        for tag in changes.to_insert.iter() {
            assert!(!old.contains(tag));
            reached.push(*tag);
        }
        for tag in changes.to_delete.iter() {
            assert!(old.contains(tag));
            reached.retain(|t| t != tag);
        }
        let mut reached = sorted(reached);
        reached.dedup();
        let mut wanted = sorted(new.clone());
        wanted.dedup();
        assert_eq!(reached, wanted);
    }
}

#[test]
fn difference_keeps_first_occurrences_in_order() {
    assert_eq!(difference(&vec![5, 3, 5, 1, 3], &vec![1]), vec![5, 3]);
    assert_eq!(difference(&vec![1, 2, 3], &vec![]), vec![1, 2, 3]);
    assert_eq!(difference(&vec![], &vec![1]), Vec::<i32>::new());
    assert_eq!(difference(&vec![1, 2], &vec![2, 1, 1]), Vec::<i32>::new());
}

#[test]
fn distinct_lists_each_member_once() {
    assert_eq!(distinct(&vec![2, 1, 2, 2, 3, 1]), vec![2, 1, 3]);
    assert_eq!(distinct(&vec![]), Vec::<i32>::new());
}

#[test]
fn changes_follow_the_order_of_the_lists() {
    let changes = reconcile(&vec![9, 8, 7], &vec![7, 6, 5, 6]);
    assert_eq!(changes, TagChanges { to_insert: vec![6, 5], to_delete: vec![9, 8] });
}
