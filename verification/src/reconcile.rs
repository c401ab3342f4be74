//! Reconciliation of an article's stored tag set with the desired one.

use std::collections::HashSet;
use vstd::prelude::*;

verus! {

broadcast use vstd::std_specs::hash::group_hash_axioms;

/// The link rows to add and to remove so that an article's tags become the
/// desired ones. Each list holds a tag id at most once; the order within a
/// list carries no meaning.
#[derive(Clone, Debug, PartialEq, Eq)]
pub struct TagChanges {
    pub to_insert: Vec<i32>,
    pub to_delete: Vec<i32>,
}

/// The set of tag ids that a list stands for.
pub open spec fn tag_set(tags: Seq<i32>) -> Set<i32> {
    tags.to_set()
}

/// The tag set that results from adding `inserted` to `stored` and then
/// removing `deleted`.
pub open spec fn apply_changes(stored: Set<i32>, inserted: Set<i32>, deleted: Set<i32>) -> Set<i32> {
    stored.union(inserted).difference(deleted)
}

impl TagChanges {
    /// The set of tag ids to link.
    pub open spec fn inserted(self) -> Set<i32> {
        tag_set(self.to_insert@)
    }

    /// The set of tag ids to unlink.
    pub open spec fn deleted(self) -> Set<i32> {
        tag_set(self.to_delete@)
    }
}

/// The members of `keep` that do not occur in `drop`, each once, in the
/// order of their first occurrence in `keep`.
pub open spec fn difference_of(keep: Seq<i32>, drop: Seq<i32>) -> Seq<i32>
    decreases keep.len(),
{
    if keep.len() == 0 {
        Seq::<i32>::empty()
    } else {
        let rest = difference_of(keep.drop_last(), drop);
        if drop.contains(keep.last()) || rest.contains(keep.last()) {
            rest
        } else {
            rest.push(keep.last())
        }
    }
}

/// The members of `tags`, each once, in the order of their first occurrence.
pub open spec fn distinct_of(tags: Seq<i32>) -> Seq<i32> {
    difference_of(tags, Seq::<i32>::empty())
}

/// Lists the members of `keep` that do not occur in `drop`, each once, in
/// the order of their first occurrence in `keep`.
pub fn difference(keep: &Vec<i32>, drop: &Vec<i32>) -> (rest: Vec<i32>)
    ensures
        rest@ == difference_of(keep@, drop@),
        tag_set(rest@) == tag_set(keep@).difference(tag_set(drop@)),
        rest@.no_duplicates(),
{
    let mut excluded: HashSet<i32> = HashSet::new();
    let mut j: usize = 0;
    while j < drop.len()
        invariant
            j <= drop.len(),
            excluded@ == drop@.take(j as int).to_set(),
        decreases drop.len() - j,
    {
        proof {
            lemma_to_set_push(drop@.take(j as int), drop@[j as int]);
            assert(drop@.take(j as int + 1) == drop@.take(j as int).push(drop@[j as int]));
        }
        excluded.insert(drop[j]);
        j += 1;
    }
    assert(drop@.take(drop.len() as int) == drop@);

    let mut rest: Vec<i32> = Vec::new();
    let mut i: usize = 0;
    assert(rest@.to_set() =~= Set::<i32>::empty());
    assert(excluded@ =~= drop@.to_set().union(rest@.to_set()));
    while i < keep.len()
        invariant
            i <= keep.len(),
            excluded@ == drop@.to_set().union(rest@.to_set()),
            rest@ == difference_of(keep@.take(i as int), drop@),
        decreases keep.len() - i,
    {
        let tag: i32 = keep[i];
        proof {
            assert(keep@.take(i as int + 1).drop_last() == keep@.take(i as int));
            assert(keep@.take(i as int + 1).last() == tag);
        }
        if !excluded.contains(&tag) {
            proof {
                lemma_to_set_push(rest@, tag);
                assert(!drop@.to_set().contains(tag));
                assert(!rest@.to_set().contains(tag));
            }
            rest.push(tag);
            excluded.insert(tag);
            assert(excluded@ =~= drop@.to_set().union(rest@.to_set()));
        } else {
            assert(drop@.to_set().contains(tag) || rest@.to_set().contains(tag));
        }
        i += 1;
    }
    assert(keep@.take(keep.len() as int) == keep@);
    proof {
        lemma_difference_of(keep@, drop@);
    }
    rest
}

/// Lists the members of `tags`, each once, in the order of their first
/// occurrence.
pub fn distinct(tags: &Vec<i32>) -> (rest: Vec<i32>)
    ensures
        rest@ == distinct_of(tags@),
        tag_set(rest@) == tag_set(tags@),
        rest@.no_duplicates(),
{
    let nothing: Vec<i32> = Vec::new();
    let rest = difference(tags, &nothing);
    assert(tag_set(nothing@) =~= Set::<i32>::empty());
    assert(tag_set(tags@).difference(Set::<i32>::empty()) =~= tag_set(tags@));
    rest
}

/// Computes the link rows to add and to remove so that the tags stored for an
/// article become the desired ones: what is desired and not stored is added,
/// what is stored and not desired is removed.
pub fn reconcile(old_tags: &Vec<i32>, new_tags: &Vec<i32>) -> (changes: TagChanges)
    ensures
        changes.to_insert@ == difference_of(new_tags@, old_tags@),
        changes.to_delete@ == difference_of(old_tags@, new_tags@),
        changes.inserted() == tag_set(new_tags@).difference(tag_set(old_tags@)),
        changes.deleted() == tag_set(old_tags@).difference(tag_set(new_tags@)),
        changes.to_insert@.no_duplicates(),
        changes.to_delete@.no_duplicates(),
        changes.to_insert@.len() == tag_set(new_tags@).difference(tag_set(old_tags@)).len(),
        changes.to_delete@.len() == tag_set(old_tags@).difference(tag_set(new_tags@)).len(),
        apply_changes(tag_set(old_tags@), changes.inserted(), changes.deleted()) == tag_set(
            new_tags@,
        ),
        tag_set(old_tags@) == tag_set(new_tags@) ==> changes.to_insert@.len() == 0
            && changes.to_delete@.len() == 0,
{
    let to_insert = difference(new_tags, old_tags);
    let to_delete = difference(old_tags, new_tags);
    proof {
        to_insert@.unique_seq_to_set();
        to_delete@.unique_seq_to_set();
        lemma_reconcile_reaches_target(tag_set(old_tags@), tag_set(new_tags@));
        if tag_set(old_tags@) == tag_set(new_tags@) {
            lemma_reconcile_same_is_empty(tag_set(old_tags@));
        }
    }
    TagChanges { to_insert, to_delete }
}

/// What `difference_of` lists is, as a set, the first set without the
/// second, and it lists nothing twice.
pub proof fn lemma_difference_of(keep: Seq<i32>, drop: Seq<i32>)
    ensures
        tag_set(difference_of(keep, drop)) == tag_set(keep).difference(tag_set(drop)),
        difference_of(keep, drop).no_duplicates(),
    decreases keep.len(),
{
    if keep.len() == 0 {
        assert(tag_set(difference_of(keep, drop)) =~= tag_set(keep).difference(tag_set(drop)));
    } else {
        let front = keep.drop_last();
        let x = keep.last();
        let rest = difference_of(front, drop);
        lemma_difference_of(front, drop);
        assert(keep == front.push(x));
        lemma_to_set_push(front, x);
        lemma_to_set_push(rest, x);
        if drop.contains(x) || rest.contains(x) {
            assert(tag_set(rest) =~= tag_set(keep).difference(tag_set(drop)));
        } else {
            assert(tag_set(rest.push(x)) =~= tag_set(keep).difference(tag_set(drop)));
            assert(!rest.contains(x));
        }
    }
}

/// The set of a list with one more element is the set of the list with that
/// element added.
pub proof fn lemma_to_set_push(s: Seq<i32>, x: i32)
    ensures
        s.push(x).to_set() == s.to_set().insert(x),
{
    assert forall|y: i32| s.push(x).to_set().contains(y) <==> s.to_set().insert(x).contains(y) by {
        if s.push(x).contains(y) {
            let k = choose|k: int| 0 <= k < s.push(x).len() && s.push(x)[k] == y;
            if k < s.len() {
                assert(s[k] == y);
                assert(s.contains(y));
            }
        }
        if s.contains(y) {
            let k = choose|k: int| 0 <= k < s.len() && s[k] == y;
            assert(s.push(x)[k] == y);
        }
        if y == x {
            assert(s.push(x)[s.len() as int] == x);
        }
    }
    assert(s.push(x).to_set() =~= s.to_set().insert(x));
}

/// Adding what reconciliation inserts to the stored set and removing what it
/// deletes gives exactly the desired set.
pub proof fn lemma_reconcile_reaches_target(stored: Set<i32>, desired: Set<i32>)
    ensures
        apply_changes(stored, desired.difference(stored), stored.difference(desired)) == desired,
{
    assert(apply_changes(stored, desired.difference(stored), stored.difference(desired)) =~= desired);
}

/// Reconciling a set with itself inserts nothing and deletes nothing.
pub proof fn lemma_reconcile_same_is_empty(tags: Set<i32>)
    ensures
        tags.difference(tags) == Set::<i32>::empty(),
{
    assert(tags.difference(tags) =~= Set::<i32>::empty());
}

/// Reconciliation is minimal: it inserts nothing that is stored, deletes only
/// what is stored, and never both inserts and deletes a tag.
pub proof fn lemma_reconcile_is_minimal(stored: Set<i32>, desired: Set<i32>)
    ensures
        desired.difference(stored).disjoint(stored),
        stored.difference(desired).subset_of(stored),
        desired.difference(stored).disjoint(stored.difference(desired)),
{
}

} // verus!
