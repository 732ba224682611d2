//! Grouping the rows of a second query under the parents of a page.

use vstd::prelude::*;
use vstd::string::StringExecFns;
use std::collections::HashMap;

verus! {

/// A row that children belong to.
pub trait Parent {
    /// The identifier of the row.
    spec fn key(&self) -> i32;

    /// The identifier of the row.
    fn id(&self) -> (id: i32)
        ensures
            id == self.key(),
    ;
}

/// A row that ties a child to its parent.
pub trait JoinRow {
    /// The identifier of the parent that the row points to.
    spec fn parent_key(&self) -> i32;

    /// The identifier of the parent that the row points to.
    fn foreign_key(&self) -> (key: i32)
        ensures
            key == self.parent_key(),
    ;
}

/// A bare parent identifier ties the child beside it to that parent.
impl JoinRow for i32 {
    open spec fn parent_key(&self) -> i32 {
        *self
    }

    fn foreign_key(&self) -> (key: i32) {
        *self
    }
}

/// The identifiers of a list of parents, in the order of the list.
pub open spec fn keys_of<P: Parent>(parents: Seq<P>) -> Seq<i32> {
    Seq::new(parents.len(), |i: int| parents[i].key())
}

/// The position of the parent that rows with the foreign key `key` belong to:
/// the last position in `keys` that holds `key`, and none where `key` does not
/// occur.
pub open spec fn owner(keys: Seq<i32>, key: i32) -> Option<int>
    decreases keys.len(),
{
    if keys.len() == 0 {
        None
    } else if keys.last() == key {
        Some(keys.len() - 1)
    } else {
        owner(keys.drop_last(), key)
    }
}

/// The children that belong to the parent at position `parent`, in the order
/// in which `joined` holds them.
pub open spec fn children_of<J: JoinRow, C>(
    keys: Seq<i32>,
    joined: Seq<(J, C)>,
    parent: int,
) -> Seq<C>
    decreases joined.len(),
{
    if joined.len() == 0 {
        Seq::empty()
    } else {
        let before = children_of(keys, joined.drop_last(), parent);
        if owner(keys, joined.last().0.parent_key()) == Some(parent) {
            before.push(joined.last().1)
        } else {
            before
        }
    }
}

/// Whether every joined row points to one of the parents.
pub open spec fn correlated<J: JoinRow, C>(keys: Seq<i32>, joined: Seq<(J, C)>) -> bool {
    forall|j: int|
        0 <= j < joined.len() ==> owner(keys, #[trigger] joined[j].0.parent_key()) is Some
}

/// Whether `groups` holds every parent once, in the order of `parents`, each
/// beside the children that belong to it.
pub open spec fn is_grouping<P: Parent, J: JoinRow, C>(
    groups: Seq<(P, Vec<C>)>,
    parents: Seq<P>,
    joined: Seq<(J, C)>,
) -> bool {
    &&& groups.len() == parents.len()
    &&& forall|i: int|
        0 <= i < parents.len() ==> (#[trigger] groups[i]).0 == parents[i] && groups[i].1@
            == children_of(keys_of(parents), joined, i)
}

/// The number of children under the first `count` parents.
pub open spec fn children_under<J: JoinRow, C>(
    keys: Seq<i32>,
    joined: Seq<(J, C)>,
    count: int,
) -> int
    decreases count,
{
    if count <= 0 {
        0
    } else {
        children_under(keys, joined, count - 1) + children_of(keys, joined, count - 1).len()
    }
}

/// A joined row that points to none of the parents it was fetched for.
#[derive(Debug, Clone, Copy, PartialEq, Eq)]
pub struct GroupingError {
    /// The position of the row among the joined rows.
    pub position: usize,
    /// The parent identifier that the row points to.
    pub foreign_key: i32,
}

impl GroupingError {
    /// Whether this error names the first joined row that points to none of
    /// the parents.
    pub open spec fn names_first_stray<J: JoinRow, C>(
        &self,
        keys: Seq<i32>,
        joined: Seq<(J, C)>,
    ) -> bool {
        &&& self.position < joined.len()
        &&& self.foreign_key == joined[self.position as int].0.parent_key()
        &&& owner(keys, self.foreign_key) is None
        &&& forall|j: int|
            0 <= j < self.position ==> owner(keys, #[trigger] joined[j].0.parent_key()) is Some
    }

    /// The cause in words.
    pub fn cause(&self) -> (text: String)
        ensures
            text@ == "a child row refers to a parent outside the page"@,
    {
        String::from_str("a child row refers to a parent outside the page")
    }
}

/// Groups the children of `joined` under their parents.
///
/// Every parent comes back once, in the order of `parents`, with its children
/// in the order of `joined`; a parent without children comes back with an
/// empty list. Where several parents share an identifier, the last of them
/// owns the children. A joined row that points to none of the parents is an
/// error, and the first such row is reported.
pub fn group<P: Parent, J: JoinRow, C>(parents: Vec<P>, joined: Vec<(J, C)>) -> (grouped: Result<
    Vec<(P, Vec<C>)>,
    GroupingError,
>)
    ensures
        match grouped {
            Ok(groups) => correlated(keys_of(parents@), joined@) && is_grouping(
                groups@,
                parents@,
                joined@,
            ),
            Err(stray) => stray.names_first_stray(keys_of(parents@), joined@),
        },
{
    let ghost keys = keys_of(parents@);
    let mut groups: Vec<(P, Vec<C>)> = Vec::new();
    let mut index: HashMap<i32, usize> = HashMap::new();
    for parent in it: parents
        invariant
            it.seq() == parents@,
            keys == keys_of(parents@),
            groups@.len() == it.index(),
            forall|i: int|
                0 <= i < groups@.len() ==> (#[trigger] groups@[i]).0 == parents@[i] && groups@[i].1@
                    == Seq::<C>::empty(),
            forall|k: i32|
                index@.contains_key(k) <==> owner(keys.take(it.index() as int), k) is Some,
            forall|k: i32|
                index@.contains_key(k) ==> Some(#[trigger] index@[k] as int) == owner(
                    keys.take(it.index() as int),
                    k,
                ),
    {
        let ghost at = it.index() as int;
        let id: i32 = parent.id();
        assert(keys.take(at + 1).drop_last() == keys.take(at));
        assert(keys.take(at + 1).last() == id);
        index.insert(id, groups.len());
        groups.push((parent, Vec::new()));
    }
    assert(keys.take(parents@.len() as int) == keys);
    let count: usize = joined.len();
    let mut position: usize = 0;
    for pair in it: joined
        invariant
            it.seq() == joined@,
            keys == keys_of(parents@),
            position == it.index(),
            joined@.len() == count,
            groups@.len() == parents@.len(),
            forall|i: int|
                0 <= i < groups@.len() ==> (#[trigger] groups@[i]).0 == parents@[i] && groups@[i].1@
                    == children_of(keys, joined@.take(position as int), i),
            forall|j: int|
                0 <= j < position ==> owner(keys, #[trigger] joined@[j].0.parent_key()) is Some,
            forall|k: i32| index@.contains_key(k) <==> owner(keys, k) is Some,
            forall|k: i32|
                index@.contains_key(k) ==> Some(#[trigger] index@[k] as int) == owner(keys, k),
    {
        let ghost seen = joined@.take(position as int);
        let ghost next = joined@.take(position + 1);
        assert(next.drop_last() == seen);
        assert(next.last() == joined@[position as int]);
        let (row, child) = pair;
        let key: i32 = row.foreign_key();
        match index.get(&key) {
            Some(at) => {
                let at: usize = *at;
                proof {
                    lemma_owner_in_range(keys, key);
                }
                groups[at].1.push(child);
            },
            None => {
                return Err(GroupingError { position, foreign_key: key });
            },
        }
        position = position + 1;
    }
    assert(joined@.take(joined@.len() as int) == joined@);
    Ok(groups)
}

/// The owner of a key is a position of `keys` that holds the key.
pub proof fn lemma_owner_in_range(keys: Seq<i32>, key: i32)
    ensures
        owner(keys, key) matches Some(at) ==> 0 <= at < keys.len() && keys[at] == key,
    decreases keys.len(),
{
    if keys.len() > 0 && keys.last() != key {
        lemma_owner_in_range(keys.drop_last(), key);
    }
}

proof fn lemma_children_under_step<J: JoinRow, C>(keys: Seq<i32>, joined: Seq<(J, C)>, count: int)
    requires
        joined.len() > 0,
        0 <= count <= keys.len(),
    ensures
        children_under(keys, joined, count) == children_under(keys, joined.drop_last(), count) + (
        match owner(keys, joined.last().0.parent_key()) {
            Some(at) => if at < count {
                1int
            } else {
                0int
            },
            None => 0int,
        }),
    decreases count,
{
    lemma_owner_in_range(keys, joined.last().0.parent_key());
    if count > 0 {
        lemma_children_under_step(keys, joined, count - 1);
        let before = children_of(keys, joined.drop_last(), count - 1);
        assert(children_of(keys, joined, count - 1).len() == before.len() + (if owner(
            keys,
            joined.last().0.parent_key(),
        ) == Some(count - 1) {
            1int
        } else {
            0int
        }));
    }
}

/// Grouping neither loses nor repeats a child: where every joined row points
/// to one of the parents, the children under all parents together are as many
/// as the joined rows.
pub proof fn lemma_grouping_keeps_every_child<J: JoinRow, C>(keys: Seq<i32>, joined: Seq<(J, C)>)
    requires
        correlated(keys, joined),
    ensures
        children_under(keys, joined, keys.len() as int) == joined.len(),
    decreases joined.len(),
{
    if joined.len() == 0 {
        lemma_no_rows_no_children::<J, C>(keys, joined, keys.len() as int);
    } else {
        let before = joined.drop_last();
        assert forall|j: int| 0 <= j < before.len() implies owner(
            keys,
            #[trigger] before[j].0.parent_key(),
        ) is Some by {
            assert(before[j] == joined[j]);
        }
        lemma_grouping_keeps_every_child(keys, before);
        lemma_children_under_step(keys, joined, keys.len() as int);
        assert(owner(keys, joined[joined.len() - 1].0.parent_key()) is Some);
        lemma_owner_in_range(keys, joined.last().0.parent_key());
    }
}

proof fn lemma_no_rows_no_children<J: JoinRow, C>(keys: Seq<i32>, joined: Seq<(J, C)>, count: int)
    requires
        joined.len() == 0,
    ensures
        children_under(keys, joined, count) == 0,
    decreases count,
{
    if count > 0 {
        lemma_no_rows_no_children(keys, joined, count - 1);
    }
}

/// A parent whose identifier no joined row points to has an empty list of
/// children.
pub proof fn lemma_childless_parent<J: JoinRow, C>(keys: Seq<i32>, joined: Seq<(J, C)>, parent: int)
    requires
        0 <= parent < keys.len(),
        forall|j: int|
            0 <= j < joined.len() ==> #[trigger] joined[j].0.parent_key() != keys[parent],
    ensures
        children_of(keys, joined, parent) == Seq::<C>::empty(),
    decreases joined.len(),
{
    if joined.len() > 0 {
        let before = joined.drop_last();
        assert forall|j: int| 0 <= j < before.len() implies #[trigger] before[j].0.parent_key()
            != keys[parent] by {
            assert(before[j] == joined[j]);
        }
        lemma_childless_parent(keys, before, parent);
        assert(joined[joined.len() - 1].0.parent_key() != keys[parent]);
        lemma_owner_in_range(keys, joined.last().0.parent_key());
    }
}

/// The children of a parent keep the order of the joined rows: each child of
/// the list stands in `joined` behind the one before it.
pub proof fn lemma_children_in_joined_order<J: JoinRow, C>(
    keys: Seq<i32>,
    joined: Seq<(J, C)>,
    parent: int,
) -> (places: Seq<int>)
    ensures
        places.len() == children_of(keys, joined, parent).len(),
        forall|c: int|
            0 <= c < places.len() ==> {
                &&& 0 <= #[trigger] places[c] < joined.len()
                &&& joined[places[c]].1 == children_of(keys, joined, parent)[c]
                &&& owner(keys, joined[places[c]].0.parent_key()) == Some(parent)
            },
        forall|c: int, d: int| 0 <= c < d < places.len() ==> places[c] < places[d],
    decreases joined.len(),
{
    if joined.len() == 0 {
        Seq::empty()
    } else {
        let before = lemma_children_in_joined_order(keys, joined.drop_last(), parent);
        if owner(keys, joined.last().0.parent_key()) == Some(parent) {
            before.push(joined.len() - 1)
        } else {
            before
        }
    }
}

/// The number of children in the first `count` groups.
pub open spec fn children_in<P, C>(groups: Seq<(P, Vec<C>)>, count: int) -> int
    decreases count,
{
    if count <= 0 {
        0
    } else {
        children_in(groups, count - 1) + groups[count - 1].1@.len()
    }
}

proof fn lemma_children_in_groups<P: Parent, J: JoinRow, C>(
    groups: Seq<(P, Vec<C>)>,
    parents: Seq<P>,
    joined: Seq<(J, C)>,
    count: int,
)
    requires
        is_grouping(groups, parents, joined),
        0 <= count <= parents.len(),
    ensures
        children_in(groups, count) == children_under(keys_of(parents), joined, count),
    decreases count,
{
    if count > 0 {
        lemma_children_in_groups(groups, parents, joined, count - 1);
        assert(groups[count - 1].1@ == children_of(keys_of(parents), joined, count - 1));
    }
}

/// A grouping of rows that all point to one of the parents holds as many
/// groups as there are parents, the parents in their order, and in all groups
/// together as many children as there are joined rows.
pub proof fn lemma_grouping_is_complete<P: Parent, J: JoinRow, C>(
    groups: Seq<(P, Vec<C>)>,
    parents: Seq<P>,
    joined: Seq<(J, C)>,
)
    requires
        is_grouping(groups, parents, joined),
        correlated(keys_of(parents), joined),
    ensures
        groups.len() == parents.len(),
        forall|i: int| 0 <= i < parents.len() ==> (#[trigger] groups[i]).0 == parents[i],
        children_in(groups, groups.len() as int) == joined.len(),
{
    lemma_children_in_groups(groups, parents, joined, parents.len() as int);
    lemma_grouping_keeps_every_child(keys_of(parents), joined);
}

} // verus!
