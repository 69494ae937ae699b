//! The tables of the mapping store, held in memory, and what is common to
//! their lookups.

pub mod event_store;
pub mod message_store;
pub mod organization_store;
pub mod reaction_store;
pub mod room_store;
pub mod user_store;

pub use self::event_store::EventStore;
pub use self::message_store::MessageStore;
pub use self::organization_store::OrganizationStore;
pub use self::reaction_store::ReactionStore;
pub use self::room_store::RoomStore;
pub use self::user_store::UserStore;

use vstd::prelude::*;

verus! {

/// The first row of `rows` that satisfies `p`.
pub open spec fn find_first<R>(rows: Seq<R>, p: spec_fn(R) -> bool) -> Option<R>
    decreases rows.len(),
{
    if rows.len() == 0 {
        None
    } else if p(rows[0]) {
        Some(rows[0])
    } else {
        find_first(rows.skip(1), p)
    }
}

/// The rows of `rows` that do not satisfy `p`, in their order.
pub open spec fn without<R>(rows: Seq<R>, p: spec_fn(R) -> bool) -> Seq<R> {
    rows.filter(|r: R| !p(r))
}

/// Whether at most one row of `rows` satisfies `p`.
pub open spec fn at_most_one<R>(rows: Seq<R>, p: spec_fn(R) -> bool) -> bool {
    forall|i: int, j: int|
        0 <= i < rows.len() && 0 <= j < rows.len() && p(#[trigger] rows[i]) && p(#[trigger] rows[j])
            ==> i == j
}

/// Whether `found` is the position of the first row of `rows` that
/// satisfies `p`: short of it no row satisfies `p`, and `None` means that
/// no row does.
pub open spec fn is_first_match<R>(
    rows: Seq<R>,
    p: spec_fn(R) -> bool, found: Option<usize>,
) -> bool {
    match found {
        Some(i) => {
            &&& i < rows.len()
            &&& p(rows[i as int])
            &&& forall|k: int| 0 <= k < i ==> !p(#[trigger] rows[k])
        },
        None => forall|k: int| 0 <= k < rows.len() ==> !p(#[trigger] rows[k]),
    }
}

/// The row at a position, if there is a position.
pub open spec fn row_at<R>(rows: Seq<R>, found: Option<usize>) -> Option<R> {
    match found {
        Some(i) => Some(rows[i as int]),
        None => None,
    }
}

/// What `find_first` finds is a row that satisfies the predicate; where it
/// finds nothing, no row does.
pub proof fn lemma_find_first<R>(rows: Seq<R>, p: spec_fn(R) -> bool)
    ensures
        match find_first(rows, p) {
            Some(r) => rows.contains(r) && p(r),
            None => forall|i: int| 0 <= i < rows.len() ==> !p(#[trigger] rows[i]),
        },
    decreases rows.len(),
{
    if rows.len() != 0 && !p(rows[0]) {
        let rest = rows.skip(1);
        lemma_find_first(rest, p);
        match find_first(rest, p) {
            Some(r) => {
                let k = choose|k: int| 0 <= k < rest.len() && rest[k] == r;
                assert(rows[k + 1] == r);
            },
            None => {
                assert forall|i: int| 0 <= i < rows.len() implies !p(#[trigger] rows[i]) by {
                    if i > 0 {
                        assert(rest[i - 1] == rows[i]);
                    }
                }
            },
        }
    } else if rows.len() != 0 {
        assert(rows[0] == rows[0]);
    }
}

/// Where no row before position `i` satisfies the predicate and the row at
/// `i` does, `find_first` finds that row.
pub proof fn lemma_find_first_at<R>(rows: Seq<R>, p: spec_fn(R) -> bool, i: int)
    requires
        0 <= i < rows.len(),
        p(rows[i]),
        forall|k: int| 0 <= k < i ==> !p(#[trigger] rows[k]),
    ensures
        find_first(rows, p) == Some(rows[i]),
    decreases rows.len(),
{
    if i > 0 {
        let rest = rows.skip(1);
        assert forall|k: int| 0 <= k < i - 1 implies !p(#[trigger] rest[k]) by {
            assert(rest[k] == rows[k + 1]);
        }
        assert(rest[i - 1] == rows[i]);
        lemma_find_first_at(rest, p, i - 1);
    }
}

/// Where no row satisfies the predicate, `find_first` finds nothing.
pub proof fn lemma_find_first_none<R>(rows: Seq<R>, p: spec_fn(R) -> bool)
    requires
        forall|k: int| 0 <= k < rows.len() ==> !p(#[trigger] rows[k]),
    ensures
        find_first(rows, p) is None,
    decreases rows.len(),
{
    if rows.len() != 0 {
        let rest = rows.skip(1);
        assert forall|k: int| 0 <= k < rest.len() implies !p(#[trigger] rest[k]) by {
            assert(rest[k] == rows[k + 1]);
        }
        lemma_find_first_none(rest, p);
    }
}

/// After one more row is appended, `find_first` finds what it found before,
/// or the new row where it found nothing and the new row satisfies the
/// predicate.
pub proof fn lemma_find_first_push<R>(rows: Seq<R>, p: spec_fn(R) -> bool, row: R)
    ensures
        find_first(rows.push(row), p) == match find_first(rows, p) {
            Some(r) => Some(r),
            None => if p(row) {
                Some(row)
            } else {
                None
            },
        },
    decreases rows.len(),
{
    let more = rows.push(row);
    assert(more.len() == rows.len() + 1);
    if rows.len() == 0 {
        assert(more[0] == row);
        assert(more.skip(1) =~= Seq::<R>::empty());
        assert(find_first(more.skip(1), p) is None);
    } else {
        assert(more[0] == rows[0]);
        if !p(rows[0]) {
            assert(more.skip(1) =~= rows.skip(1).push(row));
            lemma_find_first_push(rows.skip(1), p, row);
        }
    }
}

/// Replacing a row that does not satisfy the predicate by another that
/// does not satisfy it either changes nothing of what `find_first` finds.
pub proof fn lemma_find_first_update_other<R>(rows: Seq<R>, p: spec_fn(R) -> bool, i: int, row: R)
    requires
        0 <= i < rows.len(),
        !p(rows[i]),
        !p(row),
    ensures
        find_first(rows.update(i, row), p) == find_first(rows, p),
    decreases rows.len(),
{
    let changed = rows.update(i, row);
    if i == 0 {
        assert(changed.skip(1) =~= rows.skip(1));
    } else {
        assert(changed[0] == rows[0]);
        if !p(rows[0]) {
            assert(changed.skip(1) =~= rows.skip(1).update(i - 1, row));
            lemma_find_first_update_other(rows.skip(1), p, i - 1, row);
        }
    }
}

/// Where at most one row satisfies the predicate, `find_first` finds every
/// row that does.
pub proof fn lemma_find_first_unique<R>(rows: Seq<R>, p: spec_fn(R) -> bool, i: int)
    requires
        0 <= i < rows.len(),
        p(rows[i]),
        at_most_one(rows, p),
    ensures
        find_first(rows, p) == Some(rows[i]),
{
    assert forall|k: int| 0 <= k < i implies !p(#[trigger] rows[k]) by {
        if p(rows[k]) {
            assert(k == i);
        }
    }
    lemma_find_first_at(rows, p, i);
}

/// Removing the row at position `i`, the only one that satisfies the
/// predicate, leaves the rows that do not satisfy it.
pub proof fn lemma_remove_is_without<R>(rows: Seq<R>, p: spec_fn(R) -> bool, i: int)
    requires
        0 <= i < rows.len(),
        p(rows[i]),
        at_most_one(rows, p),
    ensures
        rows.remove(i) == without(rows, p),
    decreases rows.len(),
{
    let q = |r: R| !p(r);
    reveal(Seq::filter);
    if rows.len() == 1 {
        assert(rows.drop_last() =~= Seq::<R>::empty());
        assert(rows.remove(i) =~= Seq::<R>::empty());
    } else if i == rows.len() - 1 {
        let head = rows.drop_last();
        assert forall|k: int| 0 <= k < head.len() implies !p(#[trigger] head[k]) by {
            assert(head[k] == rows[k]);
            if p(rows[k]) {
                assert(k == i);
            }
        }
        lemma_filter_keeps_all(head, q);
        assert(rows.remove(i) =~= head);
    } else {
        let head = rows.drop_last();
        assert(head[i] == rows[i]);
        assert forall|a: int, b: int|
            0 <= a < head.len() && 0 <= b < head.len() && p(#[trigger] head[a]) && p(
                #[trigger] head[b],
            ) implies a == b by {
            assert(head[a] == rows[a]);
            assert(head[b] == rows[b]);
        }
        lemma_remove_is_without(head, p, i);
        let last = rows.last();
        if p(last) {
            assert(rows[rows.len() - 1] == last);
            assert(false);
        }
        assert(rows.remove(i) =~= head.remove(i).push(last));
    }
}

/// The position of the first match is where `find_first` finds its row.
pub proof fn lemma_first_match<R>(rows: Seq<R>, p: spec_fn(R) -> bool, found: Option<usize>)
    requires
        is_first_match(rows, p, found),
    ensures
        find_first(rows, p) == row_at(rows, found),
{
    match found {
        Some(i) => {
            lemma_find_first_at(rows, p, i as int);
        },
        None => {
            lemma_find_first_none(rows, p);
        },
    }
}

/// Where at most one row satisfies the predicate, removing the row at the
/// position of the first match, if there is one, leaves the rows that do
/// not satisfy it.
pub proof fn lemma_remove_first_match<R>(rows: Seq<R>, p: spec_fn(R) -> bool, found: Option<usize>)
    requires
        is_first_match(rows, p, found),
        at_most_one(rows, p),
    ensures
        without(rows, p) == match found {
            Some(i) => rows.remove(i as int),
            None => rows,
        },
{
    match found {
        Some(i) => {
            lemma_remove_is_without(rows, p, i as int);
        },
        None => {
            lemma_without_nothing(rows, p);
        },
    }
}

/// Filtering by a predicate that every row satisfies keeps all rows.
pub proof fn lemma_filter_keeps_all<R>(rows: Seq<R>, q: spec_fn(R) -> bool)
    requires
        forall|k: int| 0 <= k < rows.len() ==> q(#[trigger] rows[k]),
    ensures
        rows.filter(q) == rows,
    decreases rows.len(),
{
    reveal(Seq::filter);
    if rows.len() != 0 {
        let head = rows.drop_last();
        assert forall|k: int| 0 <= k < head.len() implies q(#[trigger] head[k]) by {
            assert(head[k] == rows[k]);
        }
        lemma_filter_keeps_all(head, q);
        assert(head.push(rows.last()) =~= rows);
    }
}

/// Filtering one row more either adds that row or changes nothing.
pub proof fn lemma_filter_take_step<R>(rows: Seq<R>, p: spec_fn(R) -> bool, i: int)
    requires
        0 <= i < rows.len(),
    ensures
        rows.take(i + 1).filter(p) == if p(rows[i]) {
            rows.take(i).filter(p).push(rows[i])
        } else {
            rows.take(i).filter(p)
        },
{
    reveal(Seq::filter);
    assert(rows.take(i + 1).drop_last() =~= rows.take(i));
    assert(rows.take(i + 1).last() == rows[i]);
}

/// Taking the rows that satisfy a predicate away from one row more either
/// drops that row or keeps it.
pub proof fn lemma_without_take_step<R>(rows: Seq<R>, p: spec_fn(R) -> bool, i: int)
    requires
        0 <= i < rows.len(),
    ensures
        without(rows.take(i + 1), p) == if p(rows[i]) {
            without(rows.take(i), p)
        } else {
            without(rows.take(i), p).push(rows[i])
        },
{
    lemma_filter_take_step(rows, |r: R| !p(r), i);
}

/// Where no row satisfies the predicate, taking away those that do changes
/// nothing.
pub proof fn lemma_without_nothing<R>(rows: Seq<R>, p: spec_fn(R) -> bool)
    requires
        forall|k: int| 0 <= k < rows.len() ==> !p(#[trigger] rows[k]),
    ensures
        without(rows, p) == rows,
{
    lemma_filter_keeps_all(rows, |r: R| !p(r));
}

} // verus!
