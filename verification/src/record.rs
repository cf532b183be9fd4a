//! Rows with a natural key, and the rule that the latest sighting of a key
//! wins within one batch.

use vstd::prelude::*;

verus! {

/// A row of a keyed relation.
///
/// The natural key identifies the logical entity across sightings. When a row
/// arrives whose key the store already holds, the stored row takes over the
/// fields that `merged` says it takes and keeps the rest.
pub trait Record: View + Sized {
    /// The natural key.
    type Key;

    /// The natural key of a row.
    spec fn key_of(row: Self::V) -> Self::Key;

    /// The stored row after `incoming` met `existing` under the same key.
    spec fn merged(existing: Self::V, incoming: Self::V) -> Self::V;

    /// Merging never changes the key of the stored row.
    proof fn lemma_merged_keeps_key(existing: Self::V, incoming: Self::V)
        requires
            Self::key_of(existing) == Self::key_of(incoming),
        ensures
            Self::key_of(Self::merged(existing, incoming)) == Self::key_of(existing),
    ;

    /// Whether two rows have the same natural key.
    fn same_key(&self, other: &Self) -> (r: bool)
        ensures
            r == (Self::key_of(self@) == Self::key_of(other@)),
    ;

    /// Takes over from `incoming` what a later sighting overwrites.
    fn merge(&mut self, incoming: &Self)
        ensures
            final(self)@ == Self::merged(old(self)@, incoming@),
    ;

    /// A copy of the row.
    fn duplicate(&self) -> (r: Self)
        ensures
            r@ == self@,
    ;
}

/// The views of a sequence of values, one for one.
pub open spec fn views<T: View>(items: Seq<T>) -> Seq<T::V> {
    Seq::new(items.len(), |i: int| items[i]@)
}

/// The last row of `rows` that has the key `key`.
pub open spec fn last_with_key<R: Record>(rows: Seq<R::V>, key: R::Key) -> Option<R::V>
    decreases rows.len(),
{
    if rows.len() == 0 {
        None
    } else if R::key_of(rows.last()) == key {
        Some(rows.last())
    } else {
        last_with_key::<R>(rows.drop_last(), key)
    }
}

/// Whether some row of `rows` has the key `key`.
pub open spec fn has_key<R: Record>(rows: Seq<R::V>, key: R::Key) -> bool {
    last_with_key::<R>(rows, key) is Some
}

/// No two rows share a key.
pub open spec fn distinct_keys<R: Record>(rows: Seq<R::V>) -> bool {
    forall|i: int, j: int|
        0 <= i < j < rows.len() ==> R::key_of(#[trigger] rows[i]) != R::key_of(#[trigger] rows[j])
}

/// A batch reduced to the latest row of each key. The rows come out with the
/// last row of the batch first: a row is kept only if no later row has its
/// key.
pub open spec fn latest_wins<R: Record>(rows: Seq<R::V>) -> Seq<R::V>
    decreases rows.len(),
{
    if rows.len() == 0 {
        Seq::empty()
    } else {
        let rest = latest_wins::<R>(rows.drop_first());
        if has_key::<R>(rows.drop_first(), R::key_of(rows[0])) {
            rest
        } else {
            rest.push(rows[0])
        }
    }
}

/// What `last_with_key` finds is a row of the batch with the key asked for,
/// and no later row has that key; it finds nothing only if no row has it.
pub proof fn lemma_last_with_key<R: Record>(rows: Seq<R::V>, key: R::Key)
    ensures
        match last_with_key::<R>(rows, key) {
            Some(row) => R::key_of(row) == key && exists|j: int|
                0 <= j < rows.len() && #[trigger] rows[j] == row && forall|l: int|
                    j < l < rows.len() ==> R::key_of(#[trigger] rows[l]) != key,
            None => forall|j: int| 0 <= j < rows.len() ==> R::key_of(#[trigger] rows[j]) != key,
        },
    decreases rows.len(),
{
    if rows.len() == 0 {
    } else if R::key_of(rows.last()) == key {
        assert(rows[rows.len() - 1] == rows.last());
    } else {
        let front = rows.drop_last();
        lemma_last_with_key::<R>(front, key);
        match last_with_key::<R>(front, key) {
            Some(row) => {
                let j = choose|j: int|
                    0 <= j < front.len() && #[trigger] front[j] == row && forall|l: int|
                        j < l < front.len() ==> R::key_of(#[trigger] front[l]) != key;
                assert(rows[j] == row);
                assert forall|l: int| j < l < rows.len() implies R::key_of(#[trigger] rows[l])
                    != key by {
                    if l < front.len() {
                        assert(front[l] == rows[l]);
                    }
                }
            },
            None => {
                assert forall|j: int| 0 <= j < rows.len() implies R::key_of(#[trigger] rows[j])
                    != key by {
                    if j < front.len() {
                        assert(front[j] == rows[j]);
                    }
                }
            },
        }
    }
}

/// A row in front of a batch is found only where the batch itself has no row
/// with the key.
pub proof fn lemma_last_with_key_front<R: Record>(first: R::V, rest: Seq<R::V>, key: R::Key)
    ensures
        last_with_key::<R>(seq![first] + rest, key) == match last_with_key::<R>(rest, key) {
            Some(row) => Some(row),
            None => if R::key_of(first) == key {
                Some(first)
            } else {
                None
            },
        },
    decreases rest.len(),
{
    let all = seq![first] + rest;
    if rest.len() == 0 {
        assert(all.last() == first);
        assert(all.drop_last() =~= Seq::<R::V>::empty());
        assert(last_with_key::<R>(all.drop_last(), key) is None);
        assert(last_with_key::<R>(rest, key) is None);
    } else {
        assert(all.last() == rest.last());
        assert(all.drop_last() =~= seq![first] + rest.drop_last());
        lemma_last_with_key_front::<R>(first, rest.drop_last(), key);
        if R::key_of(rest.last()) != key {
            assert(last_with_key::<R>(all, key) == last_with_key::<R>(all.drop_last(), key));
            assert(last_with_key::<R>(rest, key) == last_with_key::<R>(rest.drop_last(), key));
        }
    }
}

/// Latest-wins keeps exactly one row for each key of the batch, and it is the
/// last row of the batch with that key.
pub proof fn lemma_latest_wins<R: Record>(rows: Seq<R::V>)
    ensures
        distinct_keys::<R>(latest_wins::<R>(rows)),
        forall|key: R::Key|
            #[trigger] last_with_key::<R>(latest_wins::<R>(rows), key) == last_with_key::<R>(
                rows,
                key,
            ),
    decreases rows.len(),
{
    if rows.len() == 0 {
    } else {
        let first = rows[0];
        let rest = rows.drop_first();
        let kept = latest_wins::<R>(rest);
        lemma_latest_wins::<R>(rest);
        assert(rows =~= seq![first] + rest);
        assert forall|key: R::Key|
            #[trigger] last_with_key::<R>(latest_wins::<R>(rows), key) == last_with_key::<R>(
                rows,
                key,
            ) by {
            lemma_last_with_key_front::<R>(first, rest, key);
            assert(last_with_key::<R>(kept, key) == last_with_key::<R>(rest, key));
            if !has_key::<R>(rest, R::key_of(first)) {
                assert(kept.push(first).last() == first);
                assert(kept.push(first).drop_last() =~= kept);
            }
        }
        if !has_key::<R>(rest, R::key_of(first)) {
            let out = kept.push(first);
            assert(last_with_key::<R>(kept, R::key_of(first)) == last_with_key::<R>(
                rest,
                R::key_of(first),
            ));
            lemma_last_with_key::<R>(kept, R::key_of(first));
            assert forall|i: int, j: int| 0 <= i < j < out.len() implies R::key_of(
                #[trigger] out[i],
            ) != R::key_of(#[trigger] out[j]) by {
                if j < kept.len() {
                    assert(out[i] == kept[i] && out[j] == kept[j]);
                } else {
                    assert(out[i] == kept[i]);
                }
            }
        }
    }
}

/// The place of the first row with the key of `probe`, if `rows` has one.
pub fn position_of<R: Record>(rows: &Vec<R>, probe: &R) -> (r: Option<usize>)
    ensures
        match r {
            Some(at) => at < rows@.len() && R::key_of(rows@[at as int]@) == R::key_of(probe@)
                && forall|j: int|
                0 <= j < at ==> R::key_of((#[trigger] rows@[j])@) != R::key_of(probe@),
            None => !has_key::<R>(views(rows@), R::key_of(probe@)),
        },
{
    let mut i: usize = 0;
    while i < rows.len()
        invariant
            i <= rows@.len(),
            forall|j: int| 0 <= j < i ==> R::key_of((#[trigger] rows@[j])@) != R::key_of(probe@),
        decreases rows@.len() - i,
    {
        if rows[i].same_key(probe) {
            return Some(i);
        }
        i = i + 1;
    }
    proof {
        lemma_last_with_key::<R>(views(rows@), R::key_of(probe@));
        if has_key::<R>(views(rows@), R::key_of(probe@)) {
            let row = last_with_key::<R>(views(rows@), R::key_of(probe@))->0;
            let j = choose|j: int| 0 <= j < views(rows@).len() && #[trigger] views(rows@)[j] == row;
            assert(rows@[j]@ == row);
        }
    }
    None
}

/// Reduces a batch to the latest row of each key.
pub fn dedup_latest<R: Record>(rows: Vec<R>) -> (out: Vec<R>)
    ensures
        views(out@) == latest_wins::<R>(views(rows@)),
        forall|i: int| 0 <= i < out@.len() ==> rows@.contains(#[trigger] out@[i]),
{
    let mut rest = rows;
    let mut out: Vec<R> = Vec::new();
    assert(views(rows@).subrange(rows@.len() as int, rows@.len() as int) =~= Seq::<R::V>::empty());
    while rest.len() > 0
        invariant
            rest@.len() <= rows@.len(),
            rest@ == rows@.subrange(0, rest@.len() as int),
            views(out@) == latest_wins::<R>(
                views(rows@).subrange(rest@.len() as int, rows@.len() as int),
            ),
            forall|i: int| 0 <= i < out@.len() ==> rows@.contains(#[trigger] out@[i]),
        decreases rest@.len(),
    {
        let ghost done = views(rows@).subrange(rest@.len() as int, rows@.len() as int);
        let ghost next = views(rows@).subrange(rest@.len() - 1, rows@.len() as int);
        let row = rest.pop().unwrap();
        let seen = position_of(&out, &row);
        proof {
            assert(row == rows@[rest@.len() as int]);
            assert(row@ == next[0]);
            assert(next.drop_first() =~= done);
            lemma_latest_wins::<R>(done);
            assert(last_with_key::<R>(latest_wins::<R>(done), R::key_of(row@))
                == last_with_key::<R>(done, R::key_of(row@)));
            if seen is Some {
                lemma_last_with_key::<R>(views(out@), R::key_of(row@));
                assert(views(out@)[seen->0 as int] == out@[seen->0 as int]@);
            }
        }
        if seen.is_none() {
            out.push(row);
            assert(views(out@) =~= latest_wins::<R>(done).push(row@));
        }
    }
    assert(views(rows@).subrange(0, rows@.len() as int) =~= views(rows@));
    out
}

} // verus!
