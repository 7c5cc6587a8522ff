//! The set of message identifiers that were already forwarded.

use vstd::hash_set::StringHashSet;
use vstd::prelude::*;

verus! {

/// Identifiers of the messages forwarded since the last reset.
///
/// The set only grows between two resets: clearing it is the one way an
/// identifier leaves. With a long reset interval on a busy topic it therefore
/// holds every identifier seen in that interval.
///
/// Both operations take `&mut self`, so each is exclusive of every other
/// access. A program that shares the store between threads puts it behind a
/// lock and holds the lock for one call.
pub struct DedupStore {
    seen: StringHashSet,
}

impl View for DedupStore {
    type V = Set<Seq<char>>;

    closed spec fn view(&self) -> Set<Seq<char>> {
        self.seen@
    }
}

impl DedupStore {
    /// A store that has seen nothing.
    pub fn new() -> (store: Self)
        ensures
            store@ == Set::<Seq<char>>::empty(),
    {
        DedupStore { seen: StringHashSet::new() }
    }

    /// Tells whether `id` was seen since the last reset, and marks it as seen.
    ///
    /// `true` means a duplicate, to be dropped; `false` means that the
    /// identifier is new and its message is to be forwarded.
    pub fn check_and_mark(&mut self, id: &str) -> (duplicate: bool)
        ensures
            duplicate == old(self)@.contains(id@),
            final(self)@ == old(self)@.insert(id@),
    {
        let duplicate = self.seen.contains(id);
        if !duplicate {
            let owned = id.to_owned();
            self.seen.insert(owned);
        }
        duplicate
    }

    /// Forgets every identifier: the reset that ends a dedup window.
    pub fn clear(&mut self)
        ensures
            final(self)@ == Set::<Seq<char>>::empty(),
    {
        self.seen.clear();
    }
}

/// The store after the identifiers `ids` were submitted, in order, to a store
/// that held `seen`.
pub open spec fn marked(seen: Set<Seq<char>>, ids: Seq<Seq<char>>) -> Set<Seq<char>>
    decreases ids.len(),
{
    if ids.len() == 0 {
        seen
    } else {
        marked(seen, ids.drop_last()).insert(ids.last())
    }
}

/// The identifiers that were new when `ids` were submitted, in order, to a
/// store that held `seen`: those whose messages are forwarded.
pub open spec fn forwarded(seen: Set<Seq<char>>, ids: Seq<Seq<char>>) -> Seq<Seq<char>>
    decreases ids.len(),
{
    if ids.len() == 0 {
        Seq::empty()
    } else if marked(seen, ids.drop_last()).contains(ids.last()) {
        forwarded(seen, ids.drop_last())
    } else {
        forwarded(seen, ids.drop_last()).push(ids.last())
    }
}

/// Whether `ids` holds at position `at` an identifier that it does not hold
/// before that position.
pub open spec fn first_sighting(ids: Seq<Seq<char>>, at: int) -> bool {
    0 <= at < ids.len() && forall|j: int| 0 <= j < at ==> ids[j] != ids[at]
}

/// A sequence holds what it holds before its last element, and that element.
proof fn lemma_contains_by_last(ids: Seq<Seq<char>>, id: Seq<char>)
    requires
        ids.len() > 0,
    ensures
        ids.contains(id) <==> ids.drop_last().contains(id) || ids.last() == id,
{
    let earlier = ids.drop_last();
    if ids.contains(id) {
        let i = choose|i: int| 0 <= i < ids.len() && ids[i] == id;
        if i < earlier.len() {
            assert(earlier[i] == id);
        }
    }
}

/// After a run of submissions the store holds what it held before and what
/// was submitted, and nothing else.
pub proof fn lemma_marked_holds_what_was_submitted(seen: Set<Seq<char>>, ids: Seq<Seq<char>>)
    ensures
        forall|id: Seq<char>| #[trigger]
            marked(seen, ids).contains(id) <==> seen.contains(id) || ids.contains(id),
    decreases ids.len(),
{
    if ids.len() > 0 {
        let earlier = ids.drop_last();
        lemma_marked_holds_what_was_submitted(seen, earlier);
        assert forall|id: Seq<char>| #[trigger]
            marked(seen, ids).contains(id) <==> seen.contains(id) || ids.contains(id) by {
            lemma_contains_by_last(ids, id);
            assert(marked(seen, earlier).contains(id) <==> seen.contains(id) || earlier.contains(
                id,
            ));
        }
    } else {
        assert forall|id: Seq<char>| !ids.contains(id) by {}
    }
}

/// A submitted message is a duplicate exactly when its identifier was in the
/// store to begin with or was submitted before it.
pub proof fn lemma_duplicate_unless_first_sighting(
    seen: Set<Seq<char>>,
    ids: Seq<Seq<char>>,
    at: int,
)
    requires
        0 <= at < ids.len(),
    ensures
        marked(seen, ids.take(at)).contains(ids[at]) <==> seen.contains(ids[at]) || !first_sighting(
            ids,
            at,
        ),
{
    let earlier = ids.take(at);
    lemma_marked_holds_what_was_submitted(seen, earlier);
    if !first_sighting(ids, at) {
        let j = choose|j: int| 0 <= j < at && ids[j] == ids[at];
        assert(earlier[j] == ids[at]);
    }
}

/// Whether `ids` holds `id`, seen from its first sighting.
spec fn sighted(ids: Seq<Seq<char>>, id: Seq<char>) -> bool {
    exists|i: int| #[trigger] first_sighting(ids, i) && ids[i] == id
}

/// Whether `ids` holds `earlier` for the first time before it holds `later`
/// for the first time.
pub open spec fn first_seen_before(ids: Seq<Seq<char>>, earlier: Seq<char>, later: Seq<char>) -> bool {
    exists|i: int, j: int|
        i < j && #[trigger] first_sighting(ids, i) && #[trigger] first_sighting(ids, j) && ids[i]
            == earlier && ids[j] == later
}

/// A first sighting stays one when the sequence grows at its end.
proof fn lemma_first_sighting_stays(ids: Seq<Seq<char>>, at: int)
    requires
        ids.len() > 0,
        first_sighting(ids.drop_last(), at),
    ensures
        first_sighting(ids, at),
        at < ids.len() - 1,
        ids[at] == ids.drop_last()[at],
{
    let earlier = ids.drop_last();
    assert forall|j: int| 0 <= j < at implies ids[j] != ids[at] by {
        assert(earlier[j] != earlier[at]);
    }
}

/// The last element is a first sighting if nothing before it equals it.
proof fn lemma_last_is_first_sighting(ids: Seq<Seq<char>>)
    requires
        ids.len() > 0,
        !ids.drop_last().contains(ids.last()),
    ensures
        first_sighting(ids, ids.len() - 1),
{
    let earlier = ids.drop_last();
    let end = ids.len() - 1;
    assert forall|j: int| 0 <= j < end implies ids[j] != ids[end] by {
        assert(earlier[j] == ids[j]);
    }
}

/// What `sighted` says of a sequence holds of the sequence grown at its end.
proof fn lemma_sighted_stays(ids: Seq<Seq<char>>, id: Seq<char>)
    requires
        ids.len() > 0,
        sighted(ids.drop_last(), id),
    ensures
        sighted(ids, id),
        first_seen_before(ids, id, ids.last()) || ids.drop_last().contains(ids.last()),
{
    let earlier = ids.drop_last();
    let i = choose|i: int| #[trigger] first_sighting(earlier, i) && earlier[i] == id;
    lemma_first_sighting_stays(ids, i);
    if !earlier.contains(ids.last()) {
        lemma_last_is_first_sighting(ids);
    }
}

/// What `first_seen_before` says of a sequence holds of the sequence grown
/// at its end.
proof fn lemma_first_seen_before_stays(ids: Seq<Seq<char>>, earlier: Seq<char>, later: Seq<char>)
    requires
        ids.len() > 0,
        first_seen_before(ids.drop_last(), earlier, later),
    ensures
        first_seen_before(ids, earlier, later),
{
    let shorter = ids.drop_last();
    let (i, j) = choose|i: int, j: int|
        i < j && #[trigger] first_sighting(shorter, i) && #[trigger] first_sighting(shorter, j)
            && shorter[i] == earlier && shorter[j] == later;
    lemma_first_sighting_stays(ids, i);
    lemma_first_sighting_stays(ids, j);
}

/// The induction behind [`lemma_forwarded_once_in_first_seen_order`]: it
/// carries along that every forwarded identifier has a first sighting.
proof fn lemma_forwarded_by_induction(seen: Set<Seq<char>>, ids: Seq<Seq<char>>)
    ensures
        forwarded(seen, ids).no_duplicates(),
        forall|id: Seq<char>| #[trigger]
            forwarded(seen, ids).contains(id) <==> ids.contains(id) && !seen.contains(id),
        forall|k: int|
            0 <= k < forwarded(seen, ids).len() ==> sighted(ids, #[trigger] forwarded(seen, ids)[k]),
        forall|a: int, b: int|
            0 <= a < b < forwarded(seen, ids).len() ==> first_seen_before(
                ids,
                #[trigger] forwarded(seen, ids)[a],
                #[trigger] forwarded(seen, ids)[b],
            ),
    decreases ids.len(),
{
    let out = forwarded(seen, ids);
    if ids.len() == 0 {
        assert forall|id: Seq<char>| !ids.contains(id) && !out.contains(id) by {}
    } else {
        let earlier = ids.drop_last();
        let before = forwarded(seen, earlier);
        let last = ids.last();
        lemma_forwarded_by_induction(seen, earlier);
        lemma_marked_holds_what_was_submitted(seen, earlier);
        let fresh = !marked(seen, earlier).contains(last);
        assert forall|id: Seq<char>| #[trigger]
            out.contains(id) <==> ids.contains(id) && !seen.contains(id) by {
            lemma_contains_by_last(ids, id);
            if fresh {
                lemma_contains_by_last(out, id);
                assert(out.drop_last() == before);
            }
        }
        assert forall|k: int| 0 <= k < out.len() implies sighted(ids, #[trigger] out[k]) by {
            if k < before.len() {
                lemma_sighted_stays(ids, before[k]);
            } else {
                lemma_last_is_first_sighting(ids);
            }
        }
        assert forall|a: int, b: int| 0 <= a < b < out.len() implies first_seen_before(
            ids,
            #[trigger] out[a],
            #[trigger] out[b],
        ) by {
            if b < before.len() {
                lemma_first_seen_before_stays(ids, before[a], before[b]);
            } else {
                lemma_sighted_stays(ids, before[a]);
            }
        }
        assert forall|a: int, b: int|
            0 <= a < out.len() && 0 <= b < out.len() && a != b implies out[a] != out[b] by {}
    }
}

/// Of a run of submissions between two resets, exactly one message is
/// forwarded for each distinct identifier that the store did not hold, and
/// the forwarded messages come in the order in which their identifiers were
/// first submitted.
pub proof fn lemma_forwarded_once_in_first_seen_order(seen: Set<Seq<char>>, ids: Seq<Seq<char>>)
    ensures
        forwarded(seen, ids).no_duplicates(),
        forall|id: Seq<char>| #[trigger]
            forwarded(seen, ids).contains(id) <==> ids.contains(id) && !seen.contains(id),
        forall|a: int, b: int|
            0 <= a < b < forwarded(seen, ids).len() ==> first_seen_before(
                ids,
                #[trigger] forwarded(seen, ids)[a],
                #[trigger] forwarded(seen, ids)[b],
            ),
{
    lemma_forwarded_by_induction(seen, ids);
}

/// An operation on the store, as the contracts see it.
pub enum StoreOp {
    /// A call of `check_and_mark` with this identifier.
    Mark(Seq<char>),
    /// A call of `clear`.
    Clear,
}

/// The store after the operations `ops` were applied, in order, to a store
/// that held `seen`.
pub open spec fn store_after(seen: Set<Seq<char>>, ops: Seq<StoreOp>) -> Set<Seq<char>>
    decreases ops.len(),
{
    if ops.len() == 0 {
        seen
    } else {
        match ops.last() {
            StoreOp::Mark(id) => store_after(seen, ops.drop_last()).insert(id),
            StoreOp::Clear => Set::empty(),
        }
    }
}

/// Whether `ops` holds a reset at position `from` or later.
pub open spec fn cleared_since(ops: Seq<StoreOp>, from: int) -> bool {
    exists|k: int| 0 <= k < ops.len() && from <= k && #[trigger] ops[k] is Clear
}

/// Whether `ops` marks `id` at some position with no reset after it.
pub open spec fn marked_since_reset(ops: Seq<StoreOp>, id: Seq<char>) -> bool {
    exists|j: int|
        0 <= j < ops.len() && #[trigger] ops[j] == StoreOp::Mark(id) && !cleared_since(ops, j)
}

/// Right after a reset every identifier is new, whatever happened before.
pub proof fn lemma_new_after_clear(seen: Set<Seq<char>>, ops: Seq<StoreOp>, id: Seq<char>)
    ensures
        !store_after(seen, ops.push(StoreOp::Clear)).contains(id),
{
}

/// However marks and resets follow one another, an identifier is in the
/// store exactly when it was marked since the last reset, or was there to
/// begin with and no reset came. So within one dedup window no repetition is
/// ever taken for new, and across a reset every identifier is.
pub proof fn lemma_held_iff_marked_since_reset(
    seen: Set<Seq<char>>,
    ops: Seq<StoreOp>,
    id: Seq<char>,
)
    ensures
        store_after(seen, ops).contains(id) <==> marked_since_reset(ops, id) || (seen.contains(id)
            && !cleared_since(ops, 0)),
    decreases ops.len(),
{
    if ops.len() > 0 {
        let earlier = ops.drop_last();
        let end = ops.len() - 1;
        lemma_held_iff_marked_since_reset(seen, earlier, id);
        match ops.last() {
            StoreOp::Clear => {
                assert forall|j: int| 0 <= j < ops.len() implies cleared_since(ops, j) by {}
            },
            StoreOp::Mark(_) => {
                assert forall|j: int| 0 <= j <= end implies (cleared_since(ops, j)
                    <==> cleared_since(earlier, j)) by {
                    if cleared_since(ops, j) {
                        let k = choose|k: int| 0 <= k < ops.len() && j <= k && #[trigger] ops[k] is Clear;
                        assert(earlier[k] is Clear);
                    }
                }
                if marked_since_reset(ops, id) {
                    let j = choose|j: int|
                        0 <= j < ops.len() && #[trigger] ops[j] == StoreOp::Mark(id)
                            && !cleared_since(ops, j);
                    if j < end {
                        assert(earlier[j] == StoreOp::Mark(id) && !cleared_since(earlier, j));
                    }
                }
            },
        }
    }
}

} // verus!
