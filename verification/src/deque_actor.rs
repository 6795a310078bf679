use vstd::prelude::*;
use bounded_vec_deque::BoundedVecDeque;
use std::collections::VecDeque;
use crate::messages::PerformanceIndicators;

verus! {

/// The bounded double-ended queue of the crate `bounded_vec_deque`.
#[verifier::external_type_specification]
#[verifier::external_body]
#[verifier::reject_recursive_types(T)]
pub struct ExBoundedVecDeque<T>(BoundedVecDeque<T>);

/// The records that the queue holds, from its front to its back.
pub uninterp spec fn deque_items(deque: BoundedVecDeque<PerformanceIndicators>) -> Seq<
    PerformanceIndicators,
>;

/// The largest number of records that the queue was made to hold.
pub uninterp spec fn deque_limit(deque: BoundedVecDeque<PerformanceIndicators>) -> usize;

/// Calls `BoundedVecDeque::with_capacity` with no space reserved.
///
/// Trusted: the new queue is empty and has the given limit.
#[verifier::external_body]
fn deque_with_limit(max_len: usize) -> (deque: BoundedVecDeque<PerformanceIndicators>)
    ensures
        deque_items(deque) == Seq::<PerformanceIndicators>::empty(),
        deque_limit(deque) == max_len,
{
    BoundedVecDeque::with_capacity(0, max_len)
}

/// Calls `BoundedVecDeque::push_back`.
///
/// Trusted: the limit stays. With a limit of 0 nothing is stored and the
/// value comes back. Otherwise the value is added at the back; where the queue
/// held as many as its limit or more, the record at its front is removed
/// first and comes back.
#[verifier::external_body]
fn deque_push_back(
    deque: &mut BoundedVecDeque<PerformanceIndicators>,
    value: PerformanceIndicators,
) -> (displaced: Option<PerformanceIndicators>)
    ensures
        deque_limit(*final(deque)) == deque_limit(*old(deque)),
        deque_items(*final(deque)) == appended(
            deque_items(*old(deque)),
            deque_limit(*old(deque)) as int,
            value,
        ),
        displaced == if deque_limit(*old(deque)) == 0 {
            Some(value)
        } else if deque_items(*old(deque)).len() >= deque_limit(*old(deque)) {
            Some(deque_items(*old(deque)).first())
        } else {
            None
        },
{
    deque.push_back(value)
}

/// Calls `BoundedVecDeque::as_unbounded`.
///
/// Trusted: the queue that comes back holds the same records in the same order.
#[verifier::external_body]
fn deque_as_unbounded(deque: &BoundedVecDeque<PerformanceIndicators>) -> (inner: &VecDeque<
    PerformanceIndicators,
>)
    ensures
        inner@ == deque_items(*deque),
{
    deque.as_unbounded()
}

/// The contents of a ring of `capacity` places after `record` was appended
/// to `items`: the record stands last; where the ring was full, its oldest
/// record has left. A ring without places stays empty.
pub open spec fn appended(
    items: Seq<PerformanceIndicators>,
    capacity: int,
    record: PerformanceIndicators,
) -> Seq<PerformanceIndicators> {
    if capacity == 0 {
        items
    } else if items.len() >= capacity {
        items.drop_first().push(record)
    } else {
        items.push(record)
    }
}

/// The contents of a ring of `capacity` places after each of `records` was
/// appended to `items`, the first of them first.
pub open spec fn appended_all(
    items: Seq<PerformanceIndicators>,
    capacity: int,
    records: Seq<PerformanceIndicators>,
) -> Seq<PerformanceIndicators>
    decreases records.len(),
{
    if records.len() == 0 {
        items
    } else {
        appended(appended_all(items, capacity, records.drop_last()), capacity, records.last())
    }
}

/// The last `n` of `items`, or all of them where they are fewer, oldest first.
pub open spec fn latest(items: Seq<PerformanceIndicators>, n: int) -> Seq<PerformanceIndicators> {
    if n >= items.len() {
        items
    } else {
        items.subrange(items.len() - n, items.len() as int)
    }
}

/// The recent history: a ring of fixed capacity that holds the most recently
/// received records, oldest first.
pub struct InMemoryQuoteWriter {
    store: BoundedVecDeque<PerformanceIndicators>,
}

/// A snapshot of the recent history, oldest record first.
#[derive(Debug, PartialEq)]
pub struct Indicators(pub Vec<PerformanceIndicators>);

impl Indicators {
    pub fn new(performance_indicators: Vec<PerformanceIndicators>) -> (r: Self)
        ensures
            r.0 == performance_indicators,
    {
        Indicators(performance_indicators)
    }
}

impl View for InMemoryQuoteWriter {
    type V = Seq<PerformanceIndicators>;

    closed spec fn view(&self) -> Seq<PerformanceIndicators> {
        deque_items(self.store)
    }
}

impl InMemoryQuoteWriter {
    /// The number of records that the ring has places for.
    pub closed spec fn capacity(&self) -> int {
        deque_limit(self.store) as int
    }

    /// An empty ring with places for `capacity` records.
    pub fn new(capacity: usize) -> (r: Self)
        ensures
            r@ == Seq::<PerformanceIndicators>::empty(),
            r.capacity() == capacity,
    {
        InMemoryQuoteWriter { store: deque_with_limit(capacity) }
    }

    /// Appends `msg` as the newest record. A full ring first drops its oldest.
    pub fn handle(&mut self, msg: PerformanceIndicators)
        ensures
            final(self)@ == appended(old(self)@, old(self).capacity(), msg),
            final(self).capacity() == old(self).capacity(),
    {
        let _ = deque_push_back(&mut self.store, msg);
    }

    /// The number of records held.
    pub fn len(&self) -> (r: usize)
        ensures
            r == self@.len(),
    {
        deque_as_unbounded(&self.store).len()
    }
}

/// The `n` most recently appended records of the history, or all of them
/// where it holds fewer, oldest first; the history is left as it is.
pub fn get_n_indicators(n: usize, buf: &InMemoryQuoteWriter) -> (r: Indicators)
    ensures
        r.0@ == latest(buf@, n as int),
{
    let inner = deque_as_unbounded(&buf.store);
    let len = inner.len();
    let start = if n >= len {
        0
    } else {
        len - n
    };
    let mut out: Vec<PerformanceIndicators> = Vec::new();
    let mut i: usize = start;
    while i < len
        invariant
            start <= i <= len,
            len == inner@.len(),
            out@ == inner@.subrange(start as int, i as int),
        decreases len - i,
    {
        out.push(inner[i].clone());
        proof {
            assert(inner@.subrange(start as int, i + 1) =~= inner@.subrange(
                start as int,
                i as int,
            ).push(inner@[i as int]));
        }
        i += 1;
    }
    proof {
        assert(inner@.subrange(0, len as int) =~= inner@);
    }
    Indicators::new(out)
}

/// Appending to a ring that holds no more than its capacity leaves it so.
pub proof fn lemma_appended_within_capacity(
    items: Seq<PerformanceIndicators>,
    capacity: int,
    record: PerformanceIndicators,
)
    requires
        0 <= capacity,
        items.len() <= capacity,
    ensures
        appended(items, capacity, record).len() <= capacity,
{
}

/// First in, first out: after any records were appended to a ring that held
/// no more than its capacity, the ring holds the most recent of all the
/// records, as many as it has places for, oldest first; the older ones have
/// left in the order they came.
pub proof fn lemma_ring_keeps_the_latest(
    items: Seq<PerformanceIndicators>,
    capacity: int,
    records: Seq<PerformanceIndicators>,
)
    requires
        0 <= capacity,
        items.len() <= capacity,
    ensures
        appended_all(items, capacity, records) == latest(items + records, capacity),
    decreases records.len(),
{
    if records.len() == 0 {
        assert(items + records =~= items);
    } else {
        let front = records.drop_last();
        lemma_ring_keeps_the_latest(items, capacity, front);
        let before = latest(items + front, capacity);
        assert((items + front).push(records.last()) =~= items + records);
        assert(appended(before, capacity, records.last()) =~= latest(items + records, capacity));
    }
}

/// A ring of `capacity` places to which one record more than that was
/// appended holds exactly the last `capacity` of them: the first has left.
pub proof fn lemma_one_too_many_evicts_the_oldest(
    capacity: int,
    records: Seq<PerformanceIndicators>,
)
    requires
        0 <= capacity,
        records.len() == capacity + 1,
    ensures
        appended_all(Seq::empty(), capacity, records) == records.drop_first(),
{
    lemma_ring_keeps_the_latest(Seq::empty(), capacity, records);
    assert(Seq::<PerformanceIndicators>::empty() + records =~= records);
    assert(latest(records, capacity) =~= records.drop_first());
}

} // verus!
