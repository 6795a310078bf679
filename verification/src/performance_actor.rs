use vstd::prelude::*;
use crate::messages::{views_of, PerformanceData, PerformanceIndicators};

verus! {

/// One copy of a published record, addressed to one subscriber.
#[derive(Debug, PartialEq)]
pub struct Delivery {
    pub subscriber: u64,
    pub record: PerformanceIndicators,
}

/// What publishing `record` hands out: one copy for each of `subscribers`,
/// in the order they subscribed.
pub open spec fn deliveries_of(subscribers: Seq<u64>, record: PerformanceIndicators) -> Seq<
    Delivery,
> {
    Seq::new(subscribers.len(), |i: int| Delivery { subscriber: subscribers[i], record })
}

/// The subscribers after `subscriber` asked to be one: it is added last,
/// unless it is one already.
pub open spec fn subscribed(subscribers: Seq<u64>, subscriber: u64) -> Seq<u64> {
    if subscribers.contains(subscriber) {
        subscribers
    } else {
        subscribers.push(subscriber)
    }
}

/// The indicator stage: it turns each series into its summary and publishes
/// the summary to every consumer that has subscribed so far.
#[derive(Debug)]
pub struct PerformanceActor {
    subscribers: Vec<u64>,
}

impl View for PerformanceActor {
    type V = Seq<u64>;

    /// The current subscribers, in the order they subscribed.
    closed spec fn view(&self) -> Seq<u64> {
        self.subscribers@
    }
}

impl PerformanceActor {
    /// A stage without subscribers.
    pub fn new() -> (r: Self)
        ensures
            r@ == Seq::<u64>::empty(),
    {
        PerformanceActor { subscribers: Vec::new() }
    }

    /// Registers `subscriber` for every record published from now on.
    pub fn subscribe(&mut self, subscriber: u64)
        ensures
            final(self)@ == subscribed(old(self)@, subscriber),
    {
        let mut i: usize = 0;
        while i < self.subscribers.len()
            invariant
                i <= self.subscribers.len(),
                self.subscribers@ == old(self)@,
                forall|k: int| 0 <= k < i ==> self.subscribers[k] != subscriber,
            decreases self.subscribers.len() - i,
        {
            if self.subscribers[i] == subscriber {
                return ;
            }
            i += 1;
        }
        self.subscribers.push(subscriber);
    }

    /// Hands out `record`: one copy for each current subscriber.
    pub fn publish(&self, record: &PerformanceIndicators) -> (r: Vec<Delivery>)
        ensures
            r@ == deliveries_of(self@, *record),
    {
        let mut out: Vec<Delivery> = Vec::new();
        let mut i: usize = 0;
        while i < self.subscribers.len()
            invariant
                i <= self.subscribers.len(),
                out.len() == i,
                forall|k: int|
                    0 <= k < i ==> #[trigger] out[k] == (Delivery {
                        subscriber: self.subscribers[k],
                        record: *record,
                    }),
            decreases self.subscribers.len() - i,
        {
            out.push(Delivery { subscriber: self.subscribers[i], record: record.clone() });
            i += 1;
        }
        assert(out@ =~= deliveries_of(self@, *record));
        out
    }

    /// Summarises the series of `msg` with its own window, instrument and
    /// instant, and publishes the summary. `averages` and `change` are the
    /// rolling averages and the change of that series, as the caller
    /// computed them.
    pub fn handle(
        &self,
        msg: &PerformanceData,
        averages: Option<Vec<u64>>,
        change: Option<(u64, u64)>,
    ) -> (r: Vec<Delivery>)
        ensures
            r@ == deliveries_of(
                self@,
                PerformanceIndicators::summary(
                    msg.spec_window() as int,
                    msg.spec_performance_data(),
                    msg.spec_ticker(),
                    msg.spec_to(),
                    views_of(averages),
                    change,
                ),
            ),
    {
        let performance_indicators = PerformanceIndicators::new(
            msg.window(),
            msg.performance_data(),
            msg.ticker().clone(),
            msg.to(),
            averages,
            change,
        );
        self.publish(&performance_indicators)
    }
}

/// A published record reaches every consumer that is subscribed when it is
/// published, once each, and no one else: a consumer that subscribes
/// afterwards is not among its receivers, though it is among those of the
/// next record.
pub proof fn lemma_publish_reaches_current_subscribers(
    subscribers: Seq<u64>,
    late: u64,
    record: PerformanceIndicators,
    next: PerformanceIndicators,
)
    requires
        !subscribers.contains(late),
    ensures
        deliveries_of(subscribers, record).len() == subscribers.len(),
        forall|i: int|
            0 <= i < subscribers.len() ==> (#[trigger] deliveries_of(subscribers, record)[i])
                == (Delivery { subscriber: subscribers[i], record }),
        forall|i: int|
            0 <= i < subscribers.len() ==> (#[trigger] deliveries_of(
                subscribers,
                record,
            )[i]).subscriber != late,
        deliveries_of(subscribed(subscribers, late), next).last() == (Delivery {
            subscriber: late,
            record: next,
        }),
{
    assert forall|i: int| 0 <= i < subscribers.len() implies (#[trigger] deliveries_of(
        subscribers,
        record,
    )[i]).subscriber != late by {
        assert(subscribers.contains(subscribers[i]));
    }
}

} // verus!
