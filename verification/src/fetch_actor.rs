use vstd::prelude::*;
use crate::messages::{Fetch, PerformanceData};
use crate::ticker::Ticker;
use crate::timestamp::Timestamp;

verus! {

/// The number of samples that the windowed average of every series runs over.
pub const WINDOW: usize = 30;

/// The seconds between two fetch cycles.
pub const FETCH_INTERVAL_SECS: u64 = 30;

/// One retrieval to make of the market-data provider: the price history of
/// `ticker` from `from` through `until`.
#[derive(Debug, PartialEq)]
pub struct QuoteRequest {
    pub ticker: Ticker,
    pub from: Timestamp,
    pub until: Timestamp,
}

/// The fetch coordinator: the tracked instruments and the start of the
/// tracked period, both fixed at startup.
#[derive(Debug)]
pub struct FetchActor {
    tickers: Vec<Ticker>,
    from: Timestamp,
}

impl FetchActor {
    /// The tracked instruments, in the order they were given.
    pub closed spec fn spec_tickers(&self) -> Seq<Ticker> {
        self.tickers@
    }

    /// The start of the tracked period.
    pub closed spec fn spec_from(&self) -> Timestamp {
        self.from
    }

    pub fn new(tickers: Vec<Ticker>, from: Timestamp) -> (r: Self)
        ensures
            r.spec_tickers() == tickers@,
            r.spec_from() == from,
    {
        FetchActor { tickers, from }
    }

    /// The retrievals of the cycle that `msg` triggers: one per tracked
    /// instrument, in the order the instruments were given, each from the
    /// start of the tracked period through the trigger's instant.
    pub fn handle(&self, msg: Fetch) -> (r: Vec<QuoteRequest>)
        ensures
            r.len() == self.spec_tickers().len(),
            forall|i: int|
                0 <= i < r.len() ==> #[trigger] r[i] == (QuoteRequest {
                    ticker: self.spec_tickers()[i],
                    from: self.spec_from(),
                    until: msg.spec_until(),
                }),
    {
        let until = msg.until();
        let mut requests: Vec<QuoteRequest> = Vec::new();
        let mut i: usize = 0;
        while i < self.tickers.len()
            invariant
                i <= self.tickers.len(),
                until == msg.spec_until(),
                requests.len() == i,
                forall|k: int|
                    0 <= k < i ==> #[trigger] requests[k] == (QuoteRequest {
                        ticker: self.tickers[k],
                        from: self.from,
                        until,
                    }),
            decreases self.tickers.len() - i,
        {
            requests.push(QuoteRequest { ticker: self.tickers[i].clone(), from: self.from, until });
            i += 1;
        }
        requests
    }

    /// What a finished retrieval forwards to the indicator stage: the series
    /// of the instrument with the fixed window and the cycle's instant where
    /// the provider answered, nothing where it failed. A failure concerns this
    /// instrument alone.
    pub fn forward<E>(request: QuoteRequest, outcome: Result<Vec<u64>, E>) -> (r: Option<
        PerformanceData,
    >)
        ensures
            r.is_some() == outcome.is_ok(),
            match (outcome, r) {
                (Ok(series), Some(data)) => data.spec_ticker() == request.ticker
                    && data.spec_window() == WINDOW && data.spec_performance_data() == series@
                    && data.spec_to() == request.until,
                _ => true,
            },
    {
        match outcome {
            Ok(series) => Some(PerformanceData::new(request.ticker, WINDOW, series, request.until)),
            Err(_) => None,
        }
    }
}

} // verus!
