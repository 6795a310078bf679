use vstd::prelude::*;
use crate::performance_indicators::{
    change_endpoints,
    change_endpoints_of,
    max,
    max_of,
    min,
    min_of,
    window_count,
    window_count_of,
};
use crate::price::{Percentage, Price};
use crate::texts;
use crate::ticker::Ticker;
use crate::timestamp::{rfc3339_text, Timestamp};

verus! {

/// The price samples retrieved for one instrument in one fetch cycle, oldest
/// first, with the size of the window to average over and the instant the
/// cycle fetched through.
#[derive(Debug, PartialEq)]
pub struct PerformanceData {
    ticker: Ticker,
    window: usize,
    performance_data: Vec<u64>,
    to: Timestamp,
}

impl Clone for PerformanceData {
    fn clone(&self) -> (r: Self)
        ensures
            r.spec_ticker() == self.spec_ticker(),
            r.spec_window() == self.spec_window(),
            r.spec_performance_data() == self.spec_performance_data(),
            r.spec_to() == self.spec_to(),
    {
        PerformanceData {
            ticker: self.ticker.clone(),
            window: self.window,
            performance_data: self.performance_data.clone(),
            to: self.to,
        }
    }
}

impl PerformanceData {
    /// The instrument that the series belongs to.
    pub closed spec fn spec_ticker(&self) -> Ticker {
        self.ticker
    }

    /// The number of samples that the windowed average runs over.
    pub closed spec fn spec_window(&self) -> usize {
        self.window
    }

    /// The price samples, oldest first, each as the bits of its number.
    pub closed spec fn spec_performance_data(&self) -> Seq<u64> {
        self.performance_data@
    }

    /// The instant that the cycle fetched through.
    pub closed spec fn spec_to(&self) -> Timestamp {
        self.to
    }

    pub fn new(ticker: Ticker, window: usize, performance_data: Vec<u64>, to: Timestamp) -> (r:
        Self)
        ensures
            r.spec_ticker() == ticker,
            r.spec_window() == window,
            r.spec_performance_data() == performance_data@,
            r.spec_to() == to,
    {
        PerformanceData { ticker, window, performance_data, to }
    }

    pub fn ticker(&self) -> (r: &Ticker)
        ensures
            *r == self.spec_ticker(),
    {
        &self.ticker
    }

    pub fn window(&self) -> (r: usize)
        ensures
            r == self.spec_window(),
    {
        self.window
    }

    pub fn performance_data(&self) -> (r: &[u64])
        ensures
            r@ == self.spec_performance_data(),
    {
        self.performance_data.as_slice()
    }

    pub fn to(&self) -> (r: Timestamp)
        ensures
            r == self.spec_to(),
    {
        self.to
    }
}

/// The summary of one instrument's series as of one instant.
///
/// A field that cannot be derived from the series is absent: the current
/// price, minimum and maximum of an empty series, the changes of a series of
/// fewer than two samples, the windowed average where the window is empty or
/// longer than the series.
#[derive(Debug, PartialEq)]
pub struct PerformanceIndicators {
    pub ticker: Ticker,
    pub time: Timestamp,
    pub current_price: Option<Price>,
    pub min: Option<Price>,
    pub max: Option<Price>,
    pub n_window_sma: Option<Price>,
    pub percentage_change: Option<Percentage>,
    pub abs_change: Option<Price>,
}

/// The last sample of the series, none for an empty series.
pub open spec fn last_of(series: Seq<u64>) -> Option<u64> {
    if series.len() == 0 {
        None
    } else {
        Some(series.last())
    }
}

/// The most recent of the rolling averages, where they are as many as the
/// window yields over a series of `len` samples; none otherwise.
pub open spec fn latest_average(window: int, len: int, averages: Option<Seq<u64>>) -> Option<u64> {
    match (window_count_of(window, len), averages) {
        (Some(count), Some(values)) => if values.len() == count {
            Some(values.last())
        } else {
            None
        },
        _ => None,
    }
}

/// The change of a series of `len` samples, where it has the two samples that
/// a change is measured between; none otherwise.
pub open spec fn change_of(len: int, change: Option<(u64, u64)>) -> Option<(u64, u64)> {
    if change_endpoints_of(len).is_some() {
        change
    } else {
        None
    }
}

/// The samples of the vector, where there is one.
pub open spec fn views_of(values: Option<Vec<u64>>) -> Option<Seq<u64>> {
    match values {
        Some(v) => Some(v@),
        None => None,
    }
}

/// A price field of the given bits, where there are any.
pub open spec fn as_price(bits: Option<u64>) -> Option<Price> {
    match bits {
        Some(b) => Some(Price(b)),
        None => None,
    }
}

/// The names of the columns of a record's row, in the order of the row.
pub open spec fn column_names() -> Seq<Seq<char>> {
    seq![
        "ticker"@,
        "time"@,
        "current_price"@,
        "min"@,
        "max"@,
        "n_window_sma"@,
        "percentage_change"@,
        "abs_change"@,
    ]
}

/// What a row shows for an optional field: the given text where the field is
/// present, nothing where it is absent.
pub open spec fn shown(present: bool, text: Seq<char>) -> Seq<char> {
    if present {
        text
    } else {
        Seq::empty()
    }
}

fn cell(present: bool, text: String) -> (r: String)
    ensures
        r@ == shown(present, text@),
{
    if present {
        text
    } else {
        String::new()
    }
}

impl Clone for PerformanceIndicators {
    fn clone(&self) -> (r: Self)
        ensures
            r == *self,
    {
        PerformanceIndicators {
            ticker: self.ticker.clone(),
            time: self.time,
            current_price: self.current_price,
            min: self.min,
            max: self.max,
            n_window_sma: self.n_window_sma,
            percentage_change: self.percentage_change,
            abs_change: self.abs_change,
        }
    }
}

impl PerformanceIndicators {
    /// The summary of `series` for `ticker` as of `time`, given the rolling
    /// averages and the change that the caller computed.
    pub open spec fn summary(
        window: int,
        series: Seq<u64>,
        ticker: Ticker,
        time: Timestamp,
        averages: Option<Seq<u64>>,
        change: Option<(u64, u64)>,
    ) -> PerformanceIndicators {
        PerformanceIndicators {
            ticker,
            time,
            current_price: as_price(last_of(series)),
            min: as_price(min_of(series)),
            max: as_price(max_of(series)),
            n_window_sma: as_price(latest_average(window, series.len() as int, averages)),
            percentage_change: match change_of(series.len() as int, change) {
                Some((percentage, _)) => Some(Percentage(percentage)),
                None => None,
            },
            abs_change: match change_of(series.len() as int, change) {
                Some((_, absolute)) => Some(Price(absolute)),
                None => None,
            },
        }
    }

    /// The names of the columns of a record's row, in the order of the row.
    pub fn columns() -> (r: Vec<String>)
        ensures
            texts(r@) == column_names(),
    {
        let mut names: Vec<String> = Vec::new();
        names.push("ticker".to_owned());
        names.push("time".to_owned());
        names.push("current_price".to_owned());
        names.push("min".to_owned());
        names.push("max".to_owned());
        names.push("n_window_sma".to_owned());
        names.push("percentage_change".to_owned());
        names.push("abs_change".to_owned());
        assert(texts(names@) =~= column_names());
        names
    }

    /// The fields of this record's row: the instrument, the instant as an
    /// RFC 3339 date and time, then each amount as the given text says it, or
    /// empty where the record lacks it. No row where the instant has no date
    /// and time.
    pub fn row(
        &self,
        current_price: String,
        min: String,
        max: String,
        n_window_sma: String,
        percentage_change: String,
        abs_change: String,
    ) -> (r: Option<Vec<String>>)
        ensures
            match rfc3339_text(self.time.secs, self.time.nanos) {
                None => r.is_none(),
                Some(time) => r.is_some() && texts(r.unwrap()@) == seq![
                    self.ticker@,
                    time,
                    shown(self.current_price.is_some(), current_price@),
                    shown(self.min.is_some(), min@),
                    shown(self.max.is_some(), max@),
                    shown(self.n_window_sma.is_some(), n_window_sma@),
                    shown(self.percentage_change.is_some(), percentage_change@),
                    shown(self.abs_change.is_some(), abs_change@),
                ],
            },
    {
        let time = match self.time.to_rfc3339() {
            Some(text) => text,
            None => {
                return None;
            },
        };
        let mut fields: Vec<String> = Vec::new();
        fields.push(self.ticker.to_string());
        fields.push(time);
        fields.push(cell(self.current_price.is_some(), current_price));
        fields.push(cell(self.min.is_some(), min));
        fields.push(cell(self.max.is_some(), max));
        fields.push(cell(self.n_window_sma.is_some(), n_window_sma));
        fields.push(cell(self.percentage_change.is_some(), percentage_change));
        fields.push(cell(self.abs_change.is_some(), abs_change));
        assert(texts(fields@) =~= seq![
            self.ticker@,
            time@,
            shown(self.current_price.is_some(), current_price@),
            shown(self.min.is_some(), min@),
            shown(self.max.is_some(), max@),
            shown(self.n_window_sma.is_some(), n_window_sma@),
            shown(self.percentage_change.is_some(), percentage_change@),
            shown(self.abs_change.is_some(), abs_change@),
        ]);
        Some(fields)
    }

    /// Summarises `series` for `ticker` as of `time`.
    ///
    /// The current price, the minimum and the maximum are taken from the
    /// series. `averages` are the rolling averages of the series over
    /// `window` samples and `change` is its percentage and absolute change,
    /// as computed by the caller; each is used only where the series admits
    /// it, and of the averages only the most recent.
    pub fn new(
        window: usize,
        series: &[u64],
        ticker: Ticker,
        time: Timestamp,
        averages: Option<Vec<u64>>,
        change: Option<(u64, u64)>,
    ) -> (r: PerformanceIndicators)
        ensures
            r == Self::summary(
                window as int,
                series@,
                ticker,
                time,
                views_of(averages),
                change,
            ),
            series@.len() < 2 ==> r.percentage_change.is_none() && r.abs_change.is_none(),
            series@.len() == 0 ==> r.current_price.is_none() && r.min.is_none() && r.max.is_none(),
            r.n_window_sma.is_some() ==> 0 < window <= series@.len(),
    {
        let len = series.len();
        let (percentage_change, abs_change) = match (change_endpoints(len), change) {
            (Some(_), Some((percentage, absolute))) => (
                Some(Percentage(percentage)),
                Some(Price(absolute)),
            ),
            _ => (None, None),
        };
        let current_price = if len == 0 {
            None
        } else {
            Some(Price(series[len - 1]))
        };
        let n_window_sma = match (window_count(window, len), averages) {
            (Some(count), Some(values)) => if values.len() == count {
                Some(Price(values[count - 1]))
            } else {
                None
            },
            _ => None,
        };
        let lowest = match min(series) {
            Some(bits) => Some(Price(bits)),
            None => None,
        };
        let highest = match max(series) {
            Some(bits) => Some(Price(bits)),
            None => None,
        };
        PerformanceIndicators {
            ticker,
            time,
            current_price,
            min: lowest,
            max: highest,
            n_window_sma,
            percentage_change,
            abs_change,
        }
    }
}

/// Where the caller hands in the rolling averages and the change exactly
/// where the series admits them, every optional field of the summary is
/// present exactly where it is defined: the current price, the minimum and
/// the maximum for a series that is not empty, the changes for a series of
/// two samples or more, the windowed average for a window that is not empty
/// and no longer than the series.
pub proof fn lemma_fields_are_present_where_defined(
    window: int,
    series: Seq<u64>,
    ticker: Ticker,
    time: Timestamp,
    averages: Option<Seq<u64>>,
    change: Option<(u64, u64)>,
)
    requires
        match averages {
            Some(values) => window_count_of(window, series.len() as int) == Some(
                values.len() as int,
            ),
            None => window_count_of(window, series.len() as int).is_none(),
        },
        change.is_some() == change_endpoints_of(series.len() as int).is_some(),
    ensures
        ({
            let summary = PerformanceIndicators::summary(
                window,
                series,
                ticker,
                time,
                averages,
                change,
            );
            &&& summary.current_price.is_some() == (series.len() > 0)
            &&& summary.min.is_some() == (series.len() > 0)
            &&& summary.max.is_some() == (series.len() > 0)
            &&& summary.n_window_sma.is_some() == (0 < window <= series.len())
            &&& summary.percentage_change.is_some() == (series.len() >= 2)
            &&& summary.abs_change.is_some() == (series.len() >= 2)
        }),
{
}

/// Whatever the caller hands in, a field is never present where it is not
/// defined.
pub proof fn lemma_fields_are_absent_where_undefined(
    window: int,
    series: Seq<u64>,
    ticker: Ticker,
    time: Timestamp,
    averages: Option<Seq<u64>>,
    change: Option<(u64, u64)>,
)
    ensures
        ({
            let summary = PerformanceIndicators::summary(
                window,
                series,
                ticker,
                time,
                averages,
                change,
            );
            &&& summary.current_price.is_some() == (series.len() > 0)
            &&& summary.min.is_some() == (series.len() > 0)
            &&& summary.max.is_some() == (series.len() > 0)
            &&& summary.n_window_sma.is_some() ==> 0 < window <= series.len()
            &&& summary.percentage_change.is_some() ==> series.len() >= 2
            &&& summary.abs_change.is_some() ==> series.len() >= 2
        }),
{
}

/// The trigger of one fetch cycle: fetch through this instant.
#[derive(Debug, Clone, Copy, PartialEq, Eq, Structural)]
pub struct Fetch {
    until: Timestamp,
}

impl Fetch {
    /// The instant to fetch through.
    pub closed spec fn spec_until(&self) -> Timestamp {
        self.until
    }

    /// The trigger of a cycle that fetches through `until`.
    pub fn from_datetime(until: Timestamp) -> (r: Self)
        ensures
            r.spec_until() == until,
    {
        Fetch { until }
    }

    pub fn until(&self) -> (r: Timestamp)
        ensures
            r == self.spec_until(),
    {
        self.until
    }
}

} // verus!
