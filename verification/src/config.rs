use vstd::prelude::*;
use crate::texts;
use crate::ticker::Ticker;
use crate::timestamp::{rfc3339_instant, Timestamp};

verus! {

/// What is wrong with the startup parameters, by the parameters' names.
#[derive(Debug)]
pub enum ArgumentParsingError {
    /// A mandatory parameter was not given.
    MissingParameter(&'static str),
    /// Neither of two alternative parameters was given.
    OneRequired(&'static str, &'static str),
    /// Both of two alternative parameters were given.
    TooManyParameters(&'static str, &'static str),
}

/// Why no configuration could be made of the startup parameters.
#[derive(Debug)]
pub enum ConfigError {
    /// A parameter is missing or conflicts with another.
    Arguments(ArgumentParsingError),
    /// The start of the tracked period is not an RFC 3339 date and time.
    InvalidFrom(chrono::ParseError),
}

/// Where the tracked instruments come from.
#[derive(Debug)]
pub enum TickerSource {
    /// They were listed among the parameters.
    Listed(Vec<Ticker>),
    /// They are to be read from the comma-delimited file at this path.
    File(String),
}

/// What the process runs with: the tracked instruments, the start of the
/// tracked period and, if the records go to a file, its path.
#[derive(Debug, Clone)]
pub struct Config {
    pub tickers: Vec<Ticker>,
    pub from: Timestamp,
    pub file: Option<String>,
}

/// The text of each ticker, in order.
pub open spec fn ticker_texts(tickers: Seq<Ticker>) -> Seq<Seq<char>> {
    tickers.map_values(|t: Ticker| t@)
}

/// The position of the first comma in `s`, or the length of `s` if it holds none.
pub open spec fn first_comma(s: Seq<char>) -> int
    decreases s.len(),
{
    if s.len() == 0 || s[0] == ',' {
        0
    } else {
        1 + first_comma(s.drop_first())
    }
}

/// The fields of a comma-delimited text: what stands between one comma (or
/// the start) and the next (or the end). A text without a comma is one field,
/// the empty text included.
pub open spec fn split_commas(s: Seq<char>) -> Seq<Seq<char>>
    decreases s.len(),
{
    let at = first_comma(s);
    if 0 <= at < s.len() {
        seq![s.subrange(0, at)] + split_commas(s.subrange(at + 1, s.len() as int))
    } else {
        seq![s]
    }
}

/// `first_comma` is the least position that holds a comma.
pub proof fn lemma_first_comma(s: Seq<char>, at: int)
    requires
        0 <= at <= s.len(),
        forall|j: int| 0 <= j < at ==> s[j] != ',',
        at < s.len() ==> s[at] == ',',
    ensures
        first_comma(s) == at,
    decreases s.len(),
{
    if s.len() == 0 || s[0] == ',' {
    } else {
        let rest = s.drop_first();
        assert forall|j: int| 0 <= j < at - 1 implies rest[j] != ',' by {
            assert(rest[j] == s[j + 1]);
        }
        lemma_first_comma(rest, at - 1);
    }
}

/// The fields put together again, with a comma between one and the next.
pub open spec fn join_commas(fields: Seq<Seq<char>>) -> Seq<char>
    decreases fields.len(),
{
    if fields.len() == 0 {
        Seq::empty()
    } else if fields.len() == 1 {
        fields[0]
    } else {
        fields[0] + seq![','] + join_commas(fields.drop_first())
    }
}

/// `first_comma` lies within the text or at its end, no comma stands before
/// it, and one stands at it unless it is the end.
pub proof fn lemma_first_comma_is_first(s: Seq<char>)
    ensures
        0 <= first_comma(s) <= s.len(),
        forall|j: int| 0 <= j < first_comma(s) ==> s[j] != ',',
        first_comma(s) < s.len() ==> s[first_comma(s)] == ',',
    decreases s.len(),
{
    if s.len() == 0 || s[0] == ',' {
    } else {
        let rest = s.drop_first();
        lemma_first_comma_is_first(rest);
        assert forall|j: int| 0 <= j < first_comma(s) implies s[j] != ',' by {
            if j > 0 {
                assert(s[j] == rest[j - 1]);
            }
        }
        assert(first_comma(s) < s.len() ==> s[first_comma(s)] == rest[first_comma(rest)]);
    }
}

/// Splitting undoes joining: a text has at least one field, no field holds a
/// comma, and the fields joined by commas are the text.
pub proof fn lemma_split_commas_undoes_joining(s: Seq<char>)
    ensures
        split_commas(s).len() >= 1,
        forall|i: int|
            0 <= i < split_commas(s).len() ==> !(#[trigger] split_commas(s)[i]).contains(','),
        join_commas(split_commas(s)) == s,
    decreases s.len(),
{
    lemma_first_comma_is_first(s);
    let at = first_comma(s);
    if at < s.len() {
        let field = s.subrange(0, at);
        let rest = s.subrange(at + 1, s.len() as int);
        lemma_split_commas_undoes_joining(rest);
        let fields = split_commas(s);
        assert(fields == seq![field] + split_commas(rest));
        assert(fields.drop_first() =~= split_commas(rest));
        assert forall|i: int| 0 <= i < fields.len() implies !(#[trigger] fields[i]).contains(
            ',',
        ) by {
            if i == 0 {
                assert forall|j: int| 0 <= j < field.len() implies field[j] != ',' by {
                    assert(field[j] == s[j]);
                }
            } else {
                assert(fields[i] == split_commas(rest)[i - 1]);
            }
        }
        assert(join_commas(fields) == field + seq![','] + rest);
        assert(field + seq![','] + rest =~= s);
    } else {
        assert(split_commas(s) == seq![s]);
        assert forall|j: int| 0 <= j < s.len() implies s[j] != ',' by {}
    }
}

impl ArgumentParsingError {
    /// The diagnostic for this error, as a person reads it.
    pub open spec fn message_of(self) -> Seq<char> {
        match self {
            ArgumentParsingError::MissingParameter(name) => "Missing parameter: "@ + name@,
            ArgumentParsingError::OneRequired(one, other) => "One of "@ + one@ + " "@ + other@
                + " required"@,
            ArgumentParsingError::TooManyParameters(one, other) => "Only one of "@ + one@ + " "@
                + other@ + " required"@,
        }
    }

    /// The diagnostic for this error, as a person reads it.
    pub fn message(&self) -> (r: String)
        ensures
            r@ == self.message_of(),
    {
        match self {
            ArgumentParsingError::MissingParameter(name) => String::from_str(
                "Missing parameter: ",
            ).concat(name),
            ArgumentParsingError::OneRequired(one, other) => String::from_str("One of ").concat(
                one,
            ).concat(" ").concat(other).concat(" required"),
            ArgumentParsingError::TooManyParameters(one, other) => String::from_str(
                "Only one of ",
            ).concat(one).concat(" ").concat(other).concat(" required"),
        }
    }
}

impl TickerSource {
    /// Decides between the two ways of naming the instruments: exactly one of
    /// the listed tickers and the ticker file must be given.
    pub fn choose_between(tickers: Option<Vec<String>>, ticker_file: Option<String>) -> (r: Result<
        TickerSource,
        ArgumentParsingError,
    >)
        ensures
            match (tickers, ticker_file) {
                (None, None) => r matches Err(ArgumentParsingError::OneRequired(a, b)) && a@
                    == "Ticker"@ && b@ == "Ticker-file"@,
                (Some(given), None) => r matches Ok(TickerSource::Listed(listed)) && ticker_texts(
                    listed@,
                ) == texts(given@),
                (None, Some(path)) => r matches Ok(TickerSource::File(p)) && p == path,
                (Some(_), Some(_)) => r matches Err(ArgumentParsingError::TooManyParameters(a, b))
                    && a@ == "Ticker"@ && b@ == "Ticker-File"@,
            },
    {
        match (tickers, ticker_file) {
            (None, None) => Err(ArgumentParsingError::OneRequired("Ticker", "Ticker-file")),
            (Some(given), None) => {
                let mut listed: Vec<Ticker> = Vec::new();
                let mut given = given;
                let ghost all = given@;
                let mut i: usize = 0;
                while i < given.len()
                    invariant
                        i <= given.len(),
                        given@ == all,
                        listed.len() == i,
                        forall|k: int| 0 <= k < i ==> (#[trigger] listed[k])@ == all[k]@,
                    decreases given.len() - i,
                {
                    listed.push(Ticker::new(given[i].clone()));
                    i += 1;
                }
                assert(ticker_texts(listed@) =~= texts(all));
                Ok(TickerSource::Listed(listed))
            },
            (None, Some(path)) => Ok(TickerSource::File(path)),
            (Some(_), Some(_)) => Err(
                ArgumentParsingError::TooManyParameters("Ticker", "Ticker-File"),
            ),
        }
    }
}

/// The instruments that a comma-delimited text names: one per field, each
/// field taken as it stands (no trimming, empty fields kept).
pub fn parse_ticker_list(contents: &str) -> (r: Vec<Ticker>)
    ensures
        ticker_texts(r@) == split_commas(contents@),
{
    let n = contents.unicode_len();
    let mut tickers: Vec<Ticker> = Vec::new();
    let mut start: usize = 0;
    let mut i: usize = 0;
    proof {
        assert(contents@.subrange(0, n as int) =~= contents@);
        assert(ticker_texts(tickers@) + split_commas(contents@) =~= split_commas(contents@));
    }
    while i < n
        invariant
            n == contents@.len(),
            start <= i <= n,
            forall|j: int| start <= j < i ==> contents@[j] != ',',
            split_commas(contents@) == ticker_texts(tickers@) + split_commas(
                contents@.subrange(start as int, n as int),
            ),
        decreases n - i,
    {
        if contents.get_char(i) == ',' {
            let field = contents.substring_char(start, i);
            let ghost rest = contents@.subrange(start as int, n as int);
            proof {
                lemma_first_comma(rest, i - start);
                assert(rest.subrange(0, i - start) =~= field@);
                assert(rest.subrange(i - start + 1, rest.len() as int) =~= contents@.subrange(
                    i + 1,
                    n as int,
                ));
            }
            let ghost before = tickers@;
            tickers.push(Ticker::new(field.to_owned()));
            proof {
                assert(ticker_texts(tickers@) =~= ticker_texts(before) + seq![field@]);
                let tail = split_commas(contents@.subrange(i + 1, n as int));
                assert(split_commas(rest) == seq![field@] + tail);
                assert(ticker_texts(before) + (seq![field@] + tail) =~= ticker_texts(tickers@)
                    + tail);
            }
            start = i + 1;
        }
        i += 1;
    }
    let field = contents.substring_char(start, n);
    let ghost rest = contents@.subrange(start as int, n as int);
    let ghost before = tickers@;
    proof {
        lemma_first_comma(rest, n - start);
        assert(field@ =~= rest);
    }
    tickers.push(Ticker::new(field.to_owned()));
    proof {
        assert(ticker_texts(tickers@) =~= ticker_texts(before) + seq![field@]);
        assert(split_commas(rest) == seq![rest]);
    }
    tickers
}

impl Config {
    /// Makes the configuration of the tracked instruments, the text of the
    /// mandatory start of the period and the optional output path.
    ///
    /// Fails where the start is missing, and where it is not an RFC 3339 date
    /// and time.
    pub fn new(tickers: Vec<Ticker>, from: Option<&str>, file: Option<String>) -> (r: Result<
        Config,
        ConfigError,
    >)
        ensures
            match from {
                None => r matches Err(ConfigError::Arguments(ArgumentParsingError::MissingParameter(p)))
                    && p@ == "From"@,
                Some(text) => match rfc3339_instant(text@) {
                    None => r matches Err(ConfigError::InvalidFrom(_)),
                    Some(instant) => r matches Ok(config) && config.tickers == tickers
                        && config.from == Timestamp::of(instant) && config.file == file,
                },
            },
    {
        match from {
            None => Err(ConfigError::Arguments(ArgumentParsingError::MissingParameter("From"))),
            Some(text) => match Timestamp::parse(text) {
                Ok(from) => Ok(Config { tickers, from, file }),
                Err(e) => Err(ConfigError::InvalidFrom(e)),
            },
        }
    }
}

} // verus!
