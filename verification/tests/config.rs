use simple_tracker::config::{
    parse_ticker_list, ArgumentParsingError, Config, ConfigError, TickerSource,
};
use simple_tracker::ticker::Ticker;
use simple_tracker::timestamp::Timestamp;

fn texts(tickers: &[Ticker]) -> Vec<&str> {
    tickers.iter().map(|t| t.as_str()).collect()
}

#[test]
fn ticker_keeps_its_text() {
    let ticker = Ticker::new("MSFT".to_string());
    assert_eq!(ticker.as_str(), "MSFT");
    assert_eq!(ticker.to_string(), "MSFT".to_string());
    assert_eq!(Ticker::from("msft").as_str(), "msft");
    assert_eq!("BRK.B".parse::<Ticker>().unwrap(), Ticker::from("BRK.B"));
    assert_eq!(ticker.clone(), ticker);
}

#[test]
fn tickers_are_equal_exactly_when_their_text_is() {
    assert_eq!(Ticker::from("AAPL"), Ticker::new("AAPL".to_string()));
    assert_ne!(Ticker::from("AAPL"), Ticker::from("aapl"));
    assert_ne!(Ticker::from("AAPL"), Ticker::from("AAPL "));
}

#[test]
fn one_of_tickers_and_ticker_file_is_required() {
    match TickerSource::choose_between(None, None) {
        Err(ArgumentParsingError::OneRequired(a, b)) => {
            assert_eq!(a, "Ticker");
            assert_eq!(b, "Ticker-file");
        }
        other => panic!("unexpected: {:?}", other),
    }
}

#[test]
fn tickers_and_ticker_file_exclude_each_other() {
    let given = Some(vec!["A".to_string()]);
    match TickerSource::choose_between(given, Some("tickers.csv".to_string())) {
        Err(ArgumentParsingError::TooManyParameters(a, b)) => {
            assert_eq!(a, "Ticker");
            assert_eq!(b, "Ticker-File");
        }
        other => panic!("unexpected: {:?}", other),
    }
}

#[test]
fn listed_tickers_are_taken_in_order() {
    let given = Some(vec!["B".to_string(), "a".to_string(), "B".to_string()]);
    match TickerSource::choose_between(given, None) {
        Ok(TickerSource::Listed(tickers)) => assert_eq!(texts(&tickers), vec!["B", "a", "B"]),
        other => panic!("unexpected: {:?}", other),
    }
}

#[test]
fn a_ticker_file_is_named_by_its_path() {
    match TickerSource::choose_between(None, Some("in/tickers.csv".to_string())) {
        Ok(TickerSource::File(path)) => assert_eq!(path, "in/tickers.csv"),
        other => panic!("unexpected: {:?}", other),
    }
}

#[test]
fn ticker_list_is_split_at_commas() {
    assert_eq!(texts(&parse_ticker_list("MSFT,GOOG,AAPL")), vec!["MSFT", "GOOG", "AAPL"]);
    assert_eq!(texts(&parse_ticker_list("MSFT")), vec!["MSFT"]);
    assert_eq!(texts(&parse_ticker_list("")), vec![""]);
    assert_eq!(texts(&parse_ticker_list(",")), vec!["", ""]);
    assert_eq!(texts(&parse_ticker_list("a,,b,")), vec!["a", "", "b", ""]);
    assert_eq!(texts(&parse_ticker_list(" a , b\n")), vec![" a ", " b\n"]);
    assert_eq!(texts(&parse_ticker_list("é,日本,x")), vec!["é", "日本", "x"]);
}

#[test]
fn ticker_list_is_split_as_std_splits() {
    for text in ["", ",", ",,", "a", "a,b", ",a", "a,", "ab,cd,,ef,", "x,é,,日本語,y"] {
        let expected: Vec<&str> = text.split(',').collect();
        assert_eq!(texts(&parse_ticker_list(text)), expected);
    }
}

#[test]
fn from_is_mandatory() {
    match Config::new(vec![Ticker::from("A")], None, None) {
        Err(ConfigError::Arguments(ArgumentParsingError::MissingParameter(name))) => {
            assert_eq!(name, "From")
        }
        other => panic!("unexpected: {:?}", other),
    }
}

#[test]
fn from_must_be_rfc_3339() {
    for text in ["", "yesterday", "2020-07-02", "2020-07-02 19:30:00", "2020-13-02T19:30:00Z"] {
        assert!(matches!(
            Config::new(vec![Ticker::from("A")], Some(text), None),
            Err(ConfigError::InvalidFrom(_))
        ));
    }
}

#[test]
fn config_holds_what_it_was_given() {
    let tickers = vec![Ticker::from("A"), Ticker::from("B")];
    let config =
        Config::new(tickers.clone(), Some("2020-07-02T19:30:00Z"), Some("out.csv".to_string()))
            .unwrap();
    assert_eq!(config.tickers, tickers);
    assert_eq!(config.from, Timestamp::new(1_593_718_200, 0));
    assert_eq!(config.file, Some("out.csv".to_string()));
    let to_stdout = Config::new(tickers, Some("2020-07-02T19:30:00Z"), None).unwrap();
    assert_eq!(to_stdout.file, None);
}

#[test]
fn timestamp_is_the_parsed_instant() {
    assert_eq!(Timestamp::parse("1970-01-01T00:00:00Z").unwrap(), Timestamp::new(0, 0));
    assert_eq!(
        Timestamp::parse("2020-07-02T19:30:00.25Z").unwrap(),
        Timestamp::new(1_593_718_200, 250_000_000)
    );
    assert_eq!(
        Timestamp::parse("1969-12-31T23:59:59Z").unwrap(),
        Timestamp::new(-1, 0)
    );
    assert!(Timestamp::parse("2020-07-02T19:30:00").is_err());
}

#[test]
fn timestamp_with_an_offset_is_the_same_instant_in_utc() {
    assert_eq!(
        Timestamp::parse("1996-12-19T16:39:57-08:00").unwrap(),
        Timestamp::parse("1996-12-20T00:39:57Z").unwrap()
    );
    assert_eq!(
        Timestamp::parse("2020-07-02T21:30:00+02:00").unwrap(),
        Timestamp::new(1_593_718_200, 0)
    );
}

#[test]
fn argument_errors_read_as_diagnostics() {
    assert_eq!(
        ArgumentParsingError::MissingParameter("From").message(),
        "Missing parameter: From"
    );
    assert_eq!(
        ArgumentParsingError::OneRequired("Ticker", "Ticker-file").message(),
        "One of Ticker Ticker-file required"
    );
    assert_eq!(
        ArgumentParsingError::TooManyParameters("Ticker", "Ticker-File").message(),
        "Only one of Ticker Ticker-File required"
    );
}

#[test]
fn timestamp_is_written_in_utc() {
    assert_eq!(
        Timestamp::new(1_593_718_200, 0).to_rfc3339(),
        Some("2020-07-02T19:30:00Z".to_string())
    );
    assert_eq!(
        Timestamp::new(1_593_718_200, 250_000_000).to_rfc3339(),
        Some("2020-07-02T19:30:00.250Z".to_string())
    );
    assert_eq!(Timestamp::new(0, 1).to_rfc3339(), Some("1970-01-01T00:00:00.000000001Z".to_string()));
    assert_eq!(Timestamp::new(-1, 0).to_rfc3339(), Some("1969-12-31T23:59:59Z".to_string()));
}

#[test]
fn an_instant_without_a_date_has_no_text() {
    assert_eq!(Timestamp::new(i64::MAX, 0).to_rfc3339(), None);
    assert_eq!(Timestamp::new(i64::MIN, 0).to_rfc3339(), None);
    assert_eq!(Timestamp::new(0, 2_000_000_000).to_rfc3339(), None);
}

#[test]
fn a_written_timestamp_reads_back() {
    for instant in [
        Timestamp::new(0, 0),
        Timestamp::new(1_593_718_200, 123_456_789),
        Timestamp::new(-86_400, 5),
    ] {
        let text = instant.to_rfc3339().unwrap();
        assert_eq!(Timestamp::parse(&text).unwrap(), instant);
    }
}

#[test]
fn ticker_equality_is_equality_of_text() {
    let a = Ticker::from("AAPL");
    let b = Ticker::new(String::from("AAPL"));
    assert!(a == b);
    assert!(!(a != b));
    assert!(a != Ticker::from("AAPl"));
    assert!(Ticker::from("") == Ticker::new(String::new()));
}

#[test]
fn ticker_is_read_as_its_text() {
    let ticker = Ticker::from("GOOG");
    let text: &str = ticker.as_ref();
    assert_eq!(text, "GOOG");
    assert_eq!(text, ticker.as_str());
}
