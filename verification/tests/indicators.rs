use simple_tracker::messages::PerformanceIndicators;
use simple_tracker::performance_indicators::{change_endpoints, max, min, window_count};
use simple_tracker::price::{bits_are_nan, bits_less, Percentage, Price};
use simple_tracker::ticker::Ticker;
use simple_tracker::timestamp::Timestamp;

fn bits(series: &[f64]) -> Vec<u64> {
    series.iter().map(|x| x.to_bits()).collect()
}

fn rolling_averages(n: usize, series: &[f64]) -> Option<Vec<u64>> {
    let count = window_count(n, series.len())?;
    let mut window: f64 = series.iter().take(n).sum();
    let mut averages = vec![(window / n as f64).to_bits()];
    for k in 1..count {
        window += series[k + n - 1] - series[k - 1];
        averages.push((window / n as f64).to_bits());
    }
    Some(averages)
}

fn change(series: &[f64]) -> Option<(u64, u64)> {
    let (first, last) = change_endpoints(series.len())?;
    Some((
        ((series[last] / series[first]) * 100_f64).to_bits(),
        (series[last] - series[first]).to_bits(),
    ))
}

#[test]
fn performance_actor_min_returns_none_on_empty_list() {
    assert_eq!(min(&[]), None);
}

#[test]
fn performance_actor_min_returns_minimum_value_on_non_empty_list() {
    assert_eq!(min(&bits(&[3f64, 2f64, 14f64])), Some(2f64.to_bits()));
}

#[test]
fn performance_actor_max_returns_none_on_empty_list() {
    assert_eq!(max(&[]), None);
}

#[test]
fn performance_actor_max_returns_max_value_on_non_empty_list() {
    assert_eq!(max(&bits(&[3f64, 1f64, 14f64, 2f64])), Some(14f64.to_bits()));
}

#[test]
fn performance_indicators_min_returns_none_on_empty_list() {
    assert_eq!(min(&[]), None);
}

#[test]
fn performance_indicators_min_returns_minimum_value_on_non_empty_list() {
    assert_eq!(min(&bits(&[3f64, 2f64, 14f64])), Some(2f64.to_bits()));
}

#[test]
fn performance_indicators_max_returns_none_on_empty_list() {
    assert_eq!(max(&[]), None);
}

#[test]
fn performance_indicators_max_returns_max_value_on_non_empty_list() {
    assert_eq!(max(&bits(&[3f64, 1f64, 14f64, 2f64])), Some(14f64.to_bits()));
}

#[test]
fn performance_actor_n_window_sma_returns_none_if_n_is_0() {
    assert_eq!(window_count(0, [1f64].len()), None);
    assert_eq!(rolling_averages(0, &[1f64]), None);
}

#[test]
fn performance_actor_n_window_sma_returns_none_if_n_is_greater_than_series() {
    assert_eq!(window_count(15, [1f64].len()), None);
    assert_eq!(rolling_averages(15, &[1f64]), None);
}

#[test]
fn performance_indicators_n_window_sma_returns_none_if_n_is_0() {
    assert_eq!(window_count(0, 1), None);
}

#[test]
fn performance_indicators_n_window_sma_returns_none_if_n_is_greater_than_series() {
    assert_eq!(window_count(15, 1), None);
}

#[test]
fn performance_actor_price_diff_returns_none_if_series_is_smaller_than_2() {
    assert_eq!(change_endpoints([1f64].len()), None);
    assert_eq!(change(&[1f64]), None);
}

#[test]
fn performance_indicators_price_diff_returns_none_if_series_is_smaller_than_2() {
    assert_eq!(change_endpoints(1), None);
    assert_eq!(change_endpoints(0), None);
}

#[test]
fn window_count_is_one_per_position_of_the_window() {
    assert_eq!(window_count(2, 4), Some(3));
    assert_eq!(window_count(4, 4), Some(1));
    assert_eq!(window_count(1, 4), Some(4));
    assert_eq!(window_count(5, 4), None);
    assert_eq!(window_count(0, 0), None);
    assert_eq!(window_count(usize::MAX, usize::MAX), Some(1));
    assert_eq!(window_count(1, usize::MAX), Some(usize::MAX));
}

#[test]
fn change_is_measured_between_first_and_last() {
    assert_eq!(change_endpoints(2), Some((0, 1)));
    assert_eq!(change_endpoints(3), Some((0, 2)));
    assert_eq!(change_endpoints(usize::MAX), Some((0, usize::MAX - 1)));
}

#[test]
fn bit_order_is_the_order_of_the_numbers() {
    let values = [
        f64::NEG_INFINITY,
        f64::MIN,
        -14.0,
        -2.5,
        -1.0,
        -f64::MIN_POSITIVE,
        -5e-324,
        -0.0,
        0.0,
        5e-324,
        f64::MIN_POSITIVE,
        1.0,
        2.5,
        7.5,
        14.0,
        f64::MAX,
        f64::INFINITY,
        f64::NAN,
        -f64::NAN,
    ];
    for a in values.iter() {
        assert_eq!(bits_are_nan(a.to_bits()), a.is_nan());
        for b in values.iter() {
            assert_eq!(bits_less(a.to_bits(), b.to_bits()), a < b, "{} < {}", a, b);
        }
    }
}

#[test]
fn min_and_max_bound_every_sample() {
    let series = [4.5, -3.0, 0.0, 17.25, -0.0, 2.0, -3.0];
    let lowest = f64::from_bits(min(&bits(&series)).unwrap());
    let highest = f64::from_bits(max(&bits(&series)).unwrap());
    assert_eq!(lowest, -3.0);
    assert_eq!(highest, 17.25);
    for x in series.iter() {
        assert!(lowest <= *x && *x <= highest);
    }
}

#[test]
fn min_and_max_keep_the_first_of_equal_samples() {
    assert_eq!(min(&bits(&[0.0, -0.0])), Some(0.0f64.to_bits()));
    assert_eq!(min(&bits(&[-0.0, 0.0])), Some((-0.0f64).to_bits()));
    assert_eq!(max(&bits(&[-0.0, 0.0])), Some((-0.0f64).to_bits()));
}

#[test]
fn nan_neither_replaces_nor_is_replaced() {
    assert_eq!(min(&bits(&[1.0, f64::NAN, 0.5])), Some(0.5f64.to_bits()));
    assert_eq!(max(&bits(&[1.0, f64::NAN, 0.5])), Some(1.0f64.to_bits()));
    assert_eq!(min(&bits(&[f64::NAN, 1.0])), Some(f64::NAN.to_bits()));
    assert_eq!(max(&bits(&[f64::NAN, 1.0])), Some(f64::NAN.to_bits()));
}

#[test]
fn performance_indicators_constructor_has_correct_metrics() {
    let series = [15f64, 13f64, 2f64, 7.5f64];
    let time = Timestamp::new(1_593_718_200, 0);
    let expected = PerformanceIndicators {
        ticker: Ticker::from("TEST"),
        current_price: Some(Price(7.5f64.to_bits())),
        time,
        min: Some(Price(2f64.to_bits())),
        max: Some(Price(15f64.to_bits())),
        n_window_sma: Some(Price(4.75f64.to_bits())),
        percentage_change: Some(Percentage(50f64.to_bits())),
        abs_change: Some(Price((-7.5f64).to_bits())),
    };
    assert_eq!(
        PerformanceIndicators::new(
            2,
            &bits(&series),
            Ticker::from("TEST"),
            time,
            rolling_averages(2, &series),
            change(&series),
        ),
        expected
    );
}

#[test]
fn published_average_is_the_last_of_the_rolling_averages() {
    let series = [15f64, 13f64, 2f64, 11f64];
    let averages = rolling_averages(2, &series);
    assert_eq!(averages, Some(bits(&[14f64, 7.5f64, 6.5f64])));
    let indicators = PerformanceIndicators::new(
        2,
        &bits(&series),
        Ticker::from("TEST"),
        Timestamp::new(0, 0),
        averages,
        change(&series),
    );
    assert_eq!(indicators.n_window_sma, Some(Price(6.5f64.to_bits())));
}

#[test]
fn fields_are_absent_where_the_series_does_not_admit_them() {
    let time = Timestamp::new(7, 9);
    let empty = PerformanceIndicators::new(
        20,
        &[],
        Ticker::from("test"),
        time,
        Some(vec![1f64.to_bits()]),
        Some((1f64.to_bits(), 2f64.to_bits())),
    );
    assert_eq!(
        empty,
        PerformanceIndicators {
            ticker: Ticker::from("test"),
            time,
            current_price: None,
            min: None,
            max: None,
            n_window_sma: None,
            percentage_change: None,
            abs_change: None,
        }
    );
    let single = PerformanceIndicators::new(
        1,
        &bits(&[3.0]),
        Ticker::from("test"),
        time,
        Some(bits(&[3.0])),
        Some((100f64.to_bits(), 0f64.to_bits())),
    );
    assert_eq!(single.current_price, Some(Price(3f64.to_bits())));
    assert_eq!(single.min, Some(Price(3f64.to_bits())));
    assert_eq!(single.max, Some(Price(3f64.to_bits())));
    assert_eq!(single.n_window_sma, Some(Price(3f64.to_bits())));
    assert_eq!(single.percentage_change, None);
    assert_eq!(single.abs_change, None);
}

#[test]
fn averages_of_the_wrong_number_are_not_used() {
    let series = bits(&[15f64, 13f64, 2f64, 11f64]);
    let ticker = Ticker::from("test");
    let time = Timestamp::new(0, 0);
    let short = PerformanceIndicators::new(2, &series, ticker.clone(), time, Some(bits(&[14.0])), None);
    assert_eq!(short.n_window_sma, None);
    let none = PerformanceIndicators::new(2, &series, ticker.clone(), time, None, None);
    assert_eq!(none.n_window_sma, None);
    let too_wide = PerformanceIndicators::new(5, &series, ticker, time, Some(bits(&[14.0])), None);
    assert_eq!(too_wide.n_window_sma, None);
}

#[test]
fn change_is_ratio_to_first_and_difference() {
    assert_eq!(change(&[16f64, 3f64, 32f64]), Some((200f64.to_bits(), 16f64.to_bits())));
    assert_eq!(change(&[16f64, 3f64, 0f64]), Some((0f64.to_bits(), (-16f64).to_bits())));
    let indicators = PerformanceIndicators::new(
        30,
        &bits(&[16f64, 3f64, 32f64]),
        Ticker::from("A"),
        Timestamp::new(0, 0),
        None,
        change(&[16f64, 3f64, 32f64]),
    );
    assert_eq!(indicators.percentage_change, Some(Percentage(200f64.to_bits())));
    assert_eq!(indicators.abs_change, Some(Price(16f64.to_bits())));
}

#[test]
fn performance_actor_n_window_sma_returns_correct_simple_moving_average() {
    let series = [15f64, 13f64, 2f64, 11f64];
    let expected_sma = bits(&[14f64, 7.5f64, 6.5f64]);
    assert_eq!(window_count(2, series.len()), Some(expected_sma.len()));
    assert_eq!(rolling_averages(2, &series), Some(expected_sma));
}

#[test]
fn performance_indicators_n_window_sma_returns_correct_simple_moving_average() {
    let series = [15f64, 13f64, 2f64, 11f64];
    let indicators = PerformanceIndicators::new(
        2,
        &bits(&series),
        Ticker::from("TEST"),
        Timestamp::new(0, 0),
        rolling_averages(2, &series),
        None,
    );
    assert_eq!(indicators.n_window_sma, Some(Price(6.5f64.to_bits())));
}

#[test]
fn performance_actor_price_diff_returns_correct_abs_and_percentage_diff_on_positive_change() {
    let series = [16f64, 3f64, 32f64];
    let expected = (200f64.to_bits(), 16f64.to_bits());
    assert_eq!(change_endpoints(series.len()), Some((0, 2)));
    assert_eq!(change(&series), Some(expected));
}

#[test]
fn performance_actor_price_diff_returns_correct_abs_and_percentage_diff_on_negative_change() {
    let series = [16f64, 3f64, 0f64];
    let expected = (0f64.to_bits(), (-16f64).to_bits());
    assert_eq!(change_endpoints(series.len()), Some((0, 2)));
    assert_eq!(change(&series), Some(expected));
}

#[test]
fn performance_indicators_price_diff_returns_correct_abs_and_percentage_diff_on_positive_change() {
    let series = [16f64, 3f64, 32f64];
    let indicators = PerformanceIndicators::new(
        30,
        &bits(&series),
        Ticker::from("TEST"),
        Timestamp::new(0, 0),
        None,
        change(&series),
    );
    assert_eq!(indicators.percentage_change, Some(Percentage(200f64.to_bits())));
    assert_eq!(indicators.abs_change, Some(Price(16f64.to_bits())));
}

#[test]
fn performance_indicators_price_diff_returns_correct_abs_and_percentage_diff_on_negative_change() {
    let series = [16f64, 3f64, 0f64];
    let indicators = PerformanceIndicators::new(
        30,
        &bits(&series),
        Ticker::from("TEST"),
        Timestamp::new(0, 0),
        None,
        change(&series),
    );
    assert_eq!(indicators.percentage_change, Some(Percentage(0f64.to_bits())));
    assert_eq!(indicators.abs_change, Some(Price((-16f64).to_bits())));
}
