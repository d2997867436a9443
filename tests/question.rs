use polymarket_bot::question::{extract_temperature, parse_weather_question, Comparison, ParseError};

fn celsius(micros: i64) -> f64 {
    micros as f64 / 1_000_000.0
}

#[test]
fn test_parse_weather_question() {
    let question = "Will NYC temperature exceed 60°F on 2026-02-17?";
    let info = parse_weather_question(question).unwrap();
    assert_eq!(info.city, "New York");
    assert!((celsius(info.threshold) - 15.56).abs() < 0.1);
    assert_eq!(info.comparison, Comparison::Above);
}

#[test]
fn test_extract_temperature() {
    assert!((celsius(extract_temperature("60°F").unwrap()) - 15.56).abs() < 0.1);
    assert!((celsius(extract_temperature("15°C").unwrap()) - 15.0).abs() < 0.1);
    assert!((celsius(extract_temperature("20.5 degrees C").unwrap()) - 20.5).abs() < 0.1);
}

#[test]
fn extract_temperature_exact_values() {
    assert_eq!(extract_temperature("60°F"), Ok(15_555_555));
    assert_eq!(extract_temperature("20.5 degrees C"), Ok(20_500_000));
    assert_eq!(extract_temperature("it is 0.1234567°C"), Ok(123_456));
    assert_eq!(extract_temperature("14°F"), Ok(-10_000_000));
    assert_eq!(extract_temperature("1 degree"), Ok(1_000_000));
}

#[test]
fn extract_temperature_takes_first_match() {
    // "2026" is not followed by a unit; "1.5.3°C" matches at "5.3"
    assert_eq!(extract_temperature("on 2026-02-17 above 18 °C"), Ok(18_000_000));
    assert_eq!(extract_temperature("1.5.3°C"), Ok(5_300_000));
}

#[test]
fn extract_temperature_missing() {
    assert_eq!(extract_temperature("Will it be warm?"), Err(ParseError::MissingThreshold));
    assert_eq!(extract_temperature("60 F"), Err(ParseError::MissingThreshold));
    assert_eq!(extract_temperature("99999999999999°C"), Err(ParseError::ThresholdOutOfRange));
}

#[test]
fn parse_below_and_other_cities() {
    let info = parse_weather_question("Will London temp fall below 5°C tomorrow?").unwrap();
    assert_eq!(info.city, "London");
    assert_eq!(info.threshold, 5_000_000);
    assert_eq!(info.comparison, Comparison::Below);
    let info = parse_weather_question("SEOUL temperature < 30 degrees C?").unwrap();
    assert_eq!(info.city, "Seoul");
    assert_eq!(info.comparison, Comparison::Below);
    let info = parse_weather_question("Chicago high > 32°F").unwrap();
    assert_eq!(info.city, "Chicago");
    assert_eq!(info.threshold, 0);
    assert_eq!(info.comparison, Comparison::Above);
}

#[test]
fn parse_city_order_prefers_london() {
    let info = parse_weather_question("London or New York above 10°C?").unwrap();
    assert_eq!(info.city, "London");
}

#[test]
fn parse_errors_in_order() {
    assert_eq!(parse_weather_question("Will Paris exceed 20°C?").err(), Some(ParseError::UnknownCity));
    assert_eq!(parse_weather_question("Will NYC be hot?").err(), Some(ParseError::MissingThreshold));
    assert_eq!(parse_weather_question("NYC at 20°C on Monday?").err(), Some(ParseError::MissingComparison));
}
