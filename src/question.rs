//! Extracting a trading target from a market's question, and deciding
//! whether a weather market is worth trading.
use vstd::prelude::*;
use crate::clock::now_millis;
use crate::text::{chars_of, contains, contains_chars, contains_str, lower_of, lowercase, occurs_at, occurs_at_exec};
use crate::types::Market;

verus! {

/// Direction of the threshold in a question.
#[derive(Debug, Clone, Copy, PartialEq, Eq, Structural)]
pub enum Comparison {
    Above,
    Below,
}

/// Structured target of a weather question. `threshold` is in micro-degrees
/// Celsius.
#[derive(Debug, Clone)]
pub struct WeatherMarketInfo {
    pub city: String,
    pub threshold: i64,
    pub comparison: Comparison,
}

/// Why a question could not be parsed.
#[derive(Debug, Clone, Copy, PartialEq, Eq, Structural)]
pub enum ParseError {
    UnknownCity,
    MissingThreshold,
    ThresholdOutOfRange,
    MissingComparison,
}

/// Largest integer part of a temperature that is read (in degrees).
pub const MAX_DEGREES: u64 = 1_000_000_000_000;

pub open spec fn is_digit(c: char) -> bool {
    '0' <= c && c <= '9'
}

pub open spec fn is_space(c: char) -> bool {
    c == ' ' || c == '\t' || c == '\n' || c == '\r' || c == '\x0B' || c == '\x0C'
}

/// End of the run of digits that starts at `i`.
pub open spec fn digits_end(q: Seq<char>, i: int) -> int
    decreases q.len() - i,
{
    if 0 <= i < q.len() && is_digit(q[i]) { digits_end(q, i + 1) } else { i }
}

/// End of the run of whitespace that starts at `i`.
pub open spec fn spaces_end(q: Seq<char>, i: int) -> int
    decreases q.len() - i,
{
    if 0 <= i < q.len() && is_space(q[i]) { spaces_end(q, i + 1) } else { i }
}

/// Whether a fractional part `.ddd` follows the integer digits ending at `e`.
pub open spec fn has_fraction(q: Seq<char>, e: int) -> bool {
    0 <= e && e + 1 < q.len() && q[e] == '.' && is_digit(q[e + 1])
}

/// End of the number `\d+(\.\d+)?` that starts at `s`.
pub open spec fn number_end(q: Seq<char>, s: int) -> int {
    let e = digits_end(q, s);
    if has_fraction(q, e) { digits_end(q, e + 1) } else { e }
}

/// A unit `°F`, `°C`, `degree` or `degrees` starts at `i`.
pub open spec fn unit_at(q: Seq<char>, i: int) -> bool {
    occurs_at(q, seq!['°', 'F'], i) || occurs_at(q, seq!['°', 'C'], i)
        || occurs_at(q, seq!['d', 'e', 'g', 'r', 'e', 'e'], i)
}

/// The temperature pattern matches at `s`: digits, an optional fraction,
/// optional whitespace, then a unit.
pub open spec fn temp_match_at(q: Seq<char>, s: int) -> bool {
    0 <= s < q.len() && is_digit(q[s]) && unit_at(q, spaces_end(q, number_end(q, s)))
}

/// The leftmost position where the temperature pattern matches.
pub open spec fn first_temp_match(q: Seq<char>) -> Option<int> {
    if exists|s: int| temp_match_at(q, s) {
        Some(choose|s: int| temp_match_at(q, s) && forall|k: int| 0 <= k < s ==> !temp_match_at(q, k))
    } else {
        None
    }
}

pub open spec fn digit_value(c: char) -> int {
    c as int - '0' as int
}

/// Value of a string of decimal digits.
pub open spec fn digits_value(d: Seq<char>) -> int
    decreases d.len(),
{
    if d.len() == 0 { 0 } else { digits_value(d.drop_last()) * 10 + digit_value(d.last()) }
}

/// Micro-units of a fractional part: its first six digits, padded with zeros.
pub open spec fn fraction_micros(f: Seq<char>) -> int {
    digits_value((f + seq!['0', '0', '0', '0', '0', '0']).subrange(0, 6))
}

/// The number matched at `s`, in micro-units (digits beyond the sixth
/// decimal are dropped).
pub open spec fn number_micros(q: Seq<char>, s: int) -> int {
    let e = digits_end(q, s);
    let whole = digits_value(q.subrange(s, e));
    if has_fraction(q, e) {
        whole * 1_000_000 + fraction_micros(q.subrange(e + 1, digits_end(q, e + 1)))
    } else {
        whole * 1_000_000
    }
}

/// The question states its temperature in Fahrenheit.
pub open spec fn is_fahrenheit(q: Seq<char>) -> bool {
    contains(q, seq!['°', 'F']) || contains(q, seq!['d', 'e', 'g', 'r', 'e', 'e', 's', ' ', 'F'])
}

/// `(t - 32) * 5 / 9` on micro-degrees, rounded down.
pub open spec fn fahrenheit_to_celsius(t: int) -> int {
    ((t - 32_000_000) * 5) / 9
}

/// Threshold in micro-degrees Celsius, or why none could be read.
pub open spec fn threshold_spec(q: Seq<char>) -> Result<int, ParseError> {
    match first_temp_match(q) {
        None => Err(ParseError::MissingThreshold),
        Some(s) => if digits_value(q.subrange(s, digits_end(q, s))) > MAX_DEGREES {
            Err(ParseError::ThresholdOutOfRange)
        } else if is_fahrenheit(q) {
            Ok(fahrenheit_to_celsius(number_micros(q, s)))
        } else {
            Ok(number_micros(q, s))
        },
    }
}

proof fn lemma_digits_end_bounds(q: Seq<char>, i: int)
    requires
        0 <= i <= q.len(),
    ensures
        i <= digits_end(q, i) <= q.len(),
        forall|k: int| i <= k < digits_end(q, i) ==> is_digit(q[k]),
        digits_end(q, i) == q.len() || !is_digit(q[digits_end(q, i)]),
    decreases q.len() - i,
{
    if i < q.len() && is_digit(q[i]) {
        lemma_digits_end_bounds(q, i + 1);
    }
}

fn digits_end_exec(q: &Vec<char>, i: usize) -> (r: usize)
    requires
        i <= q@.len(),
    ensures
        r == digits_end(q@, i as int),
{
    let mut j = i;
    while j < q.len() && '0' <= q[j] && q[j] <= '9'
        invariant
            i <= j <= q@.len(),
            digits_end(q@, j as int) == digits_end(q@, i as int),
        decreases q@.len() - j,
    {
        j += 1;
    }
    j
}

fn spaces_end_exec(q: &Vec<char>, i: usize) -> (r: usize)
    requires
        i <= q@.len(),
    ensures
        r == spaces_end(q@, i as int),
{
    let mut j = i;
    while j < q.len() && (q[j] == ' ' || q[j] == '\t' || q[j] == '\n' || q[j] == '\r' || q[j] == '\x0B' || q[j] == '\x0C')
        invariant
            i <= j <= q@.len(),
            spaces_end(q@, j as int) == spaces_end(q@, i as int),
        decreases q@.len() - j,
    {
        j += 1;
    }
    j
}

fn number_end_exec(q: &Vec<char>, s: usize) -> (r: usize)
    requires
        s <= q@.len(),
    ensures
        r == number_end(q@, s as int),
        s <= r <= q@.len(),
{
    let e = digits_end_exec(q, s);
    proof { lemma_digits_end_bounds(q@, s as int); }
    if e < q.len() && q[e] == '.' && e + 1 < q.len() && '0' <= q[e + 1] && q[e + 1] <= '9' {
        proof { lemma_digits_end_bounds(q@, e + 1); }
        digits_end_exec(q, e + 1)
    } else {
        e
    }
}

fn unit_at_exec(q: &Vec<char>, i: usize) -> (r: bool)
    ensures
        r == unit_at(q@, i as int),
{
    let f = vec!['°', 'F'];
    let c = vec!['°', 'C'];
    let d = vec!['d', 'e', 'g', 'r', 'e', 'e'];
    occurs_at_exec(q, &f, i) || occurs_at_exec(q, &c, i) || occurs_at_exec(q, &d, i)
}

fn temp_match_at_exec(q: &Vec<char>, s: usize) -> (r: bool)
    ensures
        r == temp_match_at(q@, s as int),
{
    if s >= q.len() || !('0' <= q[s] && q[s] <= '9') {
        return false;
    }
    let n = number_end_exec(q, s);
    let w = spaces_end_exec(q, n);
    unit_at_exec(q, w)
}

/// The leftmost match of the temperature pattern.
fn find_temp_match(q: &Vec<char>) -> (r: Option<usize>)
    ensures
        r is Some <==> first_temp_match(q@) is Some,
        r is Some ==> r->0 == first_temp_match(q@)->0 && r->0 < q@.len(),
{
    let mut s: usize = 0;
    while s < q.len()
        invariant
            s <= q@.len(),
            forall|k: int| 0 <= k < s ==> !temp_match_at(q@, k),
        decreases q@.len() - s,
    {
        if temp_match_at_exec(q, s) {
            assert(temp_match_at(q@, s as int) && forall|k: int| 0 <= k < s ==> !temp_match_at(q@, k));
            let ghost c = choose|t: int| temp_match_at(q@, t) && forall|k: int| 0 <= k < t ==> !temp_match_at(q@, k);
            assert(c == s as int) by {
                if c < s as int { assert(!temp_match_at(q@, c)); }
                if c > s as int { assert(!temp_match_at(q@, s as int)); }
            }
            return Some(s);
        }
        s += 1;
    }
    assert(!exists|t: int| temp_match_at(q@, t));
    None
}

/// Value of the digits `q[from..to]`, or `None` beyond `MAX_DEGREES`.
fn read_whole(q: &Vec<char>, from: usize, to: usize) -> (r: Option<u64>)
    requires
        from <= to <= q@.len(),
        forall|k: int| from <= k < to ==> is_digit(q@[k]),
    ensures
        r is Some <==> digits_value(q@.subrange(from as int, to as int)) <= MAX_DEGREES,
        r is Some ==> r->0 == digits_value(q@.subrange(from as int, to as int)),
{
    let mut acc: u64 = 0;
    let mut i = from;
    while i < to
        invariant
            from <= i <= to <= q@.len(),
            forall|k: int| from <= k < to ==> is_digit(q@[k]),
            acc <= MAX_DEGREES,
            acc == digits_value(q@.subrange(from as int, i as int)),
        decreases to - i,
    {
        let ghost prev = q@.subrange(from as int, i as int);
        assert(q@.subrange(from as int, i + 1).drop_last() =~= prev);
        let d = (q[i] as u32 - '0' as u32) as u64;
        acc = acc * 10 + d;
        i += 1;
        if acc > MAX_DEGREES {
            proof { lemma_digits_value_grows(q@, from as int, i as int, to as int); }
            return None;
        }
    }
    Some(acc)
}

/// A longer run of digits never has a smaller value.
proof fn lemma_digits_value_grows(q: Seq<char>, from: int, i: int, to: int)
    requires
        0 <= from <= i <= to <= q.len(),
        forall|k: int| from <= k < to ==> is_digit(q[k]),
    ensures
        digits_value(q.subrange(from, i)) <= digits_value(q.subrange(from, to)),
    decreases to - i,
{
    if i < to {
        lemma_digits_value_grows(q, from, i + 1, to);
        assert(q.subrange(from, i + 1).drop_last() =~= q.subrange(from, i));
        assert(digits_value(q.subrange(from, i)) >= 0) by { lemma_digits_value_nonneg(q.subrange(from, i)); }
    }
}

proof fn lemma_digits_value_nonneg(d: Seq<char>)
    requires
        forall|k: int| 0 <= k < d.len() ==> is_digit(d[k]),
    ensures
        digits_value(d) >= 0,
    decreases d.len(),
{
    if d.len() > 0 {
        lemma_digits_value_nonneg(d.drop_last());
    }
}

/// Micro-units of the fraction digits `q[from..to]`.
fn read_fraction(q: &Vec<char>, from: usize, to: usize) -> (r: u64)
    requires
        from <= to <= q@.len(),
        forall|k: int| from <= k < to ==> is_digit(q@[k]),
    ensures
        r == fraction_micros(q@.subrange(from as int, to as int)),
        r < 1_000_000,
{
    let mut acc: u64 = 0;
    let mut n: usize = 0;
    let ghost f = q@.subrange(from as int, to as int);
    let ghost padded = f + seq!['0', '0', '0', '0', '0', '0'];
    while n < 6
        invariant
            from <= to <= q@.len(),
            f == q@.subrange(from as int, to as int),
            padded == f + seq!['0', '0', '0', '0', '0', '0'],
            forall|k: int| from <= k < to ==> is_digit(q@[k]),
            n <= 6,
            acc == digits_value(padded.subrange(0, n as int)),
            acc < pow10(n as nat),
        decreases 6 - n,
    {
        let d: u64 = if n < to - from {
            (q[from + n] as u32 - '0' as u32) as u64
        } else {
            0
        };
        assert(padded.subrange(0, n + 1).drop_last() =~= padded.subrange(0, n as int));
        assert(padded[n as int] == if n < to - from { q@[from + n] } else { '0' });
        proof { reveal_with_fuel(pow10, 7); }
        acc = acc * 10 + d;
        n += 1;
    }
    proof { reveal_with_fuel(pow10, 7); }
    acc
}

pub open spec fn pow10(n: nat) -> int
    decreases n,
{
    if n == 0 { 1 } else { 10 * pow10((n - 1) as nat) }
}

/// City named by a lower-cased question, first match in the listed order.
pub open spec fn city_spec(l: Seq<char>) -> Option<Seq<char>> {
    if contains(l, "london"@) {
        Some("London"@)
    } else if contains(l, "new york"@) || contains(l, "nyc"@) {
        Some("New York"@)
    } else if contains(l, "chicago"@) {
        Some("Chicago"@)
    } else if contains(l, "seoul"@) {
        Some("Seoul"@)
    } else {
        None
    }
}

/// Direction named by a lower-cased question; "above" wins over "below".
pub open spec fn comparison_spec(l: Seq<char>) -> Option<Comparison> {
    if contains(l, "exceed"@) || contains(l, "above"@) || contains(l, ">"@) {
        Some(Comparison::Above)
    } else if contains(l, "below"@) || contains(l, "<"@) {
        Some(Comparison::Below)
    } else {
        None
    }
}

/// City, threshold (micro-degrees Celsius) and direction of a question, or
/// the first thing missing: city, then threshold, then direction.
pub open spec fn parse_spec(q: Seq<char>) -> Result<(Seq<char>, int, Comparison), ParseError> {
    let l = lower_of(q);
    match city_spec(l) {
        None => Err(ParseError::UnknownCity),
        Some(city) => match threshold_spec(q) {
            Err(e) => Err(e),
            Ok(t) => match comparison_spec(l) {
                None => Err(ParseError::MissingComparison),
                Some(c) => Ok((city, t, c)),
            },
        },
    }
}

fn fahrenheit_to_celsius_exec(t: i64) -> (r: i64)
    requires
        -32_000_000 <= t <= MAX_DEGREES * 1_000_000 + 1_000_000,
    ensures
        r == fahrenheit_to_celsius(t as int),
{
    let n: i64 = (t - 32_000_000) * 5;
    if n >= 0 {
        n / 9
    } else {
        let m: i64 = -n;
        let q: i64 = (m + 8) / 9;
        proof {
            assert(-(q as int) == (n as int) / 9) by (nonlinear_arith)
                requires n < 0, m == -n, q == (m + 8) / 9;
        }
        -q
    }
}

/// Read the temperature threshold of a question, in micro-degrees Celsius.
/// The first match of `(\d+(\.\d+)?)\s*(°F|°C|degrees?)` gives the number
/// (ASCII digits and whitespace); when the question says `°F` or
/// `degrees F` anywhere it is converted from Fahrenheit.
pub fn extract_temperature(question: &str) -> (r: Result<i64, ParseError>)
    ensures
        r is Ok <==> threshold_spec(question@) is Ok,
        r is Ok ==> r->Ok_0 == threshold_spec(question@)->Ok_0,
        r is Err ==> r->Err_0 == threshold_spec(question@)->Err_0,
{
    let q = chars_of(question);
    let s = match find_temp_match(&q) {
        None => return Err(ParseError::MissingThreshold),
        Some(s) => s,
    };
    let e = digits_end_exec(&q, s);
    proof { lemma_digits_end_bounds(q@, s as int); }
    let whole = match read_whole(&q, s, e) {
        None => return Err(ParseError::ThresholdOutOfRange),
        Some(w) => w,
    };
    let mut micros: i64 = (whole * 1_000_000) as i64;
    if e < q.len() && q[e] == '.' && e + 1 < q.len() && '0' <= q[e + 1] && q[e + 1] <= '9' {
        proof { lemma_digits_end_bounds(q@, e + 1); }
        let f_end = digits_end_exec(&q, e + 1);
        let frac = read_fraction(&q, e + 1, f_end);
        micros = micros + frac as i64;
    }
    assert(micros == number_micros(q@, s as int));
    proof {
        reveal_strlit("°F");
        reveal_strlit("degrees F");
    }
    let fahrenheit = contains_str(&q, "°F") || contains_str(&q, "degrees F");
    assert("°F"@ == seq!['°', 'F']);
    assert("degrees F"@ == seq!['d', 'e', 'g', 'r', 'e', 'e', 's', ' ', 'F']);
    if fahrenheit {
        Ok(fahrenheit_to_celsius_exec(micros))
    } else {
        Ok(micros)
    }
}

/// Parse a weather question into city, threshold and direction, matching
/// case-insensitively. Cities are London, New York (or NYC), Chicago and
/// Seoul, tried in that order; "exceed", "above" or ">" mean above, "below"
/// or "<" below.
pub fn parse_weather_question(question: &str) -> (r: Result<WeatherMarketInfo, ParseError>)
    ensures
        r is Ok <==> parse_spec(question@) is Ok,
        r is Ok ==> ({
            let (city, t, c) = parse_spec(question@)->Ok_0;
            &&& r->Ok_0.city@ == city
            &&& r->Ok_0.threshold == t
            &&& r->Ok_0.comparison == c
        }),
        r is Err ==> r->Err_0 == parse_spec(question@)->Err_0,
{
    let lower = lowercase(question);
    let l = chars_of(lower.as_str());
    let city: &str = if contains_str(&l, "london") {
        "London"
    } else if contains_str(&l, "new york") || contains_str(&l, "nyc") {
        "New York"
    } else if contains_str(&l, "chicago") {
        "Chicago"
    } else if contains_str(&l, "seoul") {
        "Seoul"
    } else {
        return Err(ParseError::UnknownCity);
    };
    let threshold = match extract_temperature(question) {
        Ok(t) => t,
        Err(e) => return Err(e),
    };
    let comparison = if contains_str(&l, "exceed") || contains_str(&l, "above") || contains_str(&l, ">") {
        Comparison::Above
    } else if contains_str(&l, "below") || contains_str(&l, "<") {
        Comparison::Below
    } else {
        return Err(ParseError::MissingComparison);
    };
    Ok(WeatherMarketInfo { city: city.to_owned(), threshold, comparison })
}

/// Milliseconds in an hour.
pub const HOUR_MS: i64 = 3_600_000;
/// Smallest 24-hour volume traded: 5000 dollars, in micro-dollars.
pub const MIN_VOLUME: u64 = 5_000_000_000;

/// Whole hours from `now` until `end`, truncated toward zero.
pub open spec fn hours_until(end: int, now: int) -> int {
    let d = end - now;
    if d >= 0 { d / (HOUR_MS as int) } else { -((-d) / (HOUR_MS as int)) }
}

/// The lower-cased question names a temperature.
pub open spec fn mentions_temperature(l: Seq<char>) -> bool {
    contains(l, "temperature"@) || contains(l, "temp"@) || contains(l, "°f"@) || contains(l, "°c"@)
}

/// The lower-cased question holds a clear threshold marker.
pub open spec fn has_clear_threshold(l: Seq<char>) -> bool {
    contains(l, ">"@) || contains(l, "<"@) || contains(l, "above"@) || contains(l, "below"@)
        || contains(l, "exceed"@)
}

/// Some configured city, lower-cased, occurs in the lower-cased question.
pub open spec fn mentions_city(l: Seq<char>, cities: Seq<String>) -> bool {
    exists|i: int| 0 <= i < cities.len() && contains(l, lower_of(cities[i]@))
}

/// A weather market is tradable when it is about temperature in a target
/// city, resolves in 24 to 72 hours, traded at least 5000 dollars in the
/// last day and states a clear threshold.
pub open spec fn tradable_spec(q: Seq<char>, end_date: int, volume: int, cities: Seq<String>, now: int) -> bool {
    let l = lower_of(q);
    &&& mentions_temperature(l)
    &&& mentions_city(l, cities)
    &&& 24 <= hours_until(end_date, now) <= 72
    &&& volume >= MIN_VOLUME
    &&& has_clear_threshold(l)
}

/// Whether to trade a weather market at instant `now` (milliseconds since
/// the epoch), given the configured target cities.
pub fn should_trade_weather_market_at(market: &Market, config_cities: &Vec<String>, now: i64) -> (r: bool)
    ensures
        r == tradable_spec(market.question@, market.end_date as int, market.volume_24h as int, config_cities@, now as int),
{
    let lower = lowercase(market.question.as_str());
    let l = chars_of(lower.as_str());
    proof { reveal_strlit("°f"); reveal_strlit("°c"); }
    let is_temperature = contains_str(&l, "temperature") || contains_str(&l, "temp")
        || contains_str(&l, "°f") || contains_str(&l, "°c");
    if !is_temperature {
        return false;
    }
    let mut in_target_city = false;
    let mut i: usize = 0;
    while i < config_cities.len()
        invariant
            i <= config_cities@.len(),
            l@ == lower_of(market.question@),
            in_target_city == exists|k: int| 0 <= k < i && contains(l@, lower_of(config_cities@[k]@)),
        decreases config_cities@.len() - i,
    {
        let city_lower = lowercase(config_cities[i].as_str());
        let c = chars_of(city_lower.as_str());
        if contains_chars(&l, &c) {
            in_target_city = true;
        }
        proof {
            if in_target_city {
                let w = if contains(l@, c@) { i as int } else {
                    choose|k: int| 0 <= k < i && contains(l@, lower_of(config_cities@[k]@))
                };
                assert(0 <= w < i + 1 && contains(l@, lower_of(config_cities@[w]@)));
            }
        }
        i += 1;
    }
    if !in_target_city {
        return false;
    }
    let d: i128 = (market.end_date as i128) - (now as i128);
    let hours: i128 = if d >= 0 { d / (HOUR_MS as i128) } else { -((-d) / (HOUR_MS as i128)) };
    if hours < 24 || hours > 72 {
        return false;
    }
    if market.volume_24h < MIN_VOLUME {
        return false;
    }
    contains_str(&l, ">") || contains_str(&l, "<") || contains_str(&l, "above") || contains_str(&l, "below")
        || contains_str(&l, "exceed")
}

/// Whether to trade a weather market now. The instant comes from the wall
/// clock; the decision is `should_trade_weather_market_at` at that instant.
pub fn should_trade_weather_market(market: &Market, config_cities: &Vec<String>) -> (r: bool)
    ensures
        exists|now: i64| r == tradable_spec(market.question@, market.end_date as int, market.volume_24h as int, config_cities@, now as int),
{
    let now = now_millis();
    should_trade_weather_market_at(market, config_cities, now)
}

/// Cities a weather market must name to be considered at all.
pub open spec fn names_known_city(l: Seq<char>) -> bool {
    contains(l, "london"@) || contains(l, "new york"@) || contains(l, "nyc"@) || contains(l, "chicago"@)
        || contains(l, "seoul"@)
}

/// The lower-cased question names any kind of weather.
pub open spec fn mentions_weather(l: Seq<char>) -> bool {
    contains(l, "temperature"@) || contains(l, "temp"@) || contains(l, "°f"@) || contains(l, "°c"@)
        || contains(l, "degrees"@) || contains(l, "weather"@) || contains(l, "rain"@) || contains(l, "snow"@)
}

/// Whether a market is about the weather in one of the known cities.
pub fn is_weather_market(market: &Market) -> (r: bool)
    ensures
        r == (mentions_weather(lower_of(market.question@)) && names_known_city(lower_of(market.question@))),
{
    let lower = lowercase(market.question.as_str());
    let l = chars_of(lower.as_str());
    proof { reveal_strlit("°f"); reveal_strlit("°c"); }
    let weather = contains_str(&l, "temperature") || contains_str(&l, "temp") || contains_str(&l, "°f")
        || contains_str(&l, "°c") || contains_str(&l, "degrees") || contains_str(&l, "weather")
        || contains_str(&l, "rain") || contains_str(&l, "snow");
    let city = contains_str(&l, "london") || contains_str(&l, "new york") || contains_str(&l, "nyc")
        || contains_str(&l, "chicago") || contains_str(&l, "seoul");
    weather && city
}

} // verus!
