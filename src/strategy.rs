//! The weather-edge strategy: combine two forecasts, measure the edge over
//! the market price, pick a side and size it.
use vstd::prelude::*;
use crate::SCALE;
use crate::config::WeatherStrategyConfig;
use crate::kelly::{calculate_kelly_position, kelly_size};
use crate::question::{Comparison, WeatherMarketInfo};
use crate::text::equals_str;
use crate::types::{Market, ProbabilisticForecast, Side, Signal, Strategy};

verus! {

/// Largest gap between the two sources' probabilities that is still trusted: 10%.
pub const MAX_FORECAST_GAP: u64 = 100_000;

pub open spec fn abs_diff(a: int, b: int) -> int {
    if a >= b { a - b } else { b - a }
}

/// Probability that the question resolves YES, from the two sources' mean
/// (rounded down) and the question's direction.
pub open spec fn yes_probability(p1: int, p2: int, comparison: Comparison) -> int {
    let p = (p1 + p2) / 2;
    match comparison {
        Comparison::Above => p,
        Comparison::Below => SCALE - p,
    }
}

/// The trade the strategy proposes: side, entry price, size, edge and
/// confidence; `None` when the sources disagree by more than 10% or the
/// edge is below `min_edge`.
pub open spec fn weather_trade(
    market: Market,
    comparison: Comparison,
    noaa: ProbabilisticForecast,
    open_meteo: ProbabilisticForecast,
    capital: int,
    max_position_pct: int,
    min_edge: int,
) -> Option<(Side, int, int, int, int)> {
    if abs_diff(noaa.probability as int, open_meteo.probability as int) > MAX_FORECAST_GAP {
        None
    } else {
        let p = yes_probability(noaa.probability as int, open_meteo.probability as int, comparison);
        let edge = abs_diff(p, market.yes_price as int);
        if edge < min_edge {
            None
        } else {
            let side = if p > market.yes_price { Side::Yes } else { Side::No };
            let entry = if p > market.yes_price { market.yes_ask as int } else { market.no_ask as int };
            let size = kelly_size(capital, p, entry, max_position_pct);
            let confidence = (noaa.confidence + open_meteo.confidence) / 2;
            Some((side, entry, size, edge, confidence))
        }
    }
}

pub struct WeatherEdgeStrategy {
    pub config: WeatherStrategyConfig,
}

impl WeatherEdgeStrategy {
    pub fn new(config: WeatherStrategyConfig) -> (r: Self)
        ensures
            r.config == config,
    {
        WeatherEdgeStrategy { config }
    }

    /// Turn the two forecasts for a parsed market into a signal, or `None`
    /// when the sources disagree by more than 10% or the edge is below the
    /// configured minimum. Capital is in micro-dollars, the position cap in
    /// parts per million.
    pub fn evaluate_forecasts(
        &self,
        market: &Market,
        info: &WeatherMarketInfo,
        noaa: &ProbabilisticForecast,
        open_meteo: &ProbabilisticForecast,
        capital: u64,
        max_position_pct: u64,
    ) -> (r: Option<Signal>)
        requires
            market.wf(),
            noaa.wf(),
            open_meteo.wf(),
        ensures
            r is Some <==> weather_trade(*market, info.comparison, *noaa, *open_meteo, capital as int,
                max_position_pct as int, self.config.min_edge as int) is Some,
            r is Some ==> ({
                let (side, entry, size, edge, confidence) = weather_trade(*market, info.comparison, *noaa,
                    *open_meteo, capital as int, max_position_pct as int, self.config.min_edge as int)->0;
                let s = r->0;
                &&& s.market_id@ == market.id@
                &&& s.strategy == Strategy::WeatherEdge
                &&& s.side == Some(side)
                &&& s.entry_price == entry
                &&& s.size == size
                &&& s.edge == Some(edge as u64)
                &&& s.confidence == confidence
            }),
    {
        let pn = noaa.probability;
        let po = open_meteo.probability;
        let gap = if pn >= po { pn - po } else { po - pn };
        if gap > MAX_FORECAST_GAP {
            return None;
        }
        let mean = (pn + po) / 2;
        let p = match info.comparison {
            Comparison::Above => mean,
            Comparison::Below => SCALE - mean,
        };
        let yes_price = market.yes_price;
        let edge = if p >= yes_price { p - yes_price } else { yes_price - p };
        if edge < self.config.min_edge {
            return None;
        }
        let side = if p > yes_price { Side::Yes } else { Side::No };
        let entry_price = if p > yes_price { market.yes_ask } else { market.no_ask };
        let size = calculate_kelly_position(capital, p, entry_price, max_position_pct);
        let confidence = (noaa.confidence + open_meteo.confidence) / 2;
        Some(Signal {
            market_id: market.id.clone(),
            strategy: Strategy::WeatherEdge,
            side: Some(side),
            entry_price,
            size,
            edge: Some(edge),
            confidence,
        })
    }
}

/// Latitude and longitude in micro-degrees.
#[derive(Debug, Clone, Copy, PartialEq, Eq, Structural)]
pub struct Coordinates {
    pub lat: i64,
    pub lon: i64,
}

/// Coordinates of the cities that forecasts can be fetched for.
pub open spec fn coords_spec(city: Seq<char>) -> Option<Coordinates> {
    if city == "London"@ {
        Some(Coordinates { lat: 51_507_400, lon: -127_800i64 })
    } else if city == "New York"@ || city == "NYC"@ {
        Some(Coordinates { lat: 40_712_800, lon: -74_006_000i64 })
    } else if city == "Chicago"@ {
        Some(Coordinates { lat: 41_878_100, lon: -87_629_800i64 })
    } else if city == "Seoul"@ {
        Some(Coordinates { lat: 37_566_500, lon: 126_978_000 })
    } else {
        None
    }
}

/// Look up a city's coordinates by its exact, case-sensitive name.
pub fn city_to_coords(city: &str) -> (r: Option<Coordinates>)
    ensures
        r == coords_spec(city@),
{
    let c = crate::text::chars_of(city);
    if equals_str(&c, "London") {
        Some(Coordinates { lat: 51_507_400, lon: -127_800 })
    } else if equals_str(&c, "New York") || equals_str(&c, "NYC") {
        Some(Coordinates { lat: 40_712_800, lon: -74_006_000 })
    } else if equals_str(&c, "Chicago") {
        Some(Coordinates { lat: 41_878_100, lon: -87_629_800 })
    } else if equals_str(&c, "Seoul") {
        Some(Coordinates { lat: 37_566_500, lon: 126_978_000 })
    } else {
        None
    }
}

} // verus!
