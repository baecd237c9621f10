//! Normalization of a decoded report into canonical metric units.
//!
//! The verified core carries no floating-point numbers, so a metric value is
//! kept symbolically: the imperial reading exactly as the device sent it,
//! together with the unit conversion that turns it metric. Evaluating the
//! conversion over the reading in IEEE-754 double precision — the embedding
//! application does that at the write boundary — yields the metric number.

use vstd::prelude::*;

use crate::decode::EcowittPayload;
use crate::decode::EcowittPayloadV;
use crate::numerals::Numeral;
use crate::numerals::is_decimal;

verus! {

/// One of the unit conversions of the pipeline, each a fixed arithmetic map
/// over an IEEE-754 double:
/// - `FahrenheitToCelsius`: `(x - 32) * 5 / 9`
/// - `MphToKph`: `x * 1.60934`
/// - `InchesToMm`: `x * 25.4`
/// - `InHgToHpa`: `x * 33.863889532611`
/// - `Keep`: `x`, for readings already metric or dimensionless
#[derive(Structural, Debug, Clone, Copy, PartialEq, Eq)]
pub enum UnitConversion {
    FahrenheitToCelsius,
    MphToKph,
    InchesToMm,
    InHgToHpa,
    Keep,
}

/// A metric value, symbolically: the conversion `conv` applied to the
/// imperial reading `raw`.
#[derive(Debug, Clone, PartialEq, Eq)]
pub struct Quantity {
    pub conv: UnitConversion,
    pub raw: Numeral,
}

/// Mathematical image of a `Quantity`.
pub struct QuantityV {
    pub conv: UnitConversion,
    pub raw: Seq<char>,
}

impl View for Quantity {
    type V = QuantityV;

    open spec fn view(&self) -> QuantityV {
        QuantityV { conv: self.conv, raw: self.raw@ }
    }
}

impl Quantity {
    /// The raw reading is a finite decimal numeral.
    pub open spec fn wf(&self) -> bool {
        is_decimal(self.raw@)
    }
}

/// The eight rain accumulators, all converted inches to millimeters
/// (millimeters per hour for the rate).
#[derive(Debug, Clone, PartialEq, Eq)]
pub struct Rain {
    pub rainrate: Quantity,
    pub eventrain: Quantity,
    pub totalrain: Quantity,
    pub hourlyrain: Quantity,
    pub dailyrain: Quantity,
    pub weeklyrain: Quantity,
    pub monthlyrain: Quantity,
    pub yearlyrain: Quantity,
}

/// Mathematical image of the rain group.
pub struct RainV {
    pub rainrate: QuantityV,
    pub eventrain: QuantityV,
    pub totalrain: QuantityV,
    pub hourlyrain: QuantityV,
    pub dailyrain: QuantityV,
    pub weeklyrain: QuantityV,
    pub monthlyrain: QuantityV,
    pub yearlyrain: QuantityV,
}

impl View for Rain {
    type V = RainV;

    open spec fn view(&self) -> RainV {
        RainV {
            rainrate: self.rainrate@,
            eventrain: self.eventrain@,
            totalrain: self.totalrain@,
            hourlyrain: self.hourlyrain@,
            dailyrain: self.dailyrain@,
            weeklyrain: self.weeklyrain@,
            monthlyrain: self.monthlyrain@,
            yearlyrain: self.yearlyrain@,
        }
    }
}

/// The canonical metric measurement derived from one accepted report:
/// temperatures in Celsius, wind in km/h, pressures in hPa, rain in mm,
/// humidities, wind direction, solar radiation, UV index and vapor-pressure
/// deficit unchanged.
#[derive(Debug, Clone, PartialEq, Eq)]
pub struct MetricWeather {
    pub temp_outdoors: Quantity,
    pub humidity_outdoors: i32,
    pub temp_indoors: Quantity,
    pub humidity_indoors: i32,
    pub windspeed: Quantity,
    pub windgust: Quantity,
    pub winddir: u16,
    pub pressure_abs: Quantity,
    pub pressure_rel: Quantity,
    pub rain: Rain,
    pub solarradiation: Quantity,
    pub uv: i32,
    pub vpd: Quantity,
}

/// Mathematical image of a metric measurement.
pub struct MetricWeatherV {
    pub temp_outdoors: QuantityV,
    pub humidity_outdoors: i32,
    pub temp_indoors: QuantityV,
    pub humidity_indoors: i32,
    pub windspeed: QuantityV,
    pub windgust: QuantityV,
    pub winddir: u16,
    pub pressure_abs: QuantityV,
    pub pressure_rel: QuantityV,
    pub rain: RainV,
    pub solarradiation: QuantityV,
    pub uv: i32,
    pub vpd: QuantityV,
}

impl View for MetricWeather {
    type V = MetricWeatherV;

    open spec fn view(&self) -> MetricWeatherV {
        MetricWeatherV {
            temp_outdoors: self.temp_outdoors@,
            humidity_outdoors: self.humidity_outdoors,
            temp_indoors: self.temp_indoors@,
            humidity_indoors: self.humidity_indoors,
            windspeed: self.windspeed@,
            windgust: self.windgust@,
            winddir: self.winddir,
            pressure_abs: self.pressure_abs@,
            pressure_rel: self.pressure_rel@,
            rain: self.rain@,
            solarradiation: self.solarradiation@,
            uv: self.uv,
            vpd: self.vpd@,
        }
    }
}

/// The metric measurement that a given report normalizes to: every field of
/// the report mapped to its metric counterpart with the conversion of its
/// unit, as one total deterministic function.
pub open spec fn spec_normalize(e: EcowittPayloadV) -> MetricWeatherV {
    MetricWeatherV {
        temp_outdoors: QuantityV { conv: UnitConversion::FahrenheitToCelsius, raw: e.tempf },
        humidity_outdoors: e.humidity,
        temp_indoors: QuantityV { conv: UnitConversion::FahrenheitToCelsius, raw: e.tempinf },
        humidity_indoors: e.humidityin,
        windspeed: QuantityV { conv: UnitConversion::MphToKph, raw: e.windspeedmph },
        windgust: QuantityV { conv: UnitConversion::MphToKph, raw: e.windgustmph },
        winddir: e.winddir,
        pressure_abs: QuantityV { conv: UnitConversion::InHgToHpa, raw: e.baromabsin },
        pressure_rel: QuantityV { conv: UnitConversion::InHgToHpa, raw: e.baromrelin },
        rain: RainV {
            rainrate: QuantityV { conv: UnitConversion::InchesToMm, raw: e.rainratein },
            eventrain: QuantityV { conv: UnitConversion::InchesToMm, raw: e.eventrainin },
            totalrain: QuantityV { conv: UnitConversion::InchesToMm, raw: e.totalrainin },
            hourlyrain: QuantityV { conv: UnitConversion::InchesToMm, raw: e.hourlyrainin },
            dailyrain: QuantityV { conv: UnitConversion::InchesToMm, raw: e.dailyrainin },
            weeklyrain: QuantityV { conv: UnitConversion::InchesToMm, raw: e.weeklyrainin },
            monthlyrain: QuantityV { conv: UnitConversion::InchesToMm, raw: e.monthlyrainin },
            yearlyrain: QuantityV { conv: UnitConversion::InchesToMm, raw: e.yearlyrainin },
        },
        solarradiation: QuantityV { conv: UnitConversion::Keep, raw: e.solarradiation },
        uv: e.uv,
        vpd: QuantityV { conv: UnitConversion::Keep, raw: e.vpd },
    }
}

impl MetricWeather {
    /// Every raw reading of the measurement is a finite decimal numeral.
    pub open spec fn wf(&self) -> bool {
        &&& self.temp_outdoors.wf()
        &&& self.temp_indoors.wf()
        &&& self.windspeed.wf()
        &&& self.windgust.wf()
        &&& self.pressure_abs.wf()
        &&& self.pressure_rel.wf()
        &&& self.rain.rainrate.wf()
        &&& self.rain.eventrain.wf()
        &&& self.rain.totalrain.wf()
        &&& self.rain.hourlyrain.wf()
        &&& self.rain.dailyrain.wf()
        &&& self.rain.weeklyrain.wf()
        &&& self.rain.monthlyrain.wf()
        &&& self.rain.yearlyrain.wf()
        &&& self.solarradiation.wf()
        &&& self.vpd.wf()
    }

    /// Normalizes a decoded report. Total: it cannot fail, whatever the
    /// readings' magnitudes or signs.
    pub fn from(e: EcowittPayload) -> (m: MetricWeather)
        ensures
            m@ == spec_normalize(e@),
            e.wf() ==> m.wf(),
    {
        let rain = Rain {
            rainrate: Quantity { conv: UnitConversion::InchesToMm, raw: e.rainratein },
            dailyrain: Quantity { conv: UnitConversion::InchesToMm, raw: e.dailyrainin },
            eventrain: Quantity { conv: UnitConversion::InchesToMm, raw: e.eventrainin },
            totalrain: Quantity { conv: UnitConversion::InchesToMm, raw: e.totalrainin },
            hourlyrain: Quantity { conv: UnitConversion::InchesToMm, raw: e.hourlyrainin },
            weeklyrain: Quantity { conv: UnitConversion::InchesToMm, raw: e.weeklyrainin },
            monthlyrain: Quantity { conv: UnitConversion::InchesToMm, raw: e.monthlyrainin },
            yearlyrain: Quantity { conv: UnitConversion::InchesToMm, raw: e.yearlyrainin },
        };
        MetricWeather {
            temp_outdoors: Quantity {
                conv: UnitConversion::FahrenheitToCelsius,
                raw: e.tempf,
            },
            humidity_outdoors: e.humidity,
            temp_indoors: Quantity {
                conv: UnitConversion::FahrenheitToCelsius,
                raw: e.tempinf,
            },
            humidity_indoors: e.humidityin,
            windspeed: Quantity { conv: UnitConversion::MphToKph, raw: e.windspeedmph },
            windgust: Quantity { conv: UnitConversion::MphToKph, raw: e.windgustmph },
            winddir: e.winddir,
            rain,
            pressure_abs: Quantity { conv: UnitConversion::InHgToHpa, raw: e.baromabsin },
            pressure_rel: Quantity { conv: UnitConversion::InHgToHpa, raw: e.baromrelin },
            solarradiation: Quantity { conv: UnitConversion::Keep, raw: e.solarradiation },
            uv: e.uv,
            vpd: Quantity { conv: UnitConversion::Keep, raw: e.vpd },
        }
    }
}

/// Normalization is deterministic: equal reports normalize to equal — at the
/// level of their mathematical images, bit-identical — measurements.
pub proof fn lemma_normalize_deterministic(e1: EcowittPayloadV, e2: EcowittPayloadV)
    requires
        e1 == e2,
    ensures
        spec_normalize(e1) == spec_normalize(e2),
{
}

} // verus!
