//! Assembly of a metric measurement into the fixed set of time-series
//! points: one per logical sensor group (`outdoor`, `indoor`, `station`),
//! each with a fixed, ordered set of named fields. The write timestamp is
//! assigned at the write boundary, not here.

use vstd::prelude::*;

use crate::metric::MetricWeather;
use crate::metric::MetricWeatherV;
use crate::metric::Quantity;
use crate::metric::QuantityV;

verus! {

/// A typed field value of a time-series point.
#[derive(Debug, Clone, PartialEq, Eq)]
pub enum FieldValue {
    /// A metric number, still symbolic (see `Quantity`).
    Decimal(Quantity),
    Int(i64),
    Bool(bool),
}

/// Mathematical image of a field value.
#[verifier::ext_equal]
pub enum FieldValueV {
    Decimal(QuantityV),
    Int(i64),
    Bool(bool),
}

/// A named field of a time-series point.
#[derive(Debug, Clone, PartialEq, Eq)]
pub struct Field {
    pub name: &'static str,
    pub value: FieldValue,
}

impl View for FieldValue {
    type V = FieldValueV;

    open spec fn view(&self) -> FieldValueV {
        match self {
            FieldValue::Decimal(q) => FieldValueV::Decimal(q@),
            FieldValue::Int(v) => FieldValueV::Int(*v),
            FieldValue::Bool(v) => FieldValueV::Bool(*v),
        }
    }
}

impl View for Field {
    type V = (Seq<char>, FieldValueV);

    open spec fn view(&self) -> (Seq<char>, FieldValueV) {
        (self.name@, self.value@)
    }
}

/// One record destined for a single write into the time-series database:
/// a sensor group and its named fields, in a fixed order.
#[derive(Debug, Clone, PartialEq, Eq)]
pub struct TimeSeriesPoint {
    pub group: &'static str,
    pub fields: Vec<Field>,
}

/// Mathematical image of a time-series point.
#[verifier::ext_equal]
pub struct TimeSeriesPointV {
    pub group: Seq<char>,
    pub fields: Seq<(Seq<char>, FieldValueV)>,
}

impl View for TimeSeriesPoint {
    type V = TimeSeriesPointV;

    open spec fn view(&self) -> TimeSeriesPointV {
        TimeSeriesPointV {
            group: self.group@,
            fields: self.fields@.map_values(|f: Field| f@),
        }
    }
}

/// The images of a sequence of points.
pub open spec fn points_view(pts: Seq<TimeSeriesPoint>) -> Seq<TimeSeriesPointV> {
    pts.map_values(|p: TimeSeriesPoint| p@)
}

/// The `outdoor` point of a measurement: the whole outdoor sensor array.
/// The pressure written is the relative one; absolute pressure is kept in
/// the measurement but not forwarded.
pub open spec fn spec_outdoor_point(m: MetricWeatherV) -> TimeSeriesPointV {
    TimeSeriesPointV {
        group: "outdoor"@,
        fields: seq![
            ("temperature"@, FieldValueV::Decimal(m.temp_outdoors)),
            ("humidity"@, FieldValueV::Int(m.humidity_outdoors as i64)),
            ("windspeed"@, FieldValueV::Decimal(m.windspeed)),
            ("windgust"@, FieldValueV::Decimal(m.windgust)),
            ("winddir"@, FieldValueV::Int(m.winddir as i64)),
            ("rainrate"@, FieldValueV::Decimal(m.rain.rainrate)),
            ("pressure"@, FieldValueV::Decimal(m.pressure_rel)),
            ("solarradiation"@, FieldValueV::Decimal(m.solarradiation)),
            ("uv"@, FieldValueV::Int(m.uv as i64)),
            ("vpd"@, FieldValueV::Decimal(m.vpd)),
        ],
    }
}

/// The `indoor` point of a measurement.
pub open spec fn spec_indoor_point(m: MetricWeatherV) -> TimeSeriesPointV {
    TimeSeriesPointV {
        group: "indoor"@,
        fields: seq![
            ("temperature"@, FieldValueV::Decimal(m.temp_indoors)),
            ("humidity"@, FieldValueV::Int(m.humidity_indoors as i64)),
        ],
    }
}

/// The `station` point: station health.
pub open spec fn spec_station_point(battery_ok: bool) -> TimeSeriesPointV {
    TimeSeriesPointV {
        group: "station"@,
        fields: seq![("battery_ok"@, FieldValueV::Bool(battery_ok))],
    }
}

/// The exact three points an accepted report produces, in order.
pub open spec fn spec_points(m: MetricWeatherV, battery_ok: bool) -> Seq<TimeSeriesPointV> {
    seq![spec_outdoor_point(m), spec_indoor_point(m), spec_station_point(battery_ok)]
}

/// Maps a metric measurement and the battery flag to the three time-series
/// points. Total: it cannot fail for any well-typed measurement.
pub fn assemble_points(data: MetricWeather, battery_ok: bool) -> (pts: Vec<TimeSeriesPoint>)
    ensures
        points_view(pts@) == spec_points(data@, battery_ok),
        pts@.len() == 3,
{
    let ghost old_data = data@;
    let outdoor = TimeSeriesPoint {
        group: "outdoor",
        fields: vec![
            Field { name: "temperature", value: FieldValue::Decimal(data.temp_outdoors) },
            Field { name: "humidity", value: FieldValue::Int(data.humidity_outdoors as i64) },
            Field { name: "windspeed", value: FieldValue::Decimal(data.windspeed) },
            Field { name: "windgust", value: FieldValue::Decimal(data.windgust) },
            Field { name: "winddir", value: FieldValue::Int(data.winddir as i64) },
            Field { name: "rainrate", value: FieldValue::Decimal(data.rain.rainrate) },
            Field { name: "pressure", value: FieldValue::Decimal(data.pressure_rel) },
            Field { name: "solarradiation", value: FieldValue::Decimal(data.solarradiation) },
            Field { name: "uv", value: FieldValue::Int(data.uv as i64) },
            Field { name: "vpd", value: FieldValue::Decimal(data.vpd) },
        ],
    };
    let indoor = TimeSeriesPoint {
        group: "indoor",
        fields: vec![
            Field { name: "temperature", value: FieldValue::Decimal(data.temp_indoors) },
            Field { name: "humidity", value: FieldValue::Int(data.humidity_indoors as i64) },
        ],
    };
    let station = TimeSeriesPoint {
        group: "station",
        fields: vec![Field { name: "battery_ok", value: FieldValue::Bool(battery_ok) }],
    };
    let pts = vec![outdoor, indoor, station];
    proof {
        assert(pts@[0]@.fields =~= spec_outdoor_point(old_data).fields);
        assert(pts@[1]@.fields =~= spec_indoor_point(old_data).fields);
        assert(pts@[2]@.fields =~= spec_station_point(battery_ok).fields);
        assert(pts@[0]@ =~= spec_outdoor_point(old_data));
        assert(pts@[1]@ =~= spec_indoor_point(old_data));
        assert(pts@[2]@ =~= spec_station_point(battery_ok));
        assert(points_view(pts@) =~= spec_points(old_data, battery_ok));
    }
    pts
}

/// Assembly is total and fixed in shape: for every measurement and battery
/// flag there are exactly three points — `outdoor`, `indoor`, `station` —
/// each with exactly the named fields of its group, in order.
pub proof fn lemma_assembly_total(m: MetricWeatherV, battery_ok: bool)
    ensures
        spec_points(m, battery_ok).len() == 3,
        spec_points(m, battery_ok)[0].group == "outdoor"@,
        spec_points(m, battery_ok)[1].group == "indoor"@,
        spec_points(m, battery_ok)[2].group == "station"@,
        spec_points(m, battery_ok)[0].fields.map_values(|f: (Seq<char>, FieldValueV)| f.0)
            =~= seq![
            "temperature"@,
            "humidity"@,
            "windspeed"@,
            "windgust"@,
            "winddir"@,
            "rainrate"@,
            "pressure"@,
            "solarradiation"@,
            "uv"@,
            "vpd"@,
        ],
        spec_points(m, battery_ok)[1].fields.map_values(|f: (Seq<char>, FieldValueV)| f.0)
            =~= seq!["temperature"@, "humidity"@],
        spec_points(m, battery_ok)[2].fields.map_values(|f: (Seq<char>, FieldValueV)| f.0)
            =~= seq!["battery_ok"@],
{
}

} // verus!
