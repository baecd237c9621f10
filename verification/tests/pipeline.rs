use ecowitt2db::config::Config;
use ecowitt2db::config::InfluxDb;
use ecowitt2db::decode::EcowittPayload;
use ecowitt2db::decode::MalformedReport;
use ecowitt2db::decode::decode;
use ecowitt2db::ingest::battery_ok;
use ecowitt2db::ingest::process_report;
use ecowitt2db::ingest::write_response;
use ecowitt2db::metric::MetricWeather;
use ecowitt2db::metric::Quantity;
use ecowitt2db::metric::UnitConversion;
use ecowitt2db::numerals::Numeral;
use ecowitt2db::points::FieldValue;
use ecowitt2db::points::TimeSeriesPoint;
use ecowitt2db::points::assemble_points;

/// Evaluates a symbolic metric value in IEEE-754 double precision, the way
/// the write boundary does.
fn eval(q: &Quantity) -> f64 {
    let v: f64 = q.raw.as_str().parse().unwrap();
    match q.conv {
        UnitConversion::FahrenheitToCelsius => (v - 32.0) * 5.0 / 9.0,
        UnitConversion::MphToKph => v * 1.60934,
        UnitConversion::InchesToMm => v * 25.4,
        UnitConversion::InHgToHpa => v * 33.863889532611,
        UnitConversion::Keep => v,
    }
}

fn close(a: f64, b: f64, tol: f64) -> bool {
    (a - b).abs() <= tol
}

fn num(s: &str) -> Numeral {
    Numeral::new(String::from(s)).unwrap()
}

fn quantity(conv: UnitConversion, raw: &str) -> Quantity {
    Quantity { conv, raw: num(raw) }
}

fn full_fields() -> Vec<(String, String)> {
    let pairs: [(&str, &str); 29] = [
        ("freq", "868M"),
        ("PASSKEY", "0123456789ABCDEF0123456789ABCDEF"),
        ("stationtype", "EasyWeatherV1.5.9"),
        ("model", "WS2900"),
        ("runtime", "120"),
        ("wh65batt", "0"),
        ("heap", "25000"),
        ("dateutc", "2024-01-01 12:00:00"),
        ("interval", "30"),
        ("tempf", "98.6"),
        ("humidity", "45"),
        ("tempinf", "72.0"),
        ("humidityin", "40"),
        ("windspeedmph", "5.0"),
        ("windgustmph", "10.0"),
        ("winddir", "180"),
        ("baromabsin", "29.92"),
        ("baromrelin", "30.00"),
        ("solarradiation", "120.5"),
        ("uv", "3"),
        ("vpd", "0.8"),
        ("rainratein", "0.1"),
        ("eventrainin", "0.0"),
        ("totalrainin", "1.0"),
        ("hourlyrainin", "0.0"),
        ("dailyrainin", "0.05"),
        ("weeklyrainin", "0.2"),
        ("monthlyrainin", "1.0"),
        ("yearlyrainin", "5.0"),
    ];
    pairs.iter().map(|(k, v)| (String::from(*k), String::from(*v))).collect()
}

fn without(fields: Vec<(String, String)>, name: &str) -> Vec<(String, String)> {
    fields.into_iter().filter(|p| p.0 != name).collect()
}

fn with_value(fields: Vec<(String, String)>, name: &str, value: &str) -> Vec<(String, String)> {
    fields
        .into_iter()
        .map(|p| if p.0 == name { (p.0, String::from(value)) } else { p })
        .collect()
}

fn field_names(p: &TimeSeriesPoint) -> Vec<&'static str> {
    p.fields.iter().map(|f| f.name).collect()
}

fn decimal_field(p: &TimeSeriesPoint, name: &str) -> f64 {
    for f in &p.fields {
        if f.name == name {
            match &f.value {
                FieldValue::Decimal(q) => return eval(q),
                other => panic!("field {name} is not a decimal: {other:?}"),
            }
        }
    }
    panic!("no field {name}");
}

fn int_field(p: &TimeSeriesPoint, name: &str) -> i64 {
    for f in &p.fields {
        if f.name == name {
            match &f.value {
                FieldValue::Int(v) => return *v,
                other => panic!("field {name} is not an integer: {other:?}"),
            }
        }
    }
    panic!("no field {name}");
}

fn bool_field(p: &TimeSeriesPoint, name: &str) -> bool {
    for f in &p.fields {
        if f.name == name {
            match &f.value {
                FieldValue::Bool(v) => return *v,
                other => panic!("field {name} is not a boolean: {other:?}"),
            }
        }
    }
    panic!("no field {name}");
}

#[test]
fn conversion_fixed_points() {
    assert_eq!(eval(&quantity(UnitConversion::FahrenheitToCelsius, "32")), 0.0);
    assert_eq!(eval(&quantity(UnitConversion::FahrenheitToCelsius, "212")), 100.0);
    assert_eq!(eval(&quantity(UnitConversion::MphToKph, "0")), 0.0);
    assert_eq!(eval(&quantity(UnitConversion::InchesToMm, "1")), 25.4);
    assert!(close(eval(&quantity(UnitConversion::InHgToHpa, "1")), 33.8639, 1e-4));
    assert!(close(eval(&quantity(UnitConversion::InHgToHpa, "1")), 33.863889532611, 1e-9));
    assert_eq!(eval(&quantity(UnitConversion::Keep, "120.5")), 120.5);
}

#[test]
fn normalization_is_deterministic() {
    let fields = full_fields();
    let p1 = decode(&fields).unwrap();
    let p2 = decode(&fields).unwrap();
    assert_eq!(p1, p2);
    let m1 = MetricWeather::from(p1);
    let m2 = MetricWeather::from(p2);
    assert_eq!(m1, m2);
}

#[test]
fn normalization_and_assembly_are_total() {
    // Extreme magnitudes, negatives and zeros: normalization cannot fail and
    // assembly always yields the same three groups with the same field sets.
    let fields = with_value(
        with_value(
            with_value(full_fields(), "tempf", "-9999.75"),
            "windspeedmph",
            "100000000.0",
        ),
        "heap",
        "-2147483648",
    );
    let payload = decode(&fields).unwrap();
    let batt = battery_ok(payload.wh65batt);
    let m = MetricWeather::from(payload);
    let pts = assemble_points(m, batt);
    assert_eq!(pts.len(), 3);
    assert_eq!(pts[0].group, "outdoor");
    assert_eq!(pts[1].group, "indoor");
    assert_eq!(pts[2].group, "station");
    assert_eq!(
        field_names(&pts[0]),
        vec![
            "temperature",
            "humidity",
            "windspeed",
            "windgust",
            "winddir",
            "rainrate",
            "pressure",
            "solarradiation",
            "uv",
            "vpd",
        ],
    );
    assert_eq!(field_names(&pts[1]), vec!["temperature", "humidity"]);
    assert_eq!(field_names(&pts[2]), vec!["battery_ok"]);
}

#[test]
fn totality_from_bare_struct() {
    // A report populated directly, not through the decoder.
    let payload = EcowittPayload {
        freq: String::from("915M"),
        passkey: String::from("x"),
        stationtype: String::from("t"),
        model: String::from("m"),
        runtime: u64::MAX,
        wh65batt: 255,
        heap: -1,
        dateutc: String::from("now"),
        interval: 0,
        tempf: num("-40"),
        humidity: -5,
        tempinf: num("0.0"),
        humidityin: 0,
        windspeedmph: num("0"),
        windgustmph: num(".5"),
        winddir: 65535,
        baromabsin: num("0"),
        baromrelin: num("0"),
        solarradiation: num("0"),
        uv: -1,
        vpd: num("0"),
        rainratein: num("0"),
        eventrainin: num("0"),
        totalrainin: num("0"),
        hourlyrainin: num("0"),
        dailyrainin: num("0"),
        weeklyrainin: num("0"),
        monthlyrainin: num("0"),
        yearlyrainin: num("0"),
    };
    let batt = battery_ok(payload.wh65batt);
    assert!(!batt);
    let m = MetricWeather::from(payload);
    // Fahrenheit and Celsius agree at -40.
    assert_eq!(eval(&m.temp_outdoors), -40.0);
    let pts = assemble_points(m, batt);
    assert_eq!(pts.len(), 3);
}

#[test]
fn decode_rejects_missing_field() {
    for name in ["tempf", "PASSKEY", "yearlyrainin", "winddir"] {
        let fields = without(full_fields(), name);
        assert_eq!(decode(&fields), Err(MalformedReport), "missing {name}");
        assert_eq!(process_report(&fields), Err(MalformedReport), "missing {name}");
    }
}

#[test]
fn decode_rejects_malformed_values() {
    let cases: [(&str, &str); 7] = [
        ("humidity", "abc"),
        ("tempf", "12..3"),
        ("winddir", "70000"),
        ("runtime", "-5"),
        ("wh65batt", "256"),
        ("interval", "30.5"),
        ("vpd", ""),
    ];
    for (name, value) in cases {
        let fields = with_value(full_fields(), name, value);
        assert_eq!(decode(&fields), Err(MalformedReport), "{name}={value}");
    }
    // A signed field does take a negative value.
    let fields = with_value(full_fields(), "heap", "-5");
    assert!(decode(&fields).is_ok());
}

#[test]
fn decode_ignores_extra_fields_and_takes_first_duplicate() {
    let mut fields = full_fields();
    fields.push((String::from("somethingnew"), String::from("1")));
    assert!(decode(&fields).is_ok());
    // A later duplicate of a key is ignored, well-formed or not.
    fields.push((String::from("tempf"), String::from("garbage")));
    assert!(decode(&fields).is_ok());
    // A malformed first occurrence rejects the report.
    let mut bad = vec![(String::from("tempf"), String::from("garbage"))];
    bad.extend(full_fields());
    assert_eq!(decode(&bad), Err(MalformedReport));
}

#[test]
fn battery_flag_mapping() {
    assert!(battery_ok(0));
    assert!(!battery_ok(1));
    assert!(!battery_ok(255));
    let pts = process_report(&full_fields()).unwrap();
    assert!(bool_field(&pts[2], "battery_ok"));
    let pts = process_report(&with_value(full_fields(), "wh65batt", "1")).unwrap();
    assert!(!bool_field(&pts[2], "battery_ok"));
}

#[test]
fn end_to_end_scenario() {
    let pts = process_report(&full_fields()).unwrap();
    assert_eq!(pts.len(), 3);

    let outdoor = &pts[0];
    assert_eq!(outdoor.group, "outdoor");
    assert!(close(decimal_field(outdoor, "temperature"), 37.0, 1e-9));
    assert_eq!(int_field(outdoor, "humidity"), 45);
    assert!(close(decimal_field(outdoor, "windspeed"), 8.0467, 1e-9));
    assert!(close(decimal_field(outdoor, "windgust"), 16.0934, 1e-9));
    assert_eq!(int_field(outdoor, "winddir"), 180);
    assert!(close(decimal_field(outdoor, "rainrate"), 2.54, 1e-9));
    assert!(close(decimal_field(outdoor, "pressure"), 1015.91668597833, 1e-6));
    assert_eq!(decimal_field(outdoor, "solarradiation"), 120.5);
    assert_eq!(int_field(outdoor, "uv"), 3);
    assert_eq!(decimal_field(outdoor, "vpd"), 0.8);

    let indoor = &pts[1];
    assert_eq!(indoor.group, "indoor");
    assert!(close(decimal_field(indoor, "temperature"), 22.22222222222222, 1e-9));
    assert_eq!(int_field(indoor, "humidity"), 40);

    let station = &pts[2];
    assert_eq!(station.group, "station");
    assert!(bool_field(station, "battery_ok"));

    // A successful write answers `OK`.
    assert_eq!(write_response(true), "OK");
}

#[test]
fn malformed_scenario() {
    // The end-to-end input with `tempf` omitted: no points are produced, so
    // there is nothing to write, and the failure is distinguishable.
    let fields = without(full_fields(), "tempf");
    let r = process_report(&fields);
    assert_eq!(r, Err(MalformedReport));
}

#[test]
fn write_responses() {
    assert_eq!(write_response(true), "OK");
    assert_eq!(write_response(false), "ERROR");
}

#[test]
fn config_holds_its_values() {
    let cfg = Config {
        influxdb: InfluxDb {
            host: String::from("http://localhost:8086"),
            org: String::from("home"),
            token: String::from("SECRET-REDACTED"),
            bucket: String::from("weather"),
        },
        listen_port: 8090,
    };
    assert_eq!(cfg.influxdb.bucket, "weather");
    assert_eq!(cfg.listen_port, 8090);
}
