//! Decoding of the inbound telemetry: a flat set of key/value string pairs,
//! as an Ecowitt-compatible station posts them, is checked and turned into a
//! typed report. Any missing field, or any field whose value does not match
//! its grammar, rejects the whole report.

use vstd::prelude::*;

use crate::numerals::Numeral;
use crate::numerals::is_decimal;
use crate::numerals::is_decimal_body;
use crate::numerals::parse_int;
use crate::numerals::parse_uint;
use crate::numerals::skip_plus;
use crate::numerals::skip_sign;
use crate::numerals::parse_i32;
use crate::numerals::parse_i32_spec;
use crate::numerals::parse_u16;
use crate::numerals::parse_u16_spec;
use crate::numerals::parse_u32;
use crate::numerals::parse_u32_spec;
use crate::numerals::parse_u64;
use crate::numerals::parse_u64_spec;
use crate::numerals::parse_u8;
use crate::numerals::parse_u8_spec;

verus! {

/// The inbound field set fails validation: a required field is missing or a
/// value does not parse as its declared type. The whole report is rejected.
#[derive(Debug, Clone, Copy, PartialEq, Eq)]
pub struct MalformedReport;

/// The value of the first pair whose key equals `name`; `None` when no pair
/// has that key.
pub open spec fn spec_lookup(fields: Seq<(String, String)>, name: Seq<char>) -> Option<Seq<char>>
    decreases fields.len(),
{
    if fields.len() == 0 {
        None
    } else if fields[0].0@ == name {
        Some(fields[0].1@)
    } else {
        spec_lookup(fields.drop_first(), name)
    }
}

/// String equality, character by character.
pub fn str_eq(a: &str, b: &str) -> (r: bool)
    ensures
        r == (a@ == b@),
{
    let an = a.unicode_len();
    let bn = b.unicode_len();
    if an != bn {
        return false;
    }
    let mut i: usize = 0;
    while i < an
        invariant
            i <= an,
            an == a@.len(),
            an == b@.len(),
            forall|j: int| 0 <= j < i ==> a@[j] == b@[j],
        decreases an - i,
    {
        let ca = a.get_char(i);
        let cb = b.get_char(i);
        if ca != cb {
            return false;
        }
        i = i + 1;
    }
    proof {
        assert(a@ =~= b@);
    }
    true
}

/// Finds the first pair whose key is `name` and returns its value.
pub fn lookup<'a>(fields: &'a Vec<(String, String)>, name: &str) -> (r: Option<&'a String>)
    ensures
        match r {
            Some(v) => spec_lookup(fields@, name@) == Some(v@),
            None => spec_lookup(fields@, name@) is None,
        },
{
    proof {
        assert(fields@.skip(0) =~= fields@);
    }
    let n = fields.len();
    let mut i: usize = 0;
    while i < n
        invariant
            i <= n,
            n == fields@.len(),
            spec_lookup(fields@, name@) == spec_lookup(fields@.skip(i as int), name@),
        decreases n - i,
    {
        let p = &fields[i];
        if str_eq(p.0.as_str(), name) {
            proof {
                assert(fields@.skip(i as int)[0] == fields@[i as int]);
            }
            return Some(&p.1);
        }
        proof {
            assert(fields@.skip(i as int)[0] == fields@[i as int]);
            assert(fields@.skip(i as int).drop_first() =~= fields@.skip(i + 1));
        }
        i = i + 1;
    }
    None
}

/// The value of an unsigned 64-bit field: present and parseable, or `None`.
pub open spec fn u64_field(fs: Seq<(String, String)>, name: Seq<char>) -> Option<u64> {
    match spec_lookup(fs, name) {
        Some(v) => parse_u64_spec(v),
        None => None,
    }
}

/// The value of an unsigned 32-bit field: present and parseable, or `None`.
pub open spec fn u32_field(fs: Seq<(String, String)>, name: Seq<char>) -> Option<u32> {
    match spec_lookup(fs, name) {
        Some(v) => parse_u32_spec(v),
        None => None,
    }
}

/// The value of an unsigned 16-bit field: present and parseable, or `None`.
pub open spec fn u16_field(fs: Seq<(String, String)>, name: Seq<char>) -> Option<u16> {
    match spec_lookup(fs, name) {
        Some(v) => parse_u16_spec(v),
        None => None,
    }
}

/// The value of an unsigned 8-bit field: present and parseable, or `None`.
pub open spec fn u8_field(fs: Seq<(String, String)>, name: Seq<char>) -> Option<u8> {
    match spec_lookup(fs, name) {
        Some(v) => parse_u8_spec(v),
        None => None,
    }
}

/// The value of a signed 32-bit field: present and parseable, or `None`.
pub open spec fn i32_field(fs: Seq<(String, String)>, name: Seq<char>) -> Option<i32> {
    match spec_lookup(fs, name) {
        Some(v) => parse_i32_spec(v),
        None => None,
    }
}

/// The text of a finite-decimal field: present and well-formed, or `None`.
pub open spec fn dec_field(fs: Seq<(String, String)>, name: Seq<char>) -> Option<Seq<char>> {
    match spec_lookup(fs, name) {
        Some(v) => if is_decimal(v) {
            Some(v)
        } else {
            None
        },
        None => None,
    }
}

fn get_str(fields: &Vec<(String, String)>, name: &str) -> (r: Option<String>)
    ensures
        match r {
            Some(v) => spec_lookup(fields@, name@) == Some(v@),
            None => spec_lookup(fields@, name@) is None,
        },
{
    match lookup(fields, name) {
        Some(v) => Some(v.clone()),
        None => None,
    }
}

fn get_u64(fields: &Vec<(String, String)>, name: &str) -> (r: Option<u64>)
    ensures
        r == u64_field(fields@, name@),
{
    match lookup(fields, name) {
        Some(v) => parse_u64(v.as_str()),
        None => None,
    }
}

fn get_u32(fields: &Vec<(String, String)>, name: &str) -> (r: Option<u32>)
    ensures
        r == u32_field(fields@, name@),
{
    match lookup(fields, name) {
        Some(v) => parse_u32(v.as_str()),
        None => None,
    }
}

fn get_u16(fields: &Vec<(String, String)>, name: &str) -> (r: Option<u16>)
    ensures
        r == u16_field(fields@, name@),
{
    match lookup(fields, name) {
        Some(v) => parse_u16(v.as_str()),
        None => None,
    }
}

fn get_u8(fields: &Vec<(String, String)>, name: &str) -> (r: Option<u8>)
    ensures
        r == u8_field(fields@, name@),
{
    match lookup(fields, name) {
        Some(v) => parse_u8(v.as_str()),
        None => None,
    }
}

fn get_i32(fields: &Vec<(String, String)>, name: &str) -> (r: Option<i32>)
    ensures
        r == i32_field(fields@, name@),
{
    match lookup(fields, name) {
        Some(v) => parse_i32(v.as_str()),
        None => None,
    }
}

fn get_dec(fields: &Vec<(String, String)>, name: &str) -> (r: Option<Numeral>)
    ensures
        match r {
            Some(num) => dec_field(fields@, name@) == Some(num@) && num.wf(),
            None => dec_field(fields@, name@) is None,
        },
{
    match lookup(fields, name) {
        Some(v) => Numeral::new(v.clone()),
        None => None,
    }
}

/// A decoded station report, one per device transmission. Field names are the
/// wire names of the Ecowitt telemetry schema (the passkey travels as
/// `PASSKEY`). Imperial readings are kept as finite decimal numerals.
#[derive(Debug, Clone, PartialEq, Eq)]
pub struct EcowittPayload {
    // Station data
    pub freq: String,
    pub passkey: String,
    pub stationtype: String,
    pub model: String,
    pub runtime: u64,
    pub wh65batt: u8,
    pub heap: i32,
    pub dateutc: String,
    pub interval: u32,
    // Weather data
    pub tempf: Numeral,
    pub humidity: i32,
    pub tempinf: Numeral,
    pub humidityin: i32,
    pub windspeedmph: Numeral,
    pub windgustmph: Numeral,
    pub winddir: u16,
    pub baromabsin: Numeral,
    pub baromrelin: Numeral,
    pub solarradiation: Numeral,
    pub uv: i32,
    pub vpd: Numeral,
    pub rainratein: Numeral,
    pub eventrainin: Numeral,
    pub totalrainin: Numeral,
    pub hourlyrainin: Numeral,
    pub dailyrainin: Numeral,
    pub weeklyrainin: Numeral,
    pub monthlyrainin: Numeral,
    pub yearlyrainin: Numeral,
}

/// Mathematical image of a station report: strings and numerals as character
/// sequences, integers as themselves.
pub struct EcowittPayloadV {
    pub freq: Seq<char>,
    pub passkey: Seq<char>,
    pub stationtype: Seq<char>,
    pub model: Seq<char>,
    pub runtime: u64,
    pub wh65batt: u8,
    pub heap: i32,
    pub dateutc: Seq<char>,
    pub interval: u32,
    pub tempf: Seq<char>,
    pub humidity: i32,
    pub tempinf: Seq<char>,
    pub humidityin: i32,
    pub windspeedmph: Seq<char>,
    pub windgustmph: Seq<char>,
    pub winddir: u16,
    pub baromabsin: Seq<char>,
    pub baromrelin: Seq<char>,
    pub solarradiation: Seq<char>,
    pub uv: i32,
    pub vpd: Seq<char>,
    pub rainratein: Seq<char>,
    pub eventrainin: Seq<char>,
    pub totalrainin: Seq<char>,
    pub hourlyrainin: Seq<char>,
    pub dailyrainin: Seq<char>,
    pub weeklyrainin: Seq<char>,
    pub monthlyrainin: Seq<char>,
    pub yearlyrainin: Seq<char>,
}

impl View for EcowittPayload {
    type V = EcowittPayloadV;

    open spec fn view(&self) -> EcowittPayloadV {
        EcowittPayloadV {
            freq: self.freq@,
            passkey: self.passkey@,
            stationtype: self.stationtype@,
            model: self.model@,
            runtime: self.runtime,
            wh65batt: self.wh65batt,
            heap: self.heap,
            dateutc: self.dateutc@,
            interval: self.interval,
            tempf: self.tempf@,
            humidity: self.humidity,
            tempinf: self.tempinf@,
            humidityin: self.humidityin,
            windspeedmph: self.windspeedmph@,
            windgustmph: self.windgustmph@,
            winddir: self.winddir,
            baromabsin: self.baromabsin@,
            baromrelin: self.baromrelin@,
            solarradiation: self.solarradiation@,
            uv: self.uv,
            vpd: self.vpd@,
            rainratein: self.rainratein@,
            eventrainin: self.eventrainin@,
            totalrainin: self.totalrainin@,
            hourlyrainin: self.hourlyrainin@,
            dailyrainin: self.dailyrainin@,
            weeklyrainin: self.weeklyrainin@,
            monthlyrainin: self.monthlyrainin@,
            yearlyrainin: self.yearlyrainin@,
        }
    }
}

impl EcowittPayload {
    /// Every numeric reading of the report is a finite decimal numeral.
    pub open spec fn wf(&self) -> bool {
        &&& self.tempf.wf()
        &&& self.tempinf.wf()
        &&& self.windspeedmph.wf()
        &&& self.windgustmph.wf()
        &&& self.baromabsin.wf()
        &&& self.baromrelin.wf()
        &&& self.solarradiation.wf()
        &&& self.vpd.wf()
        &&& self.rainratein.wf()
        &&& self.eventrainin.wf()
        &&& self.totalrainin.wf()
        &&& self.hourlyrainin.wf()
        &&& self.dailyrainin.wf()
        &&& self.weeklyrainin.wf()
        &&& self.monthlyrainin.wf()
        &&& self.yearlyrainin.wf()
    }
}

/// Every required field is present and its value matches its grammar.
pub open spec fn decode_ok(fs: Seq<(String, String)>) -> bool {
    &&& spec_lookup(fs, "freq"@) is Some
    &&& spec_lookup(fs, "PASSKEY"@) is Some
    &&& spec_lookup(fs, "stationtype"@) is Some
    &&& spec_lookup(fs, "model"@) is Some
    &&& u64_field(fs, "runtime"@) is Some
    &&& u8_field(fs, "wh65batt"@) is Some
    &&& i32_field(fs, "heap"@) is Some
    &&& spec_lookup(fs, "dateutc"@) is Some
    &&& u32_field(fs, "interval"@) is Some
    &&& dec_field(fs, "tempf"@) is Some
    &&& i32_field(fs, "humidity"@) is Some
    &&& dec_field(fs, "tempinf"@) is Some
    &&& i32_field(fs, "humidityin"@) is Some
    &&& dec_field(fs, "windspeedmph"@) is Some
    &&& dec_field(fs, "windgustmph"@) is Some
    &&& u16_field(fs, "winddir"@) is Some
    &&& dec_field(fs, "baromabsin"@) is Some
    &&& dec_field(fs, "baromrelin"@) is Some
    &&& dec_field(fs, "solarradiation"@) is Some
    &&& i32_field(fs, "uv"@) is Some
    &&& dec_field(fs, "vpd"@) is Some
    &&& dec_field(fs, "rainratein"@) is Some
    &&& dec_field(fs, "eventrainin"@) is Some
    &&& dec_field(fs, "totalrainin"@) is Some
    &&& dec_field(fs, "hourlyrainin"@) is Some
    &&& dec_field(fs, "dailyrainin"@) is Some
    &&& dec_field(fs, "weeklyrainin"@) is Some
    &&& dec_field(fs, "monthlyrainin"@) is Some
    &&& dec_field(fs, "yearlyrainin"@) is Some
}

/// The report a field set decodes to, when it decodes at all.
pub open spec fn spec_decode(fs: Seq<(String, String)>) -> Option<EcowittPayloadV> {
    if decode_ok(fs) {
        Some(
            EcowittPayloadV {
                freq: spec_lookup(fs, "freq"@)->Some_0,
                passkey: spec_lookup(fs, "PASSKEY"@)->Some_0,
                stationtype: spec_lookup(fs, "stationtype"@)->Some_0,
                model: spec_lookup(fs, "model"@)->Some_0,
                runtime: u64_field(fs, "runtime"@)->Some_0,
                wh65batt: u8_field(fs, "wh65batt"@)->Some_0,
                heap: i32_field(fs, "heap"@)->Some_0,
                dateutc: spec_lookup(fs, "dateutc"@)->Some_0,
                interval: u32_field(fs, "interval"@)->Some_0,
                tempf: dec_field(fs, "tempf"@)->Some_0,
                humidity: i32_field(fs, "humidity"@)->Some_0,
                tempinf: dec_field(fs, "tempinf"@)->Some_0,
                humidityin: i32_field(fs, "humidityin"@)->Some_0,
                windspeedmph: dec_field(fs, "windspeedmph"@)->Some_0,
                windgustmph: dec_field(fs, "windgustmph"@)->Some_0,
                winddir: u16_field(fs, "winddir"@)->Some_0,
                baromabsin: dec_field(fs, "baromabsin"@)->Some_0,
                baromrelin: dec_field(fs, "baromrelin"@)->Some_0,
                solarradiation: dec_field(fs, "solarradiation"@)->Some_0,
                uv: i32_field(fs, "uv"@)->Some_0,
                vpd: dec_field(fs, "vpd"@)->Some_0,
                rainratein: dec_field(fs, "rainratein"@)->Some_0,
                eventrainin: dec_field(fs, "eventrainin"@)->Some_0,
                totalrainin: dec_field(fs, "totalrainin"@)->Some_0,
                hourlyrainin: dec_field(fs, "hourlyrainin"@)->Some_0,
                dailyrainin: dec_field(fs, "dailyrainin"@)->Some_0,
                weeklyrainin: dec_field(fs, "weeklyrainin"@)->Some_0,
                monthlyrainin: dec_field(fs, "monthlyrainin"@)->Some_0,
                yearlyrainin: dec_field(fs, "yearlyrainin"@)->Some_0,
            },
        )
    } else {
        None
    }
}

/// Validates and structures an inbound field set. Succeeds exactly when every
/// required field is present and matches its grammar; extra fields are
/// ignored; on any failure the whole report is rejected.
pub fn decode(fields: &Vec<(String, String)>) -> (r: Result<EcowittPayload, MalformedReport>)
    ensures
        r is Ok <==> decode_ok(fields@),
        r is Ok ==> Some(r->Ok_0@) == spec_decode(fields@),
        r is Ok ==> r->Ok_0.wf(),
{
    let freq = match get_str(fields, "freq") {
        Some(v) => v,
        None => { return Err(MalformedReport) },
    };
    let passkey = match get_str(fields, "PASSKEY") {
        Some(v) => v,
        None => { return Err(MalformedReport) },
    };
    let stationtype = match get_str(fields, "stationtype") {
        Some(v) => v,
        None => { return Err(MalformedReport) },
    };
    let model = match get_str(fields, "model") {
        Some(v) => v,
        None => { return Err(MalformedReport) },
    };
    let runtime = match get_u64(fields, "runtime") {
        Some(v) => v,
        None => { return Err(MalformedReport) },
    };
    let wh65batt = match get_u8(fields, "wh65batt") {
        Some(v) => v,
        None => { return Err(MalformedReport) },
    };
    let heap = match get_i32(fields, "heap") {
        Some(v) => v,
        None => { return Err(MalformedReport) },
    };
    let dateutc = match get_str(fields, "dateutc") {
        Some(v) => v,
        None => { return Err(MalformedReport) },
    };
    let interval = match get_u32(fields, "interval") {
        Some(v) => v,
        None => { return Err(MalformedReport) },
    };
    let tempf = match get_dec(fields, "tempf") {
        Some(v) => v,
        None => { return Err(MalformedReport) },
    };
    let humidity = match get_i32(fields, "humidity") {
        Some(v) => v,
        None => { return Err(MalformedReport) },
    };
    let tempinf = match get_dec(fields, "tempinf") {
        Some(v) => v,
        None => { return Err(MalformedReport) },
    };
    let humidityin = match get_i32(fields, "humidityin") {
        Some(v) => v,
        None => { return Err(MalformedReport) },
    };
    let windspeedmph = match get_dec(fields, "windspeedmph") {
        Some(v) => v,
        None => { return Err(MalformedReport) },
    };
    let windgustmph = match get_dec(fields, "windgustmph") {
        Some(v) => v,
        None => { return Err(MalformedReport) },
    };
    let winddir = match get_u16(fields, "winddir") {
        Some(v) => v,
        None => { return Err(MalformedReport) },
    };
    let baromabsin = match get_dec(fields, "baromabsin") {
        Some(v) => v,
        None => { return Err(MalformedReport) },
    };
    let baromrelin = match get_dec(fields, "baromrelin") {
        Some(v) => v,
        None => { return Err(MalformedReport) },
    };
    let solarradiation = match get_dec(fields, "solarradiation") {
        Some(v) => v,
        None => { return Err(MalformedReport) },
    };
    let uv = match get_i32(fields, "uv") {
        Some(v) => v,
        None => { return Err(MalformedReport) },
    };
    let vpd = match get_dec(fields, "vpd") {
        Some(v) => v,
        None => { return Err(MalformedReport) },
    };
    let rainratein = match get_dec(fields, "rainratein") {
        Some(v) => v,
        None => { return Err(MalformedReport) },
    };
    let eventrainin = match get_dec(fields, "eventrainin") {
        Some(v) => v,
        None => { return Err(MalformedReport) },
    };
    let totalrainin = match get_dec(fields, "totalrainin") {
        Some(v) => v,
        None => { return Err(MalformedReport) },
    };
    let hourlyrainin = match get_dec(fields, "hourlyrainin") {
        Some(v) => v,
        None => { return Err(MalformedReport) },
    };
    let dailyrainin = match get_dec(fields, "dailyrainin") {
        Some(v) => v,
        None => { return Err(MalformedReport) },
    };
    let weeklyrainin = match get_dec(fields, "weeklyrainin") {
        Some(v) => v,
        None => { return Err(MalformedReport) },
    };
    let monthlyrainin = match get_dec(fields, "monthlyrainin") {
        Some(v) => v,
        None => { return Err(MalformedReport) },
    };
    let yearlyrainin = match get_dec(fields, "yearlyrainin") {
        Some(v) => v,
        None => { return Err(MalformedReport) },
    };
    Ok(
        EcowittPayload {
            freq,
            passkey,
            stationtype,
            model,
            runtime,
            wh65batt,
            heap,
            dateutc,
            interval,
            tempf,
            humidity,
            tempinf,
            humidityin,
            windspeedmph,
            windgustmph,
            winddir,
            baromabsin,
            baromrelin,
            solarradiation,
            uv,
            vpd,
            rainratein,
            eventrainin,
            totalrainin,
            hourlyrainin,
            dailyrainin,
            weeklyrainin,
            monthlyrainin,
            yearlyrainin,
        },
    )
}

/// Whether `name` is one of the required fields of the telemetry schema.
pub open spec fn is_required_field(name: Seq<char>) -> bool {
    ||| name == "freq"@
    ||| name == "PASSKEY"@
    ||| name == "stationtype"@
    ||| name == "model"@
    ||| name == "runtime"@
    ||| name == "wh65batt"@
    ||| name == "heap"@
    ||| name == "dateutc"@
    ||| name == "interval"@
    ||| name == "winddir"@
    ||| name == "humidity"@
    ||| name == "humidityin"@
    ||| name == "uv"@
    ||| is_decimal_field(name)
}

/// Whether `name` is one of the numeric fields of the schema: every required
/// field but the five plain strings.
pub open spec fn is_numeric_field(name: Seq<char>) -> bool {
    ||| name == "runtime"@
    ||| name == "wh65batt"@
    ||| name == "heap"@
    ||| name == "interval"@
    ||| name == "winddir"@
    ||| name == "humidity"@
    ||| name == "humidityin"@
    ||| name == "uv"@
    ||| is_decimal_field(name)
}

/// Whether `name` is one of the finite-decimal fields of the schema.
pub open spec fn is_decimal_field(name: Seq<char>) -> bool {
    ||| name == "tempf"@
    ||| name == "tempinf"@
    ||| name == "windspeedmph"@
    ||| name == "windgustmph"@
    ||| name == "baromabsin"@
    ||| name == "baromrelin"@
    ||| name == "solarradiation"@
    ||| name == "vpd"@
    ||| name == "rainratein"@
    ||| name == "eventrainin"@
    ||| name == "totalrainin"@
    ||| name == "hourlyrainin"@
    ||| name == "dailyrainin"@
    ||| name == "weeklyrainin"@
    ||| name == "monthlyrainin"@
    ||| name == "yearlyrainin"@
}

/// A string that parses as an integer, signed or unsigned, is in particular
/// a finite decimal numeral.
pub proof fn lemma_int_parse_implies_decimal(v: Seq<char>)
    ensures
        parse_uint(v) is Some ==> is_decimal(v),
        parse_int(v) is Some ==> is_decimal(v),
{
    if parse_uint(v) is Some {
        assert(skip_sign(v) == skip_plus(v));
        assert(is_decimal_body(skip_sign(v)));
    }
    if parse_int(v) is Some {
        assert(is_decimal_body(skip_sign(v)));
    }
}

/// A field set missing any required field is rejected whole: it decodes to
/// nothing, so no report and no time-series points come of it.
pub proof fn lemma_missing_field_rejected(fs: Seq<(String, String)>, name: Seq<char>)
    requires
        is_required_field(name),
        spec_lookup(fs, name) is None,
    ensures
        !decode_ok(fs),
        spec_decode(fs) is None,
{
}

/// A field set whose value for any numeric field is not a finite decimal
/// numeral is rejected whole: no integer grammar accepts such a string
/// either, so the field fails whatever its declared numeric type.
pub proof fn lemma_invalid_value_rejected(fs: Seq<(String, String)>, name: Seq<char>, v: Seq<char>)
    requires
        is_numeric_field(name),
        spec_lookup(fs, name) == Some(v),
        !is_decimal(v),
    ensures
        !decode_ok(fs),
        spec_decode(fs) is None,
{
    lemma_int_parse_implies_decimal(v);
}

} // verus!
