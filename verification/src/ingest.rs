//! Orchestration of one inbound report: decode, normalize, assemble. The
//! write itself and the transport around it are the embedding application's
//! business; this module decides, and maps the write outcome to the response
//! text. Each report is processed independently; nothing is kept between
//! reports.

use vstd::prelude::*;

use crate::decode::MalformedReport;
use crate::decode::decode;
use crate::decode::decode_ok;
use crate::decode::spec_decode;
use crate::metric::MetricWeather;
use crate::metric::spec_normalize;
use crate::points::TimeSeriesPoint;
use crate::points::TimeSeriesPointV;
use crate::points::assemble_points;
use crate::points::points_view;
use crate::points::spec_points;

verus! {

/// Battery status code zero means the battery is OK; any other code does not.
pub open spec fn spec_battery_ok(code: u8) -> bool {
    code == 0
}

/// Maps the device's battery status code to the battery-OK flag.
pub fn battery_ok(code: u8) -> (r: bool)
    ensures
        r == spec_battery_ok(code),
{
    code == 0
}

/// The three points a field set is owed, when it decodes at all: its report
/// normalized and assembled, with the battery flag of its status code.
pub open spec fn spec_process(fs: Seq<(String, String)>) -> Option<Seq<TimeSeriesPointV>> {
    match spec_decode(fs) {
        Some(e) => Some(spec_points(spec_normalize(e), spec_battery_ok(e.wh65batt))),
        None => None,
    }
}

/// Processes one inbound field set: decode, normalize, assemble. Succeeds
/// with exactly three points if and only if the field set decodes; a
/// malformed report is rejected whole, and then no points exist to write.
pub fn process_report(fields: &Vec<(String, String)>) -> (r: Result<
    Vec<TimeSeriesPoint>,
    MalformedReport,
>)
    ensures
        r is Ok <==> decode_ok(fields@),
        r is Ok ==> Some(points_view(r->Ok_0@)) == spec_process(fields@),
        r is Ok ==> r->Ok_0@.len() == 3,
{
    let payload = match decode(fields) {
        Ok(p) => p,
        Err(e) => { return Err(e) },
    };
    let batt = battery_ok(payload.wh65batt);
    let data = MetricWeather::from(payload);
    Ok(assemble_points(data, batt))
}

/// The response text for a write outcome: `OK` when the database client
/// reported success, `ERROR` when it reported a write failure.
pub fn write_response(write_ok: bool) -> (r: String)
    ensures
        write_ok ==> r@ == "OK"@,
        !write_ok ==> r@ == "ERROR"@,
{
    if write_ok {
        "OK".to_owned()
    } else {
        "ERROR".to_owned()
    }
}

} // verus!
