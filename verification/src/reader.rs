//! Parsing of the brightness controller's machine-readable report: a
//! comma-delimited line whose first field is the device identifier and
//! whose fourth field is the brightness percentage with a percent-sign
//! suffix.

use vstd::prelude::*;

use crate::Error;
use crate::numeric::{parse_u32, parseable_u32, parsed_u32};
use crate::text::{split_on, split_str, trim_pct, trim_trailing_pct, views_of};

verus! {

/// The comma-separated fields of the controller's report.
pub open spec fn report_fields(s: Seq<char>) -> Seq<Seq<char>> {
    split_on(s, ',')
}

/// A report is well-formed when it has at least four fields and the
/// fourth field, with trailing percent signs removed, denotes an
/// unsigned 32-bit number.
pub open spec fn report_ok(s: Seq<char>) -> bool {
    &&& report_fields(s).len() >= 4
    &&& parseable_u32(trim_pct(report_fields(s)[3]))
}

/// The device identifier of a report: its first field.
pub open spec fn report_device(s: Seq<char>) -> Seq<char> {
    report_fields(s)[0]
}

/// The brightness percentage of a report: the value of its fourth field.
pub open spec fn report_brightness(s: Seq<char>) -> nat {
    parsed_u32(trim_pct(report_fields(s)[3]))
}

/// Extracts the device identifier and the current brightness percentage
/// from the controller's report. Succeeds exactly on a well-formed
/// report; a report with fewer fields than expected, or whose percentage
/// field is absent or non-numeric, is rejected as a parse failure.
pub fn parse_brightness_report(s: &str) -> (r: Result<(String, u32), Error>)
    ensures
        r is Ok <==> report_ok(s@),
        r is Ok ==> r->Ok_0.0@ == report_device(s@),
        r is Ok ==> r->Ok_0.1 as nat == report_brightness(s@),
        r is Err ==> r->Err_0 == Error::BrightnessQueryParseFailure,
{
    let parts = split_str(s, ',');
    proof {
        assert(views_of(parts@).len() == parts@.len());
    }
    if parts.len() < 4 {
        return Err(Error::BrightnessQueryParseFailure);
    }
    proof {
        assert(views_of(parts@)[3] == parts@[3]@);
        assert(views_of(parts@)[0] == parts@[0]@);
    }
    let field = trim_trailing_pct(parts[3].as_str());
    match parse_u32(field) {
        Some(v) => {
            let device = parts[0].clone();
            Ok((device, v))
        },
        None => Err(Error::BrightnessQueryParseFailure),
    }
}

} // verus!
