//! The SGP4 propagator of the `sgp4` crate, as this library uses it: its
//! types, and one trusted wrapper for each of its functions that is called.
use vstd::prelude::*;
use crate::tle::Timestamp;

verus! {

#[verifier::external_type_specification]
#[verifier::external_body]
pub struct ExElements(sgp4::Elements);

#[verifier::external_type_specification]
#[verifier::external_body]
pub struct ExConstants(sgp4::Constants);

#[verifier::external_type_specification]
#[verifier::external_body]
pub struct ExTleError(sgp4::TleError);

#[verifier::external_type_specification]
#[verifier::external_body]
pub struct ExElementsError(sgp4::ElementsError);

/// Whether `sgp4::Elements::from_tle` parses the two lines.
pub uninterp spec fn tle_parses(line1: Seq<char>, line2: Seq<char>) -> bool;

/// Whether `sgp4::Constants::from_elements` accepts the elements parsed from
/// the two lines.
pub uninterp spec fn propagator_accepts(line1: Seq<char>, line2: Seq<char>) -> bool;

/// The whole seconds since 1970 of the epoch parsed from the two lines.
pub uninterp spec fn epoch_seconds(line1: Seq<char>, line2: Seq<char>) -> i64;

/// The nanoseconds past the second of the epoch parsed from the two lines.
pub uninterp spec fn epoch_subsec_nanos(line1: Seq<char>, line2: Seq<char>) -> u32;

/// The epoch that the propagator's parser reads from the two lines.
pub open spec fn tle_epoch(line1: Seq<char>, line2: Seq<char>) -> Timestamp {
    Timestamp { seconds: epoch_seconds(line1, line2), nanos: epoch_subsec_nanos(line1, line2) }
}

/// Whether the propagator's ingestion (parse, then setup) accepts the lines.
pub open spec fn ingestion_accepts(line1: Seq<char>, line2: Seq<char>) -> bool {
    tle_parses(line1, line2) && propagator_accepts(line1, line2)
}

/// The character is an ASCII decimal digit.
pub open spec fn is_digit(c: char) -> bool {
    '0' <= c && c <= '9'
}

/// Orbital elements together with the two lines they were parsed from. Only
/// [`parse`] builds one, so `elements` is always the parse of the lines.
pub struct ParsedElements {
    elements: sgp4::Elements,
    lines: Ghost<(Seq<char>, Seq<char>)>,
}

impl ParsedElements {
    pub closed spec fn line1(&self) -> Seq<char> {
        self.lines@.0
    }

    pub closed spec fn line2(&self) -> Seq<char> {
        self.lines@.1
    }
}

/// Relies on `sgp4::Elements::from_tle`: parses the two lines (no name) into
/// orbital elements, or says why it cannot. Its checksum step subtracts `b'0'`
/// from the 69th byte, which must therefore not sort below `'0'`.
#[verifier::external_body]
fn elements_from_tle(line1: &str, line2: &str) -> (r: Result<sgp4::Elements, sgp4::TleError>)
    requires
        line1@.len() == 69,
        line2@.len() == 69,
        is_digit(line1@[68]),
        is_digit(line2@[68]),
    ensures
        r is Ok <==> tle_parses(line1@, line2@),
{
    sgp4::Elements::from_tle(None, line1.as_bytes(), line2.as_bytes())
}

/// Parses two lines of the TLE length whose checksum columns hold digits.
pub(crate) fn parse(line1: &str, line2: &str) -> (r: Result<ParsedElements, sgp4::TleError>)
    requires
        line1@.len() == 69,
        line2@.len() == 69,
        is_digit(line1@[68]),
        is_digit(line2@[68]),
    ensures
        r is Ok <==> tle_parses(line1@, line2@),
        r matches Ok(p) ==> p.line1() == line1@ && p.line2() == line2@,
{
    match elements_from_tle(line1, line2) {
        Ok(elements) => Ok(ParsedElements { elements, lines: Ghost((line1@, line2@)) }),
        Err(e) => Err(e),
    }
}

/// Relies on `sgp4::Constants::from_elements`: initialises the propagator for
/// the elements, with the WGS-84 model and the improved (IAU) sidereal time.
#[verifier::external_body]
pub(crate) fn init_propagator(parsed: &ParsedElements) -> (r: Result<sgp4::Constants, sgp4::ElementsError>)
    ensures
        r is Ok <==> propagator_accepts(parsed.line1(), parsed.line2()),
{
    sgp4::Constants::from_elements(&parsed.elements)
}

/// Relies on the `datetime` field of `sgp4::Elements` and on chrono's
/// `NaiveDateTime::and_utc`, `DateTime::timestamp` and
/// `DateTime::timestamp_subsec_nanos`: the epoch of the elements in UTC, as
/// seconds and nanoseconds since 1970.
#[verifier::external_body]
pub(crate) fn elements_epoch(parsed: &ParsedElements) -> (r: Timestamp)
    ensures
        r.seconds == epoch_seconds(parsed.line1(), parsed.line2()),
        r.nanos == epoch_subsec_nanos(parsed.line1(), parsed.line2()),
{
    let t = parsed.elements.datetime.and_utc();
    Timestamp { seconds: t.timestamp(), nanos: t.timestamp_subsec_nanos() }
}

/// Relies on the `Debug` impl of `sgp4::TleError`: a text of the parse error.
#[verifier::external_body]
pub(crate) fn tle_error_text(e: &sgp4::TleError) -> (r: String) {
    format!("{:?}", e)
}

/// Relies on the `Debug` impl of `sgp4::ElementsError`: a text of the error.
#[verifier::external_body]
pub(crate) fn elements_error_text(e: &sgp4::ElementsError) -> (r: String) {
    format!("{:?}", e)
}

} // verus!
