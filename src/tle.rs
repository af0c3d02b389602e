//! Validated two-line element sets and the requests made of the propagator.
use vstd::prelude::*;
use vstd::string::StrSliceExecFns;
use vstd::string::StringExecFns;
use crate::error::{Error, ErrorView};
use crate::propagator::{
    elements_epoch, elements_error_text, ingestion_accepts, init_propagator, is_digit, parse,
    tle_epoch, tle_error_text,
};
use crate::text::{decimal, push_decimal, segments, split_lines, trim_text, trimmed};

verus! {

/// The fixed length, in characters, of each line of a NORAD TLE.
pub const TLE_LINE_LENGTH: usize = 69;

/// An instant in UTC: whole seconds since 1970-01-01T00:00:00 and the
/// nanoseconds past that second (beyond 999,999,999 only within a leap second).
#[derive(Debug, Clone, Copy, PartialEq, Eq)]
pub struct Timestamp {
    pub seconds: i64,
    pub nanos: u32,
}

impl Timestamp {
    /// The instant as a count of nanoseconds since 1970-01-01T00:00:00 UTC.
    pub open spec fn instant(self) -> int {
        self.seconds * 1_000_000_000 + self.nanos
    }
}

/// A validated TLE: the propagator's element set built from two lines of the
/// fixed length, and the epoch read from it once.
pub struct TwoLineElement {
    constants: sgp4::Constants,
    epoch: Timestamp,
    lines: Ghost<(Seq<char>, Seq<char>)>,
}

impl TwoLineElement {
    /// The first line, trimmed, from which the element set was built.
    pub closed spec fn line1(&self) -> Seq<char> {
        self.lines@.0
    }

    /// The second line, trimmed, from which the element set was built.
    pub closed spec fn line2(&self) -> Seq<char> {
        self.lines@.1
    }

    /// The epoch of the element set.
    pub closed spec fn spec_epoch(&self) -> Timestamp {
        self.epoch
    }

    /// The propagator initialised for the element set.
    pub closed spec fn spec_constants(&self) -> sgp4::Constants {
        self.constants
    }

    /// Both lines have the fixed TLE length.
    pub open spec fn wf(&self) -> bool {
        self.line1().len() == TLE_LINE_LENGTH && self.line2().len() == TLE_LINE_LENGTH
    }
}

/// The message for a line (1 or 2) whose trimmed length is `actual`.
pub open spec fn length_message(line: nat, actual: nat) -> Seq<char> {
    "Line "@ + decimal(line) + " is the wrong length. Expected "@ + decimal(
        TLE_LINE_LENGTH as nat,
    ) + ", but got "@ + decimal(actual)
}

/// The message for a text that splits into `count` lines.
pub open spec fn count_message(count: nat) -> Seq<char> {
    "Expected two lines, got "@ + decimal(count)
}

/// The length complaint about a pair of lines, if any: the first line is
/// checked before the second.
pub open spec fn length_failure(line1: Seq<char>, line2: Seq<char>) -> Option<Seq<char>> {
    if trimmed(line1).len() != TLE_LINE_LENGTH {
        Some(length_message(1, trimmed(line1).len()))
    } else if trimmed(line2).len() != TLE_LINE_LENGTH {
        Some(length_message(2, trimmed(line2).len()))
    } else {
        None
    }
}

/// The message for a line (1 or 2) whose checksum column holds no digit.
pub open spec fn checksum_message(line: nat) -> Seq<char> {
    "Line "@ + decimal(line) + " has no checksum digit"@
}

/// The complaint about a pair of lines that is made before ingestion, if any:
/// the lengths of the trimmed lines first, then their checksum columns (the
/// last character), the first line before the second.
pub open spec fn prior_failure(line1: Seq<char>, line2: Seq<char>) -> Option<Seq<char>> {
    if length_failure(line1, line2) is Some {
        length_failure(line1, line2)
    } else if !is_digit(trimmed(line1)[TLE_LINE_LENGTH - 1]) {
        Some(checksum_message(1))
    } else if !is_digit(trimmed(line2)[TLE_LINE_LENGTH - 1]) {
        Some(checksum_message(2))
    } else {
        None
    }
}

/// What construction from `line1` and `line2` returns: the complaint made
/// before ingestion where there is one; otherwise a handle built from the
/// trimmed lines with the epoch that the propagator reads from them, exactly
/// when its ingestion accepts them, and else a malformed-TLE error.
pub open spec fn construction_outcome(
    line1: Seq<char>,
    line2: Seq<char>,
    r: Result<TwoLineElement, Error>,
) -> bool {
    let a = trimmed(line1);
    let b = trimmed(line2);
    match prior_failure(line1, line2) {
        Some(m) => match r {
            Ok(_) => false,
            Err(e) => e@ == ErrorView::MalformedTwoLineElement(m),
        },
        None => match r {
            Ok(t) => ingestion_accepts(a, b) && t.wf() && t.line1() == a && t.line2() == b
                && t.spec_epoch() == tle_epoch(a, b),
            Err(e) => !ingestion_accepts(a, b) && e@ is MalformedTwoLineElement,
        },
    }
}

/// The two TLE lines of a combined text: two lines as they are, or three
/// lines of which the first is a name header; none for any other count.
pub open spec fn selected_lines(s: Seq<char>) -> Option<(Seq<char>, Seq<char>)> {
    let segs = segments(s);
    if segs.len() == 2 {
        Some((segs[0], segs[1]))
    } else if segs.len() == 3 {
        Some((segs[1], segs[2]))
    } else {
        None
    }
}

/// What construction from a combined text may return.
pub open spec fn from_lines_outcome(s: Seq<char>, r: Result<TwoLineElement, Error>) -> bool {
    match selected_lines(s) {
        Some(p) => construction_outcome(p.0, p.1, r),
        None => match r {
            Ok(_) => false,
            Err(e) => e@ == ErrorView::MalformedTwoLineElement(count_message(segments(s).len())),
        },
    }
}

fn length_error(line: usize, actual: usize) -> (r: Error)
    ensures
        r@ == ErrorView::MalformedTwoLineElement(length_message(line as nat, actual as nat)),
{
    let mut m = String::from_str("Line ");
    push_decimal(&mut m, line);
    m.append(" is the wrong length. Expected ");
    push_decimal(&mut m, TLE_LINE_LENGTH);
    m.append(", but got ");
    push_decimal(&mut m, actual);
    Error::MalformedTwoLineElement(m)
}

fn checksum_error(line: usize) -> (r: Error)
    ensures
        r@ == ErrorView::MalformedTwoLineElement(checksum_message(line as nat)),
{
    let mut m = String::from_str("Line ");
    push_decimal(&mut m, line);
    m.append(" has no checksum digit");
    Error::MalformedTwoLineElement(m)
}

/// Trims both lines and checks their lengths, then that each ends in a
/// checksum digit, the first line first.
pub fn validate_lines<'a>(line1: &'a str, line2: &'a str) -> (r: Result<(&'a str, &'a str), Error>)
    ensures
        match prior_failure(line1@, line2@) {
            Some(m) => match r {
                Ok(_) => false,
                Err(e) => e@ == ErrorView::MalformedTwoLineElement(m),
            },
            None => match r {
                Ok(p) => p.0@ == trimmed(line1@) && p.1@ == trimmed(line2@),
                Err(_) => false,
            },
        },
{
    let t1 = trim_text(line1);
    let t2 = trim_text(line2);
    let n1 = t1.unicode_len();
    if n1 != TLE_LINE_LENGTH {
        return Err(length_error(1, n1));
    }
    let n2 = t2.unicode_len();
    if n2 != TLE_LINE_LENGTH {
        return Err(length_error(2, n2));
    }
    let c1 = t1.get_char(TLE_LINE_LENGTH - 1);
    if !('0' <= c1 && c1 <= '9') {
        return Err(checksum_error(1));
    }
    let c2 = t2.get_char(TLE_LINE_LENGTH - 1);
    if !('0' <= c2 && c2 <= '9') {
        return Err(checksum_error(2));
    }
    Ok((t1, t2))
}

/// Picks the two TLE lines out of a combined text, dropping a name header.
pub fn record_lines(combined: &str) -> (r: Result<(&str, &str), Error>)
    ensures
        match selected_lines(combined@) {
            Some(p) => match r {
                Ok(q) => q.0@ == p.0 && q.1@ == p.1,
                Err(_) => false,
            },
            None => match r {
                Ok(_) => false,
                Err(e) => e@ == ErrorView::MalformedTwoLineElement(
                    count_message(segments(combined@).len()),
                ),
            },
        },
{
    let parts = split_lines(combined);
    let n = parts.len();
    if n == 2 {
        Ok((parts[0], parts[1]))
    } else if n == 3 {
        Ok((parts[1], parts[2]))
    } else {
        let mut m = String::from_str("Expected two lines, got ");
        push_decimal(&mut m, n);
        Err(Error::MalformedTwoLineElement(m))
    }
}

/// Hands two checked lines to the propagator's ingestion: the initialised
/// propagator and the epoch of its elements, or the propagator's account of
/// why the lines were refused.
fn ingest(line1: &str, line2: &str) -> (r: Result<(sgp4::Constants, Timestamp), String>)
    requires
        line1@.len() == TLE_LINE_LENGTH,
        line2@.len() == TLE_LINE_LENGTH,
        is_digit(line1@[TLE_LINE_LENGTH - 1]),
        is_digit(line2@[TLE_LINE_LENGTH - 1]),
    ensures
        r is Ok <==> ingestion_accepts(line1@, line2@),
        r matches Ok(p) ==> p.1 == tle_epoch(line1@, line2@),
{
    match parse(line1, line2) {
        Err(e) => Err(tle_error_text(&e)),
        Ok(parsed) => {
            let epoch = elements_epoch(&parsed);
            match init_propagator(&parsed) {
                Ok(constants) => Ok((constants, epoch)),
                Err(e) => Err(elements_error_text(&e)),
            }
        },
    }
}

impl TwoLineElement {
    /// Builds the handle from two trimmed lines of the fixed length and what
    /// the propagator's ingestion made of them: its refusal becomes a
    /// malformed-TLE error that keeps the propagator's text.
    pub fn accept_element_set(
        line1: &str,
        line2: &str,
        ingested: Result<(sgp4::Constants, Timestamp), String>,
    ) -> (r: Result<TwoLineElement, Error>)
        requires
            line1@.len() == TLE_LINE_LENGTH,
            line2@.len() == TLE_LINE_LENGTH,
        ensures
            match ingested {
                Ok(p) => match r {
                    Ok(t) => t.wf() && t.line1() == line1@ && t.line2() == line2@ && t.spec_epoch()
                        == p.1 && t.spec_constants() == p.0,
                    Err(_) => false,
                },
                Err(d) => match r {
                    Ok(_) => false,
                    Err(e) => e@ == ErrorView::MalformedTwoLineElement(d@),
                },
            },
    {
        match ingested {
            Ok((constants, epoch)) => Ok(
                TwoLineElement { constants, epoch, lines: Ghost((line1@, line2@)) },
            ),
            Err(d) => Err(Error::MalformedTwoLineElement(d)),
        }
    }

    /// Creates a validated TLE from its two lines, each trimmed of white space.
    pub fn new(line1: &str, line2: &str) -> (r: Result<TwoLineElement, Error>)
        ensures
            construction_outcome(line1@, line2@, r),
    {
        let (t1, t2) = match validate_lines(line1, line2) {
            Ok(p) => p,
            Err(e) => return Err(e),
        };
        let ingested = ingest(t1, t2);
        TwoLineElement::accept_element_set(t1, t2, ingested)
    }

    /// Creates a validated TLE from a text holding its two lines, optionally
    /// after a name header line.
    pub fn from_lines(combined_lines: &str) -> (r: Result<TwoLineElement, Error>)
        ensures
            from_lines_outcome(combined_lines@, r),
    {
        match record_lines(combined_lines) {
            Ok((line1, line2)) => TwoLineElement::new(line1, line2),
            Err(e) => Err(e),
        }
    }

    /// The epoch of the element set.
    pub fn epoch(&self) -> (r: Result<Timestamp, Error>)
        ensures
            r == Ok::<Timestamp, Error>(self.spec_epoch()),
    {
        Ok(self.epoch)
    }

    /// The signed time from the epoch to `t`, in nanoseconds: the elapsed
    /// time that the propagator is asked about (negative before the epoch).
    pub fn elapsed_nanos(&self, t: Timestamp) -> (r: i128)
        ensures
            r == t.instant() - self.spec_epoch().instant(),
    {
        let ds: i128 = t.seconds as i128 - self.epoch.seconds as i128;
        let dn: i128 = t.nanos as i128 - self.epoch.nanos as i128;
        assert(-0x1_0000_0000_0000_0000 < ds < 0x1_0000_0000_0000_0000);
        assert(-0x1_0000_0000_0000_0000 * 1_000_000_000 < ds * 1_000_000_000
            < 0x1_0000_0000_0000_0000 * 1_000_000_000) by (nonlinear_arith)
            requires
                -0x1_0000_0000_0000_0000 < ds < 0x1_0000_0000_0000_0000,
        ;
        ds * 1_000_000_000 + dn
    }

    /// The propagator initialised for this element set.
    pub fn constants(&self) -> (r: &sgp4::Constants)
        ensures
            *r == self.spec_constants(),
    {
        &self.constants
    }
}

} // verus!
