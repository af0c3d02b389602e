//! Properties that relate the library's functions over all inputs.
use vstd::prelude::*;
use crate::error::{Error, ErrorView};
use crate::text::{lemma_segments_join, lemma_segments_single, segments, trimmed};
use crate::tle::{
    construction_outcome, count_message, from_lines_outcome, length_message, prior_failure,
    selected_lines, Timestamp, TwoLineElement, TLE_LINE_LENGTH,
};

verus! {

/// Construction from two lines of which one, once trimmed, is not of the TLE
/// length always fails as a malformed TLE, and the message names the first
/// such line and gives the expected and the actual length.
pub proof fn lemma_wrong_length_rejected(
    line1: Seq<char>,
    line2: Seq<char>,
    r: Result<TwoLineElement, Error>,
)
    requires
        trimmed(line1).len() != TLE_LINE_LENGTH || trimmed(line2).len() != TLE_LINE_LENGTH,
        construction_outcome(line1, line2, r),
    ensures
        match r {
            Ok(_) => false,
            Err(e) => if trimmed(line1).len() != TLE_LINE_LENGTH {
                e@ == ErrorView::MalformedTwoLineElement(length_message(1, trimmed(line1).len()))
            } else {
                e@ == ErrorView::MalformedTwoLineElement(length_message(2, trimmed(line2).len()))
            },
        },
{
}

/// The epoch of a handle is the same on every call.
pub proof fn lemma_epoch_stable(
    t: TwoLineElement,
    r1: Result<Timestamp, Error>,
    r2: Result<Timestamp, Error>,
)
    requires
        r1 == Ok::<Timestamp, Error>(t.spec_epoch()),
        r2 == Ok::<Timestamp, Error>(t.spec_epoch()),
    ensures
        r1 == r2,
{
}

/// A two-line text and the same text after a header line give construction
/// the same two lines, so both succeed or both fail; where both succeed the
/// handles hold the same lines and the same epoch, and where a check before
/// ingestion fails both give the same error.
pub proof fn lemma_header_line_ignored(
    header: Seq<char>,
    blob: Seq<char>,
    r1: Result<TwoLineElement, Error>,
    r2: Result<TwoLineElement, Error>,
)
    requires
        !header.contains('\n'),
        segments(blob).len() == 2,
        from_lines_outcome(blob, r1),
        from_lines_outcome(header + seq!['\n'] + blob, r2),
    ensures
        selected_lines(header + seq!['\n'] + blob) == selected_lines(blob),
        match (r1, r2) {
            (Ok(a), Ok(b)) => a.line1() == b.line1() && a.line2() == b.line2() && a.spec_epoch()
                == b.spec_epoch(),
            (Err(a), Err(b)) => prior_failure(segments(blob)[0], segments(blob)[1]) is Some
                ==> a@ == b@,
            _ => false,
        },
{
    lemma_segments_join(header, blob);
    lemma_segments_single(header);
    let segs = segments(header + seq!['\n'] + blob);
    assert(segs =~= seq![header] + segments(blob));
    assert(segs[1] == segments(blob)[0]);
    assert(segs[2] == segments(blob)[1]);
}

/// A text of one line, or of four or more, is refused with the count of its
/// lines.
pub proof fn lemma_line_count_mismatch(s: Seq<char>, r: Result<TwoLineElement, Error>)
    requires
        segments(s).len() == 1 || segments(s).len() >= 4,
        from_lines_outcome(s, r),
    ensures
        match r {
            Ok(_) => false,
            Err(e) => e@ == ErrorView::MalformedTwoLineElement(count_message(segments(s).len())),
        },
{
}

} // verus!
