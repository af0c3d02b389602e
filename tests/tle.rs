use tle_sgp4::text::{push_decimal, split_lines};
use tle_sgp4::tle::{record_lines, validate_lines};
use tle_sgp4::{Error, Timestamp, TwoLineElement};

const LINE1: &str = "1 25544U 98067A   20148.21301450  .00001715  00000-0  38778-4 0  9992";
const LINE2: &str = "2 25544  51.6435  92.2789 0002570 358.0648 144.9972 15.49396855228767";

fn malformed_text(r: Result<TwoLineElement, Error>) -> String {
    match r {
        Err(Error::MalformedTwoLineElement(m)) => m,
        Err(e) => panic!("unexpected error {:?}", e),
        Ok(_) => panic!("construction succeeded"),
    }
}

fn propagate(tle: &TwoLineElement, t: Timestamp) -> sgp4::Prediction {
    let minutes = tle.elapsed_nanos(t) as f64 / 60_000_000_000.0;
    tle.constants()
        .propagate(sgp4::MinutesSinceEpoch(minutes))
        .expect("propagation")
}

#[test]
fn test_simple_propagation() {
    let tle = TwoLineElement::new(LINE1, LINE2).unwrap();
    let epoch = tle.epoch().unwrap();

    let _s1 = propagate(&tle, epoch);
    let later = Timestamp { seconds: epoch.seconds + 3600, nanos: epoch.nanos };
    let _s2 = propagate(&tle, later);
}

#[test]
fn test_tle_from_lines() {
    let lines = "1 25544U 98067A   20148.21301450  .00001715  00000-0  38778-4 0  9992
                     2 25544  51.6435  92.2789 0002570 358.0648 144.9972 15.49396855228767";

    let _tle = TwoLineElement::from_lines(lines).unwrap();

    let lines = "ISS (ZARYA)
                     1 25544U 98067A   20148.21301450  .00001715  00000-0  38778-4 0  9992
                     2 25544  51.6435  92.2789 0002570 358.0648 144.9972 15.49396855228767";

    let _tle = TwoLineElement::from_lines(lines).unwrap();
}

#[test]
fn propagation_at_epoch_and_an_hour_later_differ() {
    let tle = TwoLineElement::new(LINE1, LINE2).unwrap();
    let epoch = tle.epoch().unwrap();
    let s1 = propagate(&tle, epoch);
    let s2 = propagate(&tle, Timestamp { seconds: epoch.seconds + 3600, nanos: epoch.nanos });
    for v in s1.position.iter().chain(s1.velocity.iter()) {
        assert!(v.is_finite());
    }
    for v in s2.position.iter().chain(s2.velocity.iter()) {
        assert!(v.is_finite());
    }
    assert_ne!(s1.position, s2.position);
    assert_ne!(s1.velocity, s2.velocity);
}

#[test]
fn propagation_is_repeatable() {
    let tle = TwoLineElement::new(LINE1, LINE2).unwrap();
    let t = Timestamp { seconds: tle.epoch().unwrap().seconds + 1234, nanos: 5 };
    let a = propagate(&tle, t);
    let b = propagate(&tle, t);
    assert_eq!(a.position, b.position);
    assert_eq!(a.velocity, b.velocity);
}

#[test]
fn truncated_line1_is_rejected() {
    let m = malformed_text(TwoLineElement::new(&LINE1[..68], LINE2));
    assert_eq!(m, "Line 1 is the wrong length. Expected 69, but got 68");
    assert!(m.contains("Line 1"));
}

#[test]
fn long_line2_is_rejected() {
    let long = format!("{}0", LINE2);
    let m = malformed_text(TwoLineElement::new(LINE1, &long));
    assert_eq!(m, "Line 2 is the wrong length. Expected 69, but got 70");
}

#[test]
fn line1_is_checked_first() {
    let m = malformed_text(TwoLineElement::new("", ""));
    assert_eq!(m, "Line 1 is the wrong length. Expected 69, but got 0");
}

#[test]
fn surrounding_white_space_is_trimmed() {
    let padded1 = format!("  \t{}\r\n", LINE1);
    let padded2 = format!("\u{a0}{} ", LINE2);
    assert!(TwoLineElement::new(&padded1, &padded2).is_ok());
    let (a, b) = validate_lines(&padded1, &padded2).unwrap();
    assert_eq!(a, LINE1);
    assert_eq!(b, LINE2);
    let short = format!("   {}   ", &LINE1[..60]);
    let m = malformed_text(TwoLineElement::new(&short, LINE2));
    assert_eq!(m, "Line 1 is the wrong length. Expected 69, but got 60");
}

#[test]
fn length_counts_characters() {
    let mut wide: String = std::iter::repeat('\u{e9}').take(68).collect();
    wide.push('7');
    let (_, b) = validate_lines(LINE1, &wide).unwrap();
    assert_eq!(b, wide);
    let m = malformed_text(TwoLineElement::new(LINE1, &wide));
    assert!(!m.starts_with("Line "));
}

#[test]
fn checksum_column_below_zero_is_rejected() {
    let bad = format!("{}+", &LINE1[..68]);
    let m = malformed_text(TwoLineElement::new(&bad, LINE2));
    assert_eq!(m, "Line 1 has no checksum digit");
    let bad = format!("{}/", &LINE2[..68]);
    let m = malformed_text(TwoLineElement::new(LINE1, &bad));
    assert_eq!(m, "Line 2 has no checksum digit");
}

#[test]
fn checksum_column_above_nine_is_rejected() {
    let bad = format!("{}:", &LINE2[..68]);
    let m = malformed_text(TwoLineElement::new(LINE1, &bad));
    assert_eq!(m, "Line 2 has no checksum digit");
    let wide: String = std::iter::repeat('\u{e9}').take(69).collect();
    let m = malformed_text(TwoLineElement::from_lines(&format!("{}\n{}", LINE1, wide)));
    assert_eq!(m, "Line 2 has no checksum digit");
}

#[test]
fn accepted_element_set_is_kept() {
    let elements = sgp4::Elements::from_tle(None, LINE1.as_bytes(), LINE2.as_bytes()).unwrap();
    let constants = sgp4::Constants::from_elements(&elements).unwrap();
    let at = Timestamp { seconds: 7, nanos: 9 };
    let tle = TwoLineElement::accept_element_set(LINE1, LINE2, Ok((constants.clone(), at))).unwrap();
    assert_eq!(tle.epoch().unwrap(), at);
    assert_eq!(*tle.constants(), constants);
}

#[test]
fn refusal_by_ingestion_is_malformed() {
    let bad = LINE1.replace("9992", "9993");
    let m = malformed_text(TwoLineElement::new(&bad, LINE2));
    assert!(!m.is_empty());
    assert!(!m.starts_with("Line "));
}

#[test]
fn epoch_is_read_from_the_elements() {
    let tle = TwoLineElement::new(LINE1, LINE2).unwrap();
    let e = tle.epoch().unwrap();
    assert_eq!(e.seconds, 1_590_556_004);
    assert!(e.nanos > 452_700_000 && e.nanos < 452_900_000);
    assert_eq!(tle.epoch().unwrap(), e);
}

#[test]
fn elapsed_time_is_signed_and_exact() {
    let tle = TwoLineElement::new(LINE1, LINE2).unwrap();
    let e = tle.epoch().unwrap();
    assert_eq!(tle.elapsed_nanos(e), 0);
    let later = Timestamp { seconds: e.seconds + 3600, nanos: e.nanos };
    assert_eq!(tle.elapsed_nanos(later), 3_600_000_000_000);
    let earlier = Timestamp { seconds: e.seconds - 1, nanos: e.nanos };
    assert_eq!(tle.elapsed_nanos(earlier), -1_000_000_000);
    let t = Timestamp { seconds: e.seconds + 90, nanos: 0 };
    assert_eq!(tle.elapsed_nanos(t), 90_000_000_000 - e.nanos as i128);
}

#[test]
fn header_line_gives_the_same_handle() {
    let blob = format!("{}\n{}", LINE1, LINE2);
    let with_header = format!("ISS (ZARYA)\n{}", blob);
    let a = TwoLineElement::from_lines(&blob).unwrap();
    let b = TwoLineElement::from_lines(&with_header).unwrap();
    assert_eq!(a.epoch().unwrap(), b.epoch().unwrap());
    assert_eq!(record_lines(&blob).unwrap(), record_lines(&with_header).unwrap());
    assert_eq!(record_lines(&with_header).unwrap(), (LINE1, LINE2));
}

#[test]
fn one_line_is_a_count_mismatch() {
    let m = malformed_text(TwoLineElement::from_lines(LINE1));
    assert_eq!(m, "Expected two lines, got 1");
}

#[test]
fn four_lines_are_a_count_mismatch() {
    let text = format!("A\nB\n{}\n{}", LINE1, LINE2);
    let m = malformed_text(TwoLineElement::from_lines(&text));
    assert_eq!(m, "Expected two lines, got 4");
    let m = malformed_text(TwoLineElement::from_lines("\n\n\n\n\n\n\n\n\n\n\n"));
    assert_eq!(m, "Expected two lines, got 12");
}

#[test]
fn empty_segment_fails_the_length_check() {
    let text = format!("{}\n", LINE1);
    let m = malformed_text(TwoLineElement::from_lines(&text));
    assert_eq!(m, "Line 2 is the wrong length. Expected 69, but got 0");
}

#[test]
fn split_keeps_empty_pieces() {
    assert_eq!(split_lines(""), vec![""]);
    assert_eq!(split_lines("a\n\nbc\n"), vec!["a", "", "bc", ""]);
    assert_eq!(split_lines("\u{e9}x\ny"), vec!["\u{e9}x", "y"]);
}

#[test]
fn decimal_rendering() {
    let mut s = String::from("n=");
    push_decimal(&mut s, 0);
    assert_eq!(s, "n=0");
    let mut s = String::new();
    push_decimal(&mut s, 1_234_509);
    assert_eq!(s, "1234509");
}

#[test]
fn error_messages() {
    assert_eq!(
        Error::MalformedTwoLineElement("bad".to_string()).message(),
        "TLE was malformed: bad"
    );
    assert_eq!(Error::PropagationError.message(), "Error in SGP4 propagator");
    assert_eq!(Error::UnknownError("odd".to_string()).message(), "odd");
}

#[test]
fn ingestion_failure_keeps_the_text() {
    let r = TwoLineElement::accept_element_set(LINE1, LINE2, Err("refused".to_string()));
    assert_eq!(malformed_text(r), "refused");
}
