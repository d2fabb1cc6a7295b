use fm_inspect::classify::classify;
use fm_inspect::classify::OcrResult;

#[test]
fn upper_limit_marker_wins() {
    assert_eq!(classify("spectrum Upper Limit trace"), OcrResult::Deviation);
}

#[test]
fn upper_limit_beats_obw_and_frequency() {
    assert_eq!(
        classify("OBW: 180 kHz Upper Limit Center: 112.0 MHz"),
        OcrResult::Deviation
    );
}

#[test]
fn obw_marker_without_upper_limit() {
    assert_eq!(classify("measurement OBW: 180 kHz"), OcrResult::OccBandwidth);
}

#[test]
fn obw_beats_frequency_checks() {
    assert_eq!(classify("OBW: x Center: 112.0 MHz"), OcrResult::OccBandwidth);
}

#[test]
fn center_frequency_exact_match() {
    assert_eq!(classify("Center: 112.0 MHz"), OcrResult::Unwanted);
}

#[test]
fn center_frequency_within_tolerance() {
    assert_eq!(classify("Center: 112.005 MHz"), OcrResult::Unwanted);
}

#[test]
fn center_frequency_just_below_expected() {
    assert_eq!(classify("Center: 111.995 MHz"), OcrResult::Unwanted);
}

#[test]
fn center_frequency_at_tolerance_bound_is_out() {
    // the tolerance is strict: |v - 112| < 0.01
    assert_eq!(classify("Center: 112.01 MHz"), OcrResult::Date);
}

#[test]
fn center_frequency_outside_tolerance() {
    assert_eq!(classify("Center: 112.5 MHz"), OcrResult::Date);
}

#[test]
fn stop_frequency_match() {
    assert_eq!(classify("Stop: 137.0 MHz"), OcrResult::Unwanted);
}

#[test]
fn start_frequency_match_without_decimals() {
    assert_eq!(classify("Start: 87 MHz"), OcrResult::Unwanted);
}

#[test]
fn frequency_without_colon_still_matches() {
    assert_eq!(classify("Center 112.0 MHz"), OcrResult::Unwanted);
}

#[test]
fn frequency_without_spaces_still_matches() {
    assert_eq!(classify("Start:87MHz"), OcrResult::Unwanted);
}

#[test]
fn first_center_reading_decides() {
    // the leftmost full pattern match captures 50, which is out of
    // tolerance; the later reading does not rescue the rule
    assert_eq!(classify("Center: 50 MHz and Center: 112.0 MHz"), OcrResult::Date);
}

#[test]
fn incomplete_reading_is_skipped() {
    // the first keyword occurrence has no number, so the second one is
    // the leftmost full match
    assert_eq!(classify("Center: xx MHz, Center: 112.0 MHz"), OcrResult::Unwanted);
}

#[test]
fn no_marker_is_date_only() {
    assert_eq!(classify("a photo of the station sign 15/03/24"), OcrResult::Date);
}

#[test]
fn empty_text_is_date_only() {
    assert_eq!(classify(""), OcrResult::Date);
}

#[test]
fn obw_without_colon_is_no_marker() {
    assert_eq!(classify("OBW 180 kHz"), OcrResult::Date);
}

#[test]
fn upper_limit_is_case_sensitive() {
    assert_eq!(classify("upper limit"), OcrResult::Date);
}

#[test]
fn wrong_keyword_case_does_not_match() {
    assert_eq!(classify("center: 112.0 MHz"), OcrResult::Date);
}

#[test]
fn wrong_unit_does_not_match() {
    assert_eq!(classify("Center: 112.0 kHz"), OcrResult::Date);
}
