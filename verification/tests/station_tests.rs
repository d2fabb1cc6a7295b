use fm_inspect::classify::OcrResult;
use fm_inspect::dates::find_date;
use fm_inspect::station::description_of;
use fm_inspect::station::plan_station;

#[test]
fn date_token_found_in_plain_text() {
    assert_eq!(find_date("inspected on 15/03/24 at noon"), Some("15/03/24".to_string()));
}

#[test]
fn date_token_missing() {
    assert_eq!(find_date("no date here"), None);
}

#[test]
fn date_token_needs_leading_boundary() {
    // a word character right before the digits breaks the token
    assert_eq!(find_date("a15/03/24"), None);
}

#[test]
fn date_token_needs_trailing_boundary() {
    assert_eq!(find_date("15/03/241"), None);
}

#[test]
fn date_token_three_leading_digits_do_not_match() {
    assert_eq!(find_date("115/03/24"), None);
}

#[test]
fn date_token_next_to_punctuation_matches() {
    assert_eq!(find_date("(15/03/24)."), Some("15/03/24".to_string()));
}

#[test]
fn first_date_in_one_text_wins() {
    assert_eq!(find_date("15/03/24 then 01/01/20"), Some("15/03/24".to_string()));
}

#[test]
fn station_date_first_across_images_wins() {
    let images = vec![
        ("a.png".to_string(), "no date at all".to_string()),
        ("b.png".to_string(), "seen 15/03/24 ok".to_string()),
        ("c.png".to_string(), "older 01/01/20".to_string()),
    ];
    let job = plan_station("ST01".to_string(), images);
    assert_eq!(job.inspection_date, Some("15/03/24".to_string()));
}

#[test]
fn station_without_dates_has_none() {
    let images = vec![
        ("a.png".to_string(), "nothing".to_string()),
        ("b.png".to_string(), "still nothing".to_string()),
    ];
    let job = plan_station("ST01".to_string(), images);
    assert_eq!(job.inspection_date, None);
}

#[test]
fn descriptions_follow_classification() {
    let images = vec![
        ("a.png".to_string(), "Upper Limit".to_string()),
        ("b.png".to_string(), "OBW: 200 kHz".to_string()),
        ("c.png".to_string(), "Center: 112.0 MHz".to_string()),
        ("d.png".to_string(), "just a sign".to_string()),
    ];
    let job = plan_station("ST02".to_string(), images);
    assert_eq!(job.station_id, "ST02");
    assert_eq!(job.images.len(), 4);
    assert_eq!(job.images[0].path, "a.png");
    assert_eq!(job.images[0].description, "Deviation");
    assert_eq!(job.images[1].description, "Occupied Bandwidth");
    assert_eq!(job.images[2].description, "Unwanted Emission");
    assert_eq!(job.images[3].description, "Date Image");
}

#[test]
fn description_strings_for_labels() {
    assert_eq!(description_of(OcrResult::Deviation), "Deviation");
    assert_eq!(description_of(OcrResult::OccBandwidth), "Occupied Bandwidth");
    assert_eq!(description_of(OcrResult::Unwanted), "Unwanted Emission");
    assert_eq!(description_of(OcrResult::Date), "Date Image");
}

#[test]
fn empty_station_is_allowed() {
    let job = plan_station("ST03".to_string(), vec![]);
    assert_eq!(job.images.len(), 0);
    assert_eq!(job.inspection_date, None);
}
