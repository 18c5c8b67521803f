use fia_ingest::pacing::pacing_delay;
use fia_ingest::series::Series;

#[test]
fn series_tokens_round_trip() {
    assert_eq!(String::from(Series::F1), "f1".to_string());
    assert_eq!(String::from(Series::F2), "f2".to_string());
    assert_eq!(String::from(Series::F3), "f3".to_string());
    assert_eq!(Series::from("f1".to_string()), Series::F1);
    assert_eq!(Series::from("F2".to_string()), Series::F2);
    assert_eq!(Series::from("f3".to_string()), Series::F3);
}

#[test]
fn unknown_series_token_falls_back_to_f1() {
    assert_eq!(Series::from("f4".to_string()), Series::F1);
    assert_eq!(Series::from("".to_string()), Series::F1);
}

#[test]
fn series_column_metadata() {
    assert!(!Series::F2.is_null());
    assert_eq!(Series::F3.name(), "varchar(3)");
    assert_eq!(Series::F1.fmt(), "f1".to_string());
}

#[test]
fn pacing_waits_out_the_remaining_interval() {
    // 180 s target, 30 s cycle: wait the remaining 150 s.
    assert_eq!(pacing_delay(180, 30, 1), 150);
}

#[test]
fn pacing_overrun_falls_back_to_the_floor() {
    // elapsed >= target: exactly the floor, never zero.
    assert_eq!(pacing_delay(180, 180, 1), 1);
    assert_eq!(pacing_delay(180, 400, 1), 1);
    assert_eq!(pacing_delay(0, 0, 5), 5);
}

#[test]
fn pacing_short_remainder_still_honors_the_floor() {
    // 2 s remain but the floor is 5 s.
    assert_eq!(pacing_delay(180, 178, 5), 5);
}
