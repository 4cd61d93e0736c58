use pciewatch::logfile::log_line;

fn at(secs: i64, nanos: u32) -> (String, String) {
    let r = log_line(secs, nanos, "x").unwrap();
    (r.file, r.line)
}

#[test]
fn lines_carry_utc_milliseconds() {
    assert_eq!(
        at(1_700_000_000, 123_999_999),
        (
            "pciewatch-20231114.log".to_string(),
            "2023-11-14T22:13:20.123Z x".to_string()
        )
    );
}

#[test]
fn leap_days_and_centuries() {
    assert_eq!(at(951_782_400, 0).0, "pciewatch-20000229.log");
    assert_eq!(at(951_868_800, 0).0, "pciewatch-20000301.log");
    assert_eq!(at(-2_203_891_200, 0).0, "pciewatch-19000301.log");
    assert_eq!(at(-2_203_891_201, 0).0, "pciewatch-19000228.log");
}

#[test]
fn times_before_the_epoch() {
    assert_eq!(
        at(-1, 0),
        (
            "pciewatch-19691231.log".to_string(),
            "1969-12-31T23:59:59.000Z x".to_string()
        )
    );
}

#[test]
fn file_changes_at_midnight_utc() {
    let (before, line) = at(1_709_251_199, 999_000_000);
    assert_eq!(before, "pciewatch-20240229.log");
    assert_eq!(line, "2024-02-29T23:59:59.999Z x");
    let (after, line) = at(1_709_251_200, 0);
    assert_eq!(after, "pciewatch-20240301.log");
    assert_eq!(line, "2024-03-01T00:00:00.000Z x");
}

#[test]
fn leap_seconds_are_written_as_sixty() {
    assert_eq!(
        at(1_483_228_799, 1_500_000_000).1,
        "2016-12-31T23:59:60.500Z x"
    );
    assert!(log_line(1_483_228_800, 1_500_000_000, "x").is_none());
    assert!(log_line(1_483_228_799, 2_000_000_000, "x").is_none());
}

#[test]
fn years_out_of_four_digits_are_signed() {
    assert_eq!(at(253_402_300_800, 0).0, "pciewatch-+100000101.log");
    assert_eq!(at(-62_167_219_200, 0).0, "pciewatch-00000101.log");
    assert_eq!(at(-62_167_219_201, 0).0, "pciewatch--00011231.log");
}

#[test]
fn dates_end() {
    assert_eq!(at(8_210_266_876_799, 0).0, "pciewatch-+2621421231.log");
    assert!(log_line(8_210_266_876_800, 0, "x").is_none());
    assert_eq!(at(-8_334_601_228_800, 0).0, "pciewatch--2621430101.log");
    assert!(log_line(-8_334_601_228_801, 0, "x").is_none());
    assert!(log_line(i64::MAX, 0, "x").is_none());
    assert!(log_line(i64::MIN, 0, "x").is_none());
}

#[test]
fn name_and_line_agree() {
    for day in -1000..1000 {
        let (file, line) = at(day * 86_400 * 37 + 12_345, 0);
        let digits: String = line[..10].chars().filter(|c| *c != '-').collect();
        assert_eq!(file, format!("pciewatch-{digits}.log"));
    }
}
