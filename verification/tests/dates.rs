use zwitter::date::Date;

#[test]
fn parse_reads_year_month_day() {
    let d = Date::parse("1991-12-29").unwrap();
    assert_eq!(d.year, 1991);
    assert_eq!(d.month, 12);
    assert_eq!(d.day, 29);
}

#[test]
fn format_renders_the_same_string() {
    let d = Date::parse("1991-12-29").unwrap();
    assert_eq!(d.format(), "1991-12-29");
    let d = Date::parse("2015-09-05").unwrap();
    assert_eq!(d.format(), "2015-09-05");
    let d = Date { year: 7, month: 1, day: 2 };
    assert_eq!(d.format(), "0007-01-02");
}

#[test]
fn parse_rejects_malformed_strings() {
    assert!(Date::parse("").is_none());
    assert!(Date::parse("1991").is_none());
    assert!(Date::parse("91-12-29").is_none());
    assert!(Date::parse("1991/12/29").is_none());
    assert!(Date::parse("1991-12-2x").is_none());
    assert!(Date::parse("1991-12-299").is_none());
}

#[test]
fn parse_rejects_dates_the_calendar_lacks() {
    assert!(Date::parse("1991-13-01").is_none());
    assert!(Date::parse("1991-00-01").is_none());
    assert!(Date::parse("1991-12-00").is_none());
    assert!(Date::parse("1991-12-32").is_none());
    assert!(Date::parse("1991-04-31").is_none());
    assert!(Date::parse("2001-02-29").is_none());
    assert!(Date::parse("1900-02-29").is_none());
}

#[test]
fn parse_accepts_leap_days() {
    assert!(Date::parse("2000-02-29").is_some());
    assert!(Date::parse("2004-02-29").is_some());
    assert_eq!(Date::parse("2004-02-29").unwrap().format(), "2004-02-29");
}
