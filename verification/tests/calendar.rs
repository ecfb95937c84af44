use pointiv_extension_sdk::google_calendar::{
    add_one_hour, add_one_hour_would_overflow, add_one_hour_would_wrap, can_schedule,
    create_event_request, date_fields_of, event, next_day, next_day_would_overflow, schedule,
};
use pointiv_extension_sdk::text::{chars_of, dec_string, pad_string, parse_u32, split_chars};

fn next(date: &str) -> Option<String> {
    next_day(date)
}

#[test]
fn next_day_within_month() {
    assert_eq!(next("2026-06-01").as_deref(), Some("2026-06-02"));
    assert_eq!(next("2026-06-29").as_deref(), Some("2026-06-30"));
}

#[test]
fn next_day_month_and_year_ends() {
    assert_eq!(next("2026-06-30").as_deref(), Some("2026-07-01"));
    assert_eq!(next("2026-01-31").as_deref(), Some("2026-02-01"));
    assert_eq!(next("2025-12-31").as_deref(), Some("2026-01-01"));
}

#[test]
fn next_day_leap_years() {
    assert_eq!(next("2024-02-28").as_deref(), Some("2024-02-29"));
    assert_eq!(next("2024-02-29").as_deref(), Some("2024-03-01"));
    assert_eq!(next("2023-02-28").as_deref(), Some("2023-03-01"));
    assert_eq!(next("1900-02-28").as_deref(), Some("1900-03-01"));
    assert_eq!(next("2000-02-28").as_deref(), Some("2000-02-29"));
}

#[test]
fn next_day_pads_and_accepts_loose_numbers() {
    assert_eq!(next("5-1-1").as_deref(), Some("0005-01-02"));
    assert_eq!(next("+2026-+6-01").as_deref(), Some("2026-06-02"));
    assert_eq!(next("12345-03-09").as_deref(), Some("12345-03-10"));
    // A day past the end of the month, or day zero, moves on like the last day.
    assert_eq!(next("2026-04-45").as_deref(), Some("2026-05-01"));
    assert_eq!(next("2026-04-00").as_deref(), Some("2026-04-01"));
}

#[test]
fn next_day_rejects_non_dates() {
    assert_eq!(next("2026-13-01"), None);
    assert_eq!(next("2026-00-01"), None);
    assert_eq!(next("2026-06"), None);
    assert_eq!(next("2026-06-01-02"), None);
    assert_eq!(next("2026/06/01"), None);
    assert_eq!(next("2026-06-x"), None);
    assert_eq!(next("-2026-06-01"), None);
    assert_eq!(next(""), None);
    assert_eq!(next("4294967296-01-01"), None);
}

#[test]
fn next_day_chains() {
    let mut d = String::from("2024-12-30");
    let mut seen = Vec::new();
    for _ in 0..3 {
        d = next(&d).unwrap();
        seen.push(d.clone());
    }
    assert_eq!(seen, vec!["2024-12-31", "2025-01-01", "2025-01-02"]);
}

#[test]
fn next_day_overflow_is_detected() {
    assert!(next_day_would_overflow("4294967295-12-31"));
    assert!(next_day_would_overflow("4294967295-12-40"));
    assert!(!next_day_would_overflow("4294967295-12-30"));
    assert!(!next_day_would_overflow("4294967294-12-31"));
    assert_eq!(next("4294967295-12-30").as_deref(), Some("4294967295-12-31"));
}

#[test]
fn date_fields_read_numbers() {
    assert_eq!(date_fields_of("2026-06-01"), Some((2026, 6, 1)));
    assert_eq!(date_fields_of("2026-06"), None);
}

#[test]
fn add_one_hour_cases() {
    assert_eq!(add_one_hour("09:00"), "10:00");
    assert_eq!(add_one_hour("23:30"), "00:30");
    assert_eq!(add_one_hour("9:5"), "10:05");
    assert_eq!(add_one_hour("ab:cd"), "01:00");
    assert_eq!(add_one_hour("48:120"), "01:120");
    assert_eq!(add_one_hour("0900"), "0900");
    assert_eq!(add_one_hour("09:00:00"), "09:00:00");
    assert!(add_one_hour_would_overflow("4294967295:00"));
    assert!(!add_one_hour_would_overflow("4294967294:00"));
    assert!(!add_one_hour_would_overflow("4294967295"));
}

#[test]
fn twenty_four_hours_later_is_the_same_time() {
    let start = "07:45";
    let mut t = start.to_string();
    for _ in 0..24 {
        t = add_one_hour(&t);
    }
    assert_eq!(t, start);
}

#[test]
fn numbers_parse_as_std_parses() {
    let cases = [
        "0", "7", "007", "+7", "+", "-", "-7", "", "4294967295", "4294967296", "99999999999",
        "12a", " 1", "１",
    ];
    for c in cases {
        assert_eq!(parse_u32(&chars_of(c)), c.parse::<u32>().ok(), "{c}");
    }
}

#[test]
fn numbers_format_as_format_does() {
    for n in [0u32, 5, 9, 10, 99, 100, 2026, 12345, u32::MAX] {
        assert_eq!(dec_string(n), format!("{n}"));
        assert_eq!(pad_string(n, 2), format!("{n:02}"));
        assert_eq!(pad_string(n, 4), format!("{n:04}"));
    }
}

#[test]
fn split_as_str_split() {
    for (s, sep) in [("a-b-c", '-'), ("", '-'), ("-", '-'), ("a--b-", '-'), ("12:30", ':')] {
        let parts: Vec<String> = split_chars(&chars_of(s), sep)
            .into_iter()
            .map(|p| p.into_iter().collect())
            .collect();
        let expected: Vec<String> = s.split(sep).map(|p| p.to_string()).collect();
        assert_eq!(parts, expected);
    }
}

fn obj(pairs: Vec<(&str, serde_json::Value)>) -> serde_json::Value {
    let mut map = serde_json::Map::new();
    for (k, v) in pairs {
        map.insert(k.to_string(), v);
    }
    serde_json::Value::Object(map)
}

fn s(v: &str) -> serde_json::Value {
    serde_json::Value::String(v.to_string())
}

#[test]
fn schedule_timed_event_payload() {
    assert!(can_schedule("2026-06-01", Some("09:00"), Some("09:30")));
    let payload =
        schedule("Team standup", "2026-06-01", Some("09:00"), Some("09:30"), Some("Daily sync"))
            .unwrap();
    let expected = obj(vec![
        ("summary", s("Team standup")),
        ("description", s("Daily sync")),
        ("start", obj(vec![("dateTime", s("2026-06-01T09:00:00")), ("timeZone", s("UTC"))])),
        ("end", obj(vec![("dateTime", s("2026-06-01T09:30:00")), ("timeZone", s("UTC"))])),
    ]);
    assert_eq!(payload, serde_json::to_string(&expected).unwrap());
}

#[test]
fn schedule_default_end_is_one_hour_later() {
    let payload = schedule("Early", "2026-06-01", Some("09:15"), None, None).unwrap();
    let v: serde_json::Value = serde_json::from_str(&payload).unwrap();
    assert_eq!(v["start"]["dateTime"], "2026-06-01T09:15:00");
    assert_eq!(v["end"]["dateTime"], "2026-06-01T10:15:00");
    assert_eq!(v["description"], "");
    // Past midnight the end moves to the next day.
    let payload = schedule("Late", "2026-06-01", Some("23:30"), None, None).unwrap();
    let v: serde_json::Value = serde_json::from_str(&payload).unwrap();
    assert_eq!(v["start"]["dateTime"], "2026-06-01T23:30:00");
    assert_eq!(v["end"]["dateTime"], "2026-06-02T00:30:00");
    let payload = schedule("Late", "2025-12-31", Some("23:59"), Some(""), None).unwrap();
    let v: serde_json::Value = serde_json::from_str(&payload).unwrap();
    assert_eq!(v["end"]["dateTime"], "2026-01-01T00:59:00");
    // A given end keeps the date.
    let payload = schedule("Late", "2026-06-01", Some("23:30"), Some("23:45"), None).unwrap();
    let v: serde_json::Value = serde_json::from_str(&payload).unwrap();
    assert_eq!(v["end"]["dateTime"], "2026-06-01T23:45:00");
    // An hour of 24 or more is no hour of the day: the end time wraps, the date stays.
    let payload = schedule("Odd", "2026-06-01", Some("24:30"), None, None).unwrap();
    let v: serde_json::Value = serde_json::from_str(&payload).unwrap();
    assert_eq!(v["end"]["dateTime"], "2026-06-01T01:30:00");
    assert!(!add_one_hour_would_wrap("24:30"));
    assert!(add_one_hour_would_wrap("23:00"));
    assert!(!add_one_hour_would_wrap("22:59"));
    assert!(!add_one_hour_would_wrap("23"));
}

#[test]
fn schedule_all_day_event_payload() {
    let payload = schedule("Holiday \"off\"", "2025-12-31", None, Some("10:00"), None).unwrap();
    let expected = obj(vec![
        ("summary", s("Holiday \"off\"")),
        ("description", s("")),
        ("start", obj(vec![("date", s("2025-12-31"))])),
        ("end", obj(vec![("date", s("2026-01-01"))])),
    ]);
    assert_eq!(payload, serde_json::to_string(&expected).unwrap());
    // A date that does not parse ends on itself.
    let payload = schedule("x", "someday", None, None, None).unwrap();
    let v: serde_json::Value = serde_json::from_str(&payload).unwrap();
    assert_eq!(v["end"]["date"], "someday");
    assert_eq!(v["start"]["date"], "someday");
}

#[test]
fn schedule_refuses_what_would_overflow() {
    assert!(!can_schedule("4294967295-12-31", None, None));
    assert!(can_schedule("4294967295-12-31", Some("10:00"), None));
    assert!(!can_schedule("2026-01-01", Some("4294967295:00"), None));
    assert!(!can_schedule("2026-01-01", Some("4294967295:00"), Some("")));
    assert!(can_schedule("2026-01-01", Some("4294967295:00"), Some("11:00")));
    assert!(!can_schedule("4294967295-12-31", Some("23:10"), None));
    assert!(can_schedule("4294967295-12-31", Some("22:10"), None));
}

#[test]
fn schedule_sends_what_create_event_raw_sends() {
    let v = event("Standup", "2026-06-01", Some("09:00"), None, Some("sync"));
    let expected = obj(vec![
        ("summary", s("Standup")),
        ("description", s("sync")),
        ("start", obj(vec![("dateTime", s("2026-06-01T09:00:00")), ("timeZone", s("UTC"))])),
        ("end", obj(vec![("dateTime", s("2026-06-01T10:00:00")), ("timeZone", s("UTC"))])),
    ]);
    assert_eq!(v, expected);
    assert_eq!(
        create_event_request(&v),
        schedule("Standup", "2026-06-01", Some("09:00"), None, Some("sync"))
    );
    let raw = obj(vec![("summary", s("x")), ("colorId", serde_json::Value::from(3))]);
    assert_eq!(create_event_request(&raw).unwrap(), r#"{"colorId":3,"summary":"x"}"#);
}
