use chrono::Datelike;
use chrono::TimeZone;
use chrono::Timelike;
use logosaurus::header::header_with_flags;
use logosaurus::timestamp::CivilTime;
use logosaurus::timestamp::Timestamp;
use logosaurus::Level;
use logosaurus::L_DATE;
use logosaurus::L_LEVEL;
use logosaurus::L_LONG_FILE;
use logosaurus::L_MICROSECONDS;
use logosaurus::L_MSG_PREFIX;
use logosaurus::L_SHORT_FILE;
use logosaurus::L_STD;
use logosaurus::L_TIME;
use logosaurus::L_UTC;

fn civil(n: chrono::NaiveDateTime) -> CivilTime {
    CivilTime {
        year: n.year() as u16,
        month: n.month() as u8,
        day: n.day() as u8,
        hour: n.hour() as u8,
        minute: n.minute() as u8,
        second: n.second() as u8,
    }
}

fn timestamp(dt: chrono::DateTime<chrono::FixedOffset>) -> Timestamp {
    Timestamp {
        local: civil(dt.naive_local()),
        utc: civil(dt.naive_utc()),
        micro: dt.nanosecond() / 1000,
    }
}

#[test]
fn test_header() {
    let offset = chrono::FixedOffset::east_opt(3600 * 5 + 1800).unwrap();
    let time = timestamp(
        offset
            .with_ymd_and_hms(2020, 10, 3, 1, 2, 3)
            .unwrap()
            .with_nanosecond(9876 * 1000)
            .unwrap(),
    );

    let flags = L_STD | L_MICROSECONDS | L_SHORT_FILE;
    let expect = "TRACE 2020/10/03 01:02:03.009876 file.rs:9: ";
    let got = header_with_flags(
        "foo",
        Some("src/dir/file.rs"),
        9,
        Level::Trace,
        &time,
        flags,
        "",
    );
    assert_eq!(expect, got);

    let flags = L_DATE | L_TIME | L_UTC | L_LONG_FILE;
    let expect = "2020/10/02 19:32:03 foo src/dir/file.rs:9: ";
    let got = header_with_flags(
        "foo",
        Some("src/dir/file.rs"),
        9,
        Level::Info,
        &time,
        flags,
        "",
    );
    assert_eq!(expect, got);

    let flags = L_TIME | L_LEVEL;
    let prefix = "myprog: ";
    let expect = "myprog: INFO  01:02:03 ";
    let got = header_with_flags(
        "foo",
        Some("src/dir/file.rs"),
        9,
        Level::Info,
        &time,
        flags,
        prefix,
    );
    assert_eq!(expect, got);

    let flags = L_MSG_PREFIX | L_TIME | L_LEVEL;
    let expect = "INFO  01:02:03 myprog: ";
    let got = header_with_flags(
        "foo",
        Some("src/dir/file.rs"),
        9,
        Level::Info,
        &time,
        flags,
        prefix,
    );
    assert_eq!(expect, got);
}
