use logosaurus::decimal::u32_dec;
use logosaurus::decimal::u32_dec_pad;
use logosaurus::header::header_with_flags;
use logosaurus::header::level_text;
use logosaurus::header::short_file_name;
use logosaurus::logger::terminated_message;
use logosaurus::timestamp::CivilTime;
use logosaurus::timestamp::Timestamp;
use logosaurus::Level;
use logosaurus::LevelFilter;
use logosaurus::Logger;
use logosaurus::SyncWriter;
use logosaurus::L_LEVEL;
use logosaurus::L_MICROSECONDS;
use logosaurus::L_MSG_PREFIX;
use logosaurus::L_NONE;
use logosaurus::L_SHORT_FILE;
use logosaurus::L_STD;
use logosaurus::L_TIME;
use std::sync::Arc;
use std::sync::Mutex;

fn sample_time() -> Timestamp {
    let local = CivilTime { year: 2020, month: 10, day: 3, hour: 1, minute: 2, second: 3 };
    let utc = CivilTime { year: 2020, month: 10, day: 2, hour: 19, minute: 32, second: 3 };
    Timestamp { local, utc, micro: 9876 }
}

#[test]
fn enabled_is_monotone_in_severity() {
    let logger = Logger::builder(Vec::<u8>::new())
        .set_level(LevelFilter::Info)
        .build();
    assert!(logger.enabled(Level::Error));
    assert!(logger.enabled(Level::Warn));
    assert!(logger.enabled(Level::Info));
    assert!(!logger.enabled(Level::Debug));
    assert!(!logger.enabled(Level::Trace));

    let off = Logger::builder(Vec::<u8>::new())
        .set_level(LevelFilter::Off)
        .build();
    assert!(!off.enabled(Level::Error));
}

#[test]
fn level_names_are_padded_to_five() {
    for l in [Level::Error, Level::Warn, Level::Info, Level::Debug, Level::Trace] {
        assert_eq!(level_text(l).len(), 5);
    }
    assert_eq!(level_text(Level::Info), "INFO ");
    assert_eq!(level_text(Level::Warn), "WARN ");
    assert_eq!(level_text(Level::Error), "ERROR");
}

#[test]
fn short_file_takes_final_component() {
    assert_eq!(short_file_name("src/dir/file.rs"), "file.rs");
    assert_eq!(short_file_name("file.rs"), "file.rs");
    assert_eq!(short_file_name("dir/"), "???");
    assert_eq!(short_file_name(""), "???");
}

#[test]
fn absent_file_suppresses_location() {
    let time = sample_time();
    let got = header_with_flags("foo", None, 9, Level::Info, &time, L_SHORT_FILE, "");
    assert_eq!(got, "");
}

#[test]
fn microseconds_alone_bring_the_time_in() {
    let time = sample_time();
    let got = header_with_flags("", None, 0, Level::Info, &time, L_MICROSECONDS, "");
    assert_eq!(got, "01:02:03.009876 ");
}

#[test]
fn msg_prefix_moves_only_the_prefix() {
    let time = sample_time();
    let flags = L_TIME | L_LEVEL;
    let rest = header_with_flags("", None, 0, Level::Info, &time, flags, "");
    let front = header_with_flags("", None, 0, Level::Info, &time, flags, "app: ");
    let back = header_with_flags("", None, 0, Level::Info, &time, flags | L_MSG_PREFIX, "app: ");
    assert_eq!(front, format!("app: {}", rest));
    assert_eq!(back, format!("{}app: ", rest));
}

#[test]
fn termination_is_idempotent() {
    assert_eq!(terminated_message("abc"), "abc\n");
    assert_eq!(terminated_message("abc\n"), "abc\n");
    assert_eq!(terminated_message("abc\n\n"), "abc\n\n");
    assert_eq!(terminated_message(""), "\n");
}

#[test]
fn decimal_rendering_is_exact() {
    assert_eq!(u32_dec(0), "0");
    assert_eq!(u32_dec(407), "407");
    assert_eq!(u32_dec_pad(9876, 6), "009876");
    assert_eq!(u32_dec_pad(12345, 4), "12345");
    assert_eq!(u32_dec_pad(0, 2), "00");
}

#[test]
fn builder_defaults_match_the_standard_logger() {
    let logger = Logger::builder(Vec::<u8>::new()).build();
    assert_eq!(logger.level(), LevelFilter::Trace);
    assert_eq!(logger.flags(), L_STD);
    assert_eq!(logger.prefix(), "");

    let stderr_logger = Logger::default();
    assert_eq!(stderr_logger.level(), LevelFilter::Trace);
    assert_eq!(stderr_logger.flags(), L_STD);
    assert_eq!(stderr_logger.prefix(), "");

    let custom = Logger::builder(Vec::<u8>::new())
        .set_prefix("myprog: ")
        .set_flags(L_NONE)
        .build();
    assert_eq!(custom.prefix(), "myprog: ");
    assert_eq!(custom.flags(), L_NONE);
}

#[test]
fn clock_reports_calendar_ranges() {
    let now = Timestamp::now();
    for c in [now.local, now.utc] {
        assert!((1..=12).contains(&c.month));
        assert!((1..=31).contains(&c.day));
        assert!(c.hour < 24);
        assert!(c.minute < 60);
        assert!(c.second < 60);
    }
    assert!(now.micro < 2_000_000);
}

#[test]
fn flush_reaches_the_sink_and_keeps_content() {
    let arc = Arc::new(Mutex::new(Vec::<u8>::new()));
    let logger = Logger::builder(SyncWriter::new(Arc::clone(&arc)))
        .set_flags(L_NONE)
        .build();
    logger.write_output(Level::Info, "", None, None, "kept");
    logger.flush();
    let got = arc.lock().unwrap();
    assert_eq!(got.as_slice(), b"kept\n");
}
