use logosaurus::Level;
use logosaurus::LevelFilter;
use logosaurus::Logger;
use logosaurus::SyncWriter;
use logosaurus::L_LEVEL;
use std::str;
use std::sync::Arc;
use std::sync::Mutex;

#[test]
fn level_test_level_filter() {
    let v = Mutex::new(Vec::<u8>::new());
    let arc = Arc::new(v);
    let w = SyncWriter::new(Arc::clone(&arc));

    let logger = Logger::builder(w)
        .set_level(LevelFilter::Warn)
        .set_flags(L_LEVEL)
        .build();

    logger.write_output(Level::Trace, "", None, None, "suppressed trace message");
    logger.write_output(Level::Debug, "", None, None, "suppressed debug message");
    logger.write_output(Level::Info, "", None, None, "suppressed info message");
    logger.write_output(Level::Warn, "", None, None, "warn message");
    logger.write_output(Level::Error, "", None, None, "error message");

    let expect = "WARN  warn message\nERROR error message\n";
    let got = arc.lock().unwrap();
    let got = str::from_utf8(got.as_slice()).unwrap();
    assert_eq!(expect, got);
}
