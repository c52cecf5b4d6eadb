use logosaurus::Level;
use logosaurus::Logger;
use logosaurus::SyncWriter;
use logosaurus::L_NONE;
use std::str;
use std::sync::Arc;
use std::sync::Mutex;

#[test]
fn newline_test_level_filter() {
    let v = Mutex::new(Vec::<u8>::new());
    let arc = Arc::new(v);
    let w = SyncWriter::new(Arc::clone(&arc));

    let logger = Logger::builder(w).set_flags(L_NONE).build();

    logger.write_output(Level::Warn, "", None, None, "message0");
    logger.write_output(Level::Warn, "", None, None, "message1\n\n");
    logger.write_output(Level::Warn, "", None, None, "message2\n");

    let expect = "message0\nmessage1\n\nmessage2\n";
    let got = arc.lock().unwrap();
    let got = str::from_utf8(got.as_slice()).unwrap();
    assert_eq!(expect, got);
}
