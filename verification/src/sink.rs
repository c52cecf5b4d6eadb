//! The destination a logger writes to.
//!
//! A [`Sink`] is anything that accepts a run of bytes and can be flushed: a
//! stream, a file, an in-memory buffer. The logger owns its sink behind a
//! mutual-exclusion guard and forwards each finished line as one call, so a
//! sink sees whole lines in some serial order. Failures are reported to the
//! logger, which deliberately swallows them: logging is best-effort and must
//! never become a source of application failure.

use vstd::prelude::*;

verus! {

/// A byte-accepting, flushable destination. Implementations supply the two
/// capabilities the logger needs; no behaviour is assumed of them beyond
/// their signatures.
pub trait Sink {
    /// Accept `buf` in its entirety, or report failure.
    fn write_all(&mut self, buf: &[u8]) -> Result<(), ()>;

    /// Push anything buffered through to the underlying destination, or
    /// report failure.
    fn flush(&mut self) -> Result<(), ()>;
}

impl Sink for Vec<u8> {
    /// An in-memory buffer accepts every byte, in order, and never fails.
    fn write_all(&mut self, buf: &[u8]) -> (r: Result<(), ()>)
        ensures
            final(self)@ == old(self)@ + buf@,
            r is Ok,
    {
        let mut i: usize = 0;
        while i < buf.len()
            invariant
                i <= buf.len(),
                self@ =~= old(self)@ + buf@.subrange(0, i as int),
            decreases buf.len() - i,
        {
            self.push(buf[i]);
            i = i + 1;
            assert(self@ =~= old(self)@ + buf@.subrange(0, i as int));
        }
        assert(buf@.subrange(0, buf@.len() as int) =~= buf@);
        Ok(())
    }

    /// An in-memory buffer holds nothing back; flushing is a no-op.
    fn flush(&mut self) -> (r: Result<(), ()>)
        ensures
            final(self)@ == old(self)@,
            r is Ok,
    {
        Ok(())
    }
}

/// A [`Sink`] over the standard error stream, the default destination of a
/// logger.
pub struct StderrSink;

impl Sink for StderrSink {
    fn write_all(&mut self, buf: &[u8]) -> Result<(), ()> {
        stderr_write(buf)
    }

    fn flush(&mut self) -> Result<(), ()> {
        stderr_flush()
    }
}

/// Relies on `std::io::Write::write_all` on `std::io::stderr` to take every
/// byte of `buf`; a short write is reported as failure.
#[verifier::external_body]
fn stderr_write(buf: &[u8]) -> Result<(), ()> {
    match std::io::Write::write_all(&mut std::io::stderr(), buf) {
        Ok(()) => Ok(()),
        Err(_) => Err(()),
    }
}

/// Relies on `std::io::Write::flush` on `std::io::stderr`.
#[verifier::external_body]
fn stderr_flush() -> Result<(), ()> {
    match std::io::Write::flush(&mut std::io::stderr()) {
        Ok(()) => Ok(()),
        Err(_) => Err(()),
    }
}

/// Makes `std::sync::Mutex` known to the verifier as an opaque type: a
/// logger holds its sink in one, and the shared writer of
/// [`crate::test_util::SyncWriter`] sits behind one.
#[verifier::external_type_specification]
#[verifier::external_body]
#[verifier::reject_recursive_types(T)]
pub struct ExMutex<T: ?Sized>(std::sync::Mutex<T>);

/// Relies on `std::sync::Mutex::new` to wrap a sink in a fresh
/// mutual-exclusion guard.
#[verifier::external_body]
pub(crate) fn new_mutex<W: Sink + Send>(w: W) -> std::sync::Mutex<W> {
    std::sync::Mutex::new(w)
}

} // verus!
