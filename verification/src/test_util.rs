//! A sink over shared memory, for observing what a logger wrote.
//!
//! [`SyncWriter`] adapts a shared, guarded sink — typically an
//! `Arc<Mutex<Vec<u8>>>` — into a [`Sink`] a logger can own, so a test can
//! hand a logger a destination and read the bytes back afterwards through
//! its own clone of the `Arc`.

use crate::sink::Sink;
use std::sync::Arc;
use std::sync::Mutex;
use vstd::prelude::*;

verus! {

/// A [`Sink`] writing through a shared, guarded inner sink.
#[verifier::reject_recursive_types(W)]
pub struct SyncWriter<W: Sink> {
    inner: Arc<Mutex<W>>,
}

impl<W: Sink> SyncWriter<W> {
    /// Wraps a shared sink. Other clones of the `Arc` keep access to it.
    pub fn new(writer: Arc<Mutex<W>>) -> SyncWriter<W> {
        SyncWriter { inner: writer }
    }
}

impl<W: Sink> Sink for SyncWriter<W> {
    fn write_all(&mut self, buf: &[u8]) -> Result<(), ()> {
        shared_write(&self.inner, buf)
    }

    fn flush(&mut self) -> Result<(), ()> {
        shared_flush(&self.inner)
    }
}

/// Relies on `std::sync::Mutex::lock` to reach the shared sink, which takes
/// the whole of `buf`; a poisoned guard is reported as failure.
#[verifier::external_body]
fn shared_write<W: Sink>(inner: &Arc<Mutex<W>>, buf: &[u8]) -> Result<(), ()> {
    match inner.lock() {
        Ok(mut w) => w.write_all(buf),
        Err(_) => Err(()),
    }
}

/// Relies on `std::sync::Mutex::lock`; the flush request goes through to
/// the shared sink.
#[verifier::external_body]
fn shared_flush<W: Sink>(inner: &Arc<Mutex<W>>) -> Result<(), ()> {
    match inner.lock() {
        Ok(mut w) => w.flush(),
        Err(_) => Err(()),
    }
}

} // verus!
