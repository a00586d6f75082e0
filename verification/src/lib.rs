//! A decorator for byte streams that lets a cooperating caller abort a
//! blocking or long-running operation from outside through a shared boolean
//! flag. Every operation samples the flag twice: before delegating, so that
//! an operation started after the flag was set never touches the inner
//! stream, and again after an inner interrupted failure, so that an
//! operation interrupted by the flag while in flight is told apart from an
//! unrelated transient interruption that callers may retry as usual.

use vstd::prelude::*;

pub mod error;
pub mod protocol;

use crate::error::ErrorKind;
use crate::error::StreamError;
use crate::protocol::flag_interrupt_error;
use crate::protocol::precheck;
use crate::protocol::reclassify;
use crate::protocol::reclassify_spec;
use crate::protocol::settle;

verus! {

/// Read access to the shared interrupt flag. The flag is owned and set
/// elsewhere — a signal handler, a controller thread — so nothing is
/// promised of the sampled value: two samples may differ.
pub trait FlagHandle {
    fn is_set(&self) -> bool;
}

impl FlagHandle for std::sync::Arc<std::sync::atomic::AtomicBool> {
    fn is_set(&self) -> bool {
        (**self).load(std::sync::atomic::Ordering::SeqCst)
    }
}

/// Read capability expected of a wrapped stream: fill a prefix of `buf`
/// with up to `buf.len()` bytes and report how many. The buffer keeps its
/// length, and a successful count never exceeds it.
pub trait ReadStream {
    fn read(&mut self, buf: &mut Vec<u8>) -> (r: Result<usize, StreamError>)
        ensures
            final(buf)@.len() == old(buf)@.len(),
            (r matches Ok(n) ==> n <= old(buf)@.len()),
    ;
}

/// Write capability expected of a wrapped stream: consume a prefix of `buf`
/// and report how many bytes were taken — never more than were offered —
/// and push buffered bytes down on `flush`.
pub trait WriteStream {
    fn write(&mut self, buf: &[u8]) -> (r: Result<usize, StreamError>)
        ensures
            (r matches Ok(n) ==> n <= buf@.len()),
    ;

    fn flush(&mut self) -> (r: Result<(), StreamError>);
}

/// Decorator around a stream that watches a shared interrupt flag. Every
/// operation samples the flag before delegating — with the flag set, the
/// inner stream is not touched and the flag-triggered interruption error
/// comes back — and again after an inner interrupted failure, which is
/// reclassified as flag-triggered exactly when the flag is then set. The
/// decorator only ever reads the flag; setting and clearing it belong to
/// its external owner.
pub struct Interruptable<IO, H> {
    inner: IO,
    interrupt_flag: H,
}

impl<IO, H> Interruptable<IO, H> {
    /// The wrapped stream, as contracts speak of it.
    pub closed spec fn inner_stream(&self) -> IO {
        self.inner
    }

    /// The flag handle, as contracts speak of it.
    pub closed spec fn flag_handle(&self) -> H {
        self.interrupt_flag
    }
}

impl<IO, H: FlagHandle> Interruptable<IO, H> {
    /// Wrap `inner`, watching `interrupt_flag`. Nothing is validated here:
    /// the flag may already be set.
    pub fn new(inner: IO, interrupt_flag: H) -> (r: Self)
        ensures
            r.inner_stream() == inner,
            r.flag_handle() == interrupt_flag,
    {
        Self { inner, interrupt_flag }
    }

    /// The flag-triggered interruption error: an `Other`-category error
    /// wrapping a plain interrupted condition as its cause, so that
    /// retry-on-interrupt loops do not swallow it while diagnostic code can
    /// still see that an interruption occurred.
    pub fn das_error() -> (r: StreamError)
        ensures
            r == flag_interrupt_error(),
    {
        StreamError { kind: ErrorKind::Other, cause: Some(ErrorKind::Interrupted) }
    }

    /// The post-check: on an interrupted failure the flag is sampled once
    /// more, and the failure is reclassified exactly when that sample is
    /// set; every other failure passes through unchanged. The result is the
    /// post-check outcome for whichever value the shared flag held.
    pub fn check_again(&self, e: StreamError) -> (r: StreamError)
        ensures
            r == reclassify_spec(e, true) || r == reclassify_spec(e, false),
            e.kind != ErrorKind::Interrupted ==> r == e,
    {
        if e.kind == ErrorKind::Interrupted {
            let flag_set = self.interrupt_flag.is_set();
            reclassify(e, flag_set)
        } else {
            e
        }
    }
}

impl<IO: ReadStream, H: FlagHandle> ReadStream for Interruptable<IO, H> {
    /// The read path of the two-point-check policy: `precheck` decides on
    /// the first flag sample whether the inner stream is consulted at all,
    /// and `settle` decides, exactly in the inner outcome and the second
    /// sample, what the caller sees — an inner success unchanged, an inner
    /// failure after the post-check. The flag is sampled again only for an
    /// interrupted failure; every other outcome settles the same way
    /// whatever the flag holds. The decorator keeps watching the same flag
    /// handle it was built with.
    fn read(&mut self, buf: &mut Vec<u8>) -> (r: Result<usize, StreamError>)
        ensures
            final(self).flag_handle() == old(self).flag_handle(),
    {
        match precheck(self.interrupt_flag.is_set()) {
            Some(e) => Err(e),
            None => {
                let inner = self.inner.read(buf);
                let post = match &inner {
                    Err(e) => e.kind == ErrorKind::Interrupted && self.interrupt_flag.is_set(),
                    Ok(_) => false,
                };
                settle(inner, post)
            },
        }
    }
}

impl<IO: WriteStream, H: FlagHandle> WriteStream for Interruptable<IO, H> {
    /// The write path of the two-point-check policy; same shape as `read`.
    fn write(&mut self, buf: &[u8]) -> (r: Result<usize, StreamError>)
        ensures
            final(self).flag_handle() == old(self).flag_handle(),
    {
        match precheck(self.interrupt_flag.is_set()) {
            Some(e) => Err(e),
            None => {
                let inner = self.inner.write(buf);
                let post = match &inner {
                    Err(e) => e.kind == ErrorKind::Interrupted && self.interrupt_flag.is_set(),
                    Ok(_) => false,
                };
                settle(inner, post)
            },
        }
    }

    /// The flush path of the two-point-check policy; same shape as `read`.
    fn flush(&mut self) -> (r: Result<(), StreamError>)
        ensures
            final(self).flag_handle() == old(self).flag_handle(),
    {
        match precheck(self.interrupt_flag.is_set()) {
            Some(e) => Err(e),
            None => {
                let inner = self.inner.flush();
                let post = match &inner {
                    Err(e) => e.kind == ErrorKind::Interrupted && self.interrupt_flag.is_set(),
                    Ok(_) => false,
                };
                settle(inner, post)
            },
        }
    }
}

} // verus!
