//! The fault-injecting backend: every storage call either fails with a
//! simulated I/O error without touching the delegate, or is forwarded to the
//! delegate and returns its result unchanged.
use std::sync::atomic::AtomicBool;
use std::sync::atomic::Ordering;
use std::sync::Arc;
use vstd::prelude::*;

use crate::entropy::draw_below;
use crate::rate::FailureRate;

verus! {

#[verifier::external_type_specification]
#[verifier::external_body]
pub struct ExIoError(std::io::Error);

#[verifier::external_type_specification]
#[verifier::external_body]
pub struct ExInMemoryBackend(redb::backends::InMemoryBackend);

/// Why a call through the shim failed.
#[derive(Debug)]
pub enum FaultError {
    /// The shim failed the call on purpose; the delegate was not invoked.
    Simulated,
    /// The delegate was invoked and failed with this error.
    Delegate(std::io::Error),
}

/// What the shim returns for a delegate result that it forwards.
pub open spec fn forwarded<T>(d: Result<T, std::io::Error>) -> Result<T, FaultError> {
    match d {
        Ok(v) => Ok(v),
        Err(e) => Err(FaultError::Delegate(e)),
    }
}

/// Relies on redb's InMemoryBackend::new: a fresh, empty store.
pub assume_specification[ redb::backends::InMemoryBackend::new ]() -> redb::backends::InMemoryBackend;

/// Relies on redb's InMemoryBackend::len: the length of its buffer, never an
/// error.
#[verifier::external_body]
fn delegate_len(inner: &redb::backends::InMemoryBackend) -> (r: Result<u64, std::io::Error>)
    ensures
        r is Ok,
{
    redb::StorageBackend::len(inner)
}

/// Relies on redb's InMemoryBackend::read: on success, exactly `len` bytes.
/// `requires` leaves out the ranges whose end overflows, on which the
/// bounds check itself would overflow.
#[verifier::external_body]
fn delegate_read(inner: &redb::backends::InMemoryBackend, offset: u64, len: usize) -> (r: Result<
    Vec<u8>,
    std::io::Error,
>)
    requires
        offset + len <= usize::MAX,
    ensures
        r is Ok ==> r->Ok_0@.len() == len,
{
    redb::StorageBackend::read(inner, offset, len)
}

/// Relies on redb's InMemoryBackend::set_len: it truncates or zero-extends
/// its buffer, failing only on a length beyond `usize`.
#[verifier::external_body]
fn delegate_set_len(inner: &redb::backends::InMemoryBackend, len: u64) -> (r: Result<
    (),
    std::io::Error,
>)
    ensures
        len <= usize::MAX ==> r is Ok,
{
    redb::StorageBackend::set_len(inner, len)
}

/// Relies on redb's InMemoryBackend::sync_data: a no-op that always succeeds.
#[verifier::external_body]
fn delegate_sync_data(inner: &redb::backends::InMemoryBackend, eventual: bool) -> (r: Result<
    (),
    std::io::Error,
>)
    ensures
        r is Ok,
{
    redb::StorageBackend::sync_data(inner, eventual)
}

/// Relies on redb's InMemoryBackend::write: it copies `data` in at `offset`,
/// or fails when the range is not inside the buffer. `requires` leaves out
/// the ranges whose end overflows, on which the bounds check would overflow.
#[verifier::external_body]
fn delegate_write(inner: &redb::backends::InMemoryBackend, offset: u64, data: &[u8]) -> (r: Result<
    (),
    std::io::Error,
>)
    requires
        offset + data@.len() <= usize::MAX,
{
    redb::StorageBackend::write(inner, offset, data)
}

/// A storage backend that fails calls on purpose once injection is armed.
///
/// The injection flag is shared by every clone of the backend, so a handle
/// kept by the harness can arm the copy that the engine owns.
#[derive(Debug, Clone)]
pub struct TestBackend {
    failure_rate: FailureRate,
    should_fail: Arc<AtomicBool>,
    inner: Arc<redb::backends::InMemoryBackend>,
}

impl TestBackend {
    /// A backend over a fresh in-memory delegate, with injection disarmed so
    /// that the engine can initialise its store.
    pub fn new(failure_rate: FailureRate) -> (r: TestBackend)
        ensures
            r.failure_rate() == failure_rate,
    {
        TestBackend {
            failure_rate,
            should_fail: Arc::new(AtomicBool::new(false)),
            inner: Arc::new(redb::backends::InMemoryBackend::new()),
        }
    }

    /// The configured failure weight.
    pub closed spec fn failure_rate(&self) -> FailureRate {
        self.failure_rate
    }

    /// Arms or disarms fault injection for every clone of this backend. The
    /// store is sequentially consistent: a call that starts after this one
    /// returns reads the new value.
    pub fn set_injection(&self, enabled: bool) {
        self.should_fail.store(enabled, Ordering::SeqCst);
    }

    /// Whether fault injection is armed, read with sequential consistency.
    pub fn injection_enabled(&self) -> bool {
        self.should_fail.load(Ordering::SeqCst)
    }

    /// The failure decision for one call, given the flag as read for it:
    /// disarmed, the call goes through; armed, a value is drawn from
    /// `[0, rate)` and the call fails when it lies below the rate, which it
    /// always does.
    pub fn maybe_fail(&self, injection_enabled: bool) -> (r: Result<(), FaultError>)
        ensures
            r is Ok <==> !injection_enabled,
            r is Err ==> r->Err_0 is Simulated,
    {
        if !injection_enabled {
            return Ok(());
        }
        let rate = self.failure_rate.parts();
        let mut rng = rand::thread_rng();
        let x = draw_below(&mut rng, rate);
        if x < rate {
            Err(FaultError::Simulated)
        } else {
            Ok(())
        }
    }

    /// Runs `op` behind the failure decision for a flag value that was read
    /// for this call. Armed, the call fails with a simulated error and `op`
    /// is not invoked (it need not even be callable); disarmed, `op` runs and
    /// its result is returned unchanged.
    pub fn intercept_with<T, F: FnOnce() -> Result<T, std::io::Error>>(
        &self,
        injection_enabled: bool,
        op: F,
    ) -> (r: Result<T, FaultError>)
        requires
            !injection_enabled ==> op.requires(()),
        ensures
            injection_enabled ==> r is Err && r->Err_0 is Simulated,
            !injection_enabled ==> exists|d: Result<T, std::io::Error>|
                op.ensures((), d) && r == forwarded(d),
    {
        match self.maybe_fail(injection_enabled) {
            Err(e) => Err(e),
            Ok(()) => {
                let d = op();
                let ghost delegated = d;
                let r = match d {
                    Ok(v) => Ok(v),
                    Err(e) => Err(FaultError::Delegate(e)),
                };
                assert(op.ensures((), delegated) && r == forwarded(delegated));
                r
            }
        }
    }

    /// Runs `op` behind the failure decision, reading the injection flag
    /// once for this call: either the call fails with a simulated error, or
    /// `op`'s own result comes back unchanged.
    pub fn intercept<T, F: FnOnce() -> Result<T, std::io::Error>>(&self, op: F) -> (r: Result<
        T,
        FaultError,
    >)
        requires
            op.requires(()),
        ensures
            (r is Err && r->Err_0 is Simulated) || exists|d: Result<T, std::io::Error>|
                op.ensures((), d) && r == forwarded(d),
    {
        let enabled = self.injection_enabled();
        self.intercept_with(enabled, op)
    }

    /// The delegate's current length, for a flag value read for this call:
    /// armed, a simulated failure without asking the delegate; disarmed, the
    /// delegate's length, which it always gives.
    pub fn len_with(&self, injection_enabled: bool) -> (r: Result<u64, FaultError>)
        ensures
            injection_enabled ==> r is Err && r->Err_0 is Simulated,
            !injection_enabled ==> r is Ok,
    {
        let inner = &self.inner;
        let op = || -> (d: Result<u64, std::io::Error>)
            ensures
                d is Ok
        {
            delegate_len(inner)
        };
        self.intercept_with(injection_enabled, op)
    }

    /// The delegate's current length, unless the call is failed on purpose.
    pub fn len(&self) -> (r: Result<u64, FaultError>)
        ensures
            r is Err ==> r->Err_0 is Simulated,
    {
        self.len_with(self.injection_enabled())
    }

    /// `len` bytes of the delegate from `offset`, for a flag value read for
    /// this call: armed, a simulated failure without asking the delegate;
    /// disarmed, what the delegate returns, whose bytes number `len`.
    pub fn read_with(&self, injection_enabled: bool, offset: u64, len: usize) -> (r: Result<
        Vec<u8>,
        FaultError,
    >)
        requires
            offset + len <= usize::MAX,
        ensures
            injection_enabled ==> r is Err && r->Err_0 is Simulated,
            !injection_enabled ==> r is Ok || r->Err_0 is Delegate,
            r is Ok ==> r->Ok_0@.len() == len,
    {
        let inner = &self.inner;
        let op = || -> (d: Result<Vec<u8>, std::io::Error>)
            requires
                offset + len <= usize::MAX,
            ensures
                d is Ok ==> d->Ok_0@.len() == len
        {
            delegate_read(inner, offset, len)
        };
        self.intercept_with(injection_enabled, op)
    }

    /// `len` bytes of the delegate from `offset`, unless the call is failed
    /// on purpose or the delegate refuses the range.
    pub fn read(&self, offset: u64, len: usize) -> (r: Result<Vec<u8>, FaultError>)
        requires
            offset + len <= usize::MAX,
        ensures
            r is Ok ==> r->Ok_0@.len() == len,
    {
        self.read_with(self.injection_enabled(), offset, len)
    }

    /// Truncates or zero-extends the delegate to `len` bytes, for a flag
    /// value read for this call: armed, a simulated failure without touching
    /// the delegate; disarmed, what the delegate returns, which succeeds for
    /// every length that fits in memory.
    pub fn set_len_with(&self, injection_enabled: bool, len: u64) -> (r: Result<(), FaultError>)
        ensures
            injection_enabled ==> r is Err && r->Err_0 is Simulated,
            !injection_enabled ==> r is Ok || r->Err_0 is Delegate,
            !injection_enabled && len <= usize::MAX ==> r is Ok,
    {
        let inner = &self.inner;
        let op = || -> (d: Result<(), std::io::Error>)
            ensures
                len <= usize::MAX ==> d is Ok
        {
            delegate_set_len(inner, len)
        };
        self.intercept_with(injection_enabled, op)
    }

    /// Truncates or zero-extends the delegate to `len` bytes, unless the
    /// call is failed on purpose.
    pub fn set_len(&self, len: u64) -> (r: Result<(), FaultError>)
        ensures
            len <= usize::MAX ==> (r is Err ==> r->Err_0 is Simulated),
    {
        self.set_len_with(self.injection_enabled(), len)
    }

    /// Flushes the delegate, for a flag value read for this call: armed, a
    /// simulated failure without touching the delegate; disarmed, the
    /// delegate's flush, which always succeeds.
    pub fn sync_data_with(&self, injection_enabled: bool, eventual: bool) -> (r: Result<
        (),
        FaultError,
    >)
        ensures
            injection_enabled ==> r is Err && r->Err_0 is Simulated,
            !injection_enabled ==> r is Ok,
    {
        let inner = &self.inner;
        let op = || -> (d: Result<(), std::io::Error>)
            ensures
                d is Ok
        {
            delegate_sync_data(inner, eventual)
        };
        self.intercept_with(injection_enabled, op)
    }

    /// Flushes the delegate, unless the call is failed on purpose.
    pub fn sync_data(&self, eventual: bool) -> (r: Result<(), FaultError>)
        ensures
            r is Err ==> r->Err_0 is Simulated,
    {
        self.sync_data_with(self.injection_enabled(), eventual)
    }

    /// Writes `data` into the delegate at `offset`, for a flag value read for
    /// this call: armed, a simulated failure without touching the delegate;
    /// disarmed, what the delegate returns.
    pub fn write_with(&self, injection_enabled: bool, offset: u64, data: &[u8]) -> (r: Result<
        (),
        FaultError,
    >)
        requires
            offset + data@.len() <= usize::MAX,
        ensures
            injection_enabled ==> r is Err && r->Err_0 is Simulated,
            !injection_enabled ==> r is Ok || r->Err_0 is Delegate,
    {
        let inner = &self.inner;
        let op = || -> (d: Result<(), std::io::Error>)
            requires
                offset + data@.len() <= usize::MAX
        {
            delegate_write(inner, offset, data)
        };
        self.intercept_with(injection_enabled, op)
    }

    /// Writes `data` into the delegate at `offset`, unless the call is failed
    /// on purpose or the delegate refuses the range.
    pub fn write(&self, offset: u64, data: &[u8]) -> (r: Result<(), FaultError>)
        requires
            offset + data@.len() <= usize::MAX,
    {
        self.write_with(self.injection_enabled(), offset, data)
    }
}

} // verus!
