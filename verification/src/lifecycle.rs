//! Ownership of the native instance handle: creation, exactly-once release,
//! and the process-wide accessor.
//!
//! The lifecycle runs `Uninitialized -> Active -> Released`. `Active` holds
//! whatever handle the native creation call returned, the invalid sentinel
//! included; only a release leaves it. A valid handle is handed out exactly
//! once, for the one native release call the host shell must make; the
//! invalid sentinel is never handed out — releasing it is a no-op beyond the
//! state change, so the native release is never given null.

use crate::router::{CallbackVariant, ForwardedRecord, Sink, select_callback, selection};
use vstd::prelude::*;

verus! {

/// The native instance handle, carried by address; address 0 is the native
/// library's invalid (null) sentinel.
#[derive(Clone, Copy, PartialEq, Eq, Structural, Debug)]
pub struct NativeHandle {
    pub raw: usize,
}

impl NativeHandle {
    /// Whether the handle is something other than the invalid sentinel.
    pub open spec fn spec_valid(self) -> bool {
        self.raw != 0
    }

    /// The invalid sentinel handle.
    pub fn invalid() -> (r: NativeHandle)
        ensures
            !r.spec_valid(),
    {
        NativeHandle { raw: 0 }
    }

    /// Whether the handle is something other than the invalid sentinel.
    pub fn is_valid(&self) -> (b: bool)
        ensures
            b == self.spec_valid(),
    {
        self.raw != 0
    }
}

/// The lifecycle states of the singleton's native instance.
#[derive(Clone, Copy, PartialEq, Eq, Structural, Debug)]
pub enum LifecycleState {
    Uninitialized,
    Active(NativeHandle),
    Released,
}

/// Why the accessor returned no handle.
#[derive(Clone, Copy, PartialEq, Eq, Structural, Debug)]
pub enum AccessError {
    SingletonNotFound,
    NotInitialized,
    AlreadyReleased,
}

/// The release transition: an active instance moves to `Released`, handing
/// its handle out — once — only when it is valid; on the invalid sentinel
/// the release is a no-op apart from the state change, so nothing is ever
/// handed to the native release. Any other state changes nothing and
/// releases nothing.
pub open spec fn release_step(s: LifecycleState) -> (LifecycleState, Option<NativeHandle>) {
    match s {
        LifecycleState::Active(h) => (
            LifecycleState::Released,
            if h.spec_valid() {
                Some(h)
            } else {
                None
            },
        ),
        _ => (s, None),
    }
}

/// What the accessor returns in each lifecycle state.
pub open spec fn accessor_result(s: LifecycleState) -> Result<NativeHandle, AccessError> {
    match s {
        LifecycleState::Uninitialized => Err(AccessError::NotInitialized),
        LifecycleState::Active(h) => Ok(h),
        LifecycleState::Released => Err(AccessError::AlreadyReleased),
    }
}

/// The exclusive owner of the native instance handle.
pub struct VLCInstance {
    state: LifecycleState,
}

impl VLCInstance {
    /// The current lifecycle state.
    pub closed spec fn lifecycle(self) -> LifecycleState {
        self.state
    }

    /// A fresh owner, before the native creation call.
    pub fn new() -> (r: VLCInstance)
        ensures
            r.lifecycle() == LifecycleState::Uninitialized,
    {
        VLCInstance { state: LifecycleState::Uninitialized }
    }

    /// Takes ownership of the handle the native creation call returned —
    /// valid or the invalid sentinel, both are `Active` — and chooses the
    /// callback variant the host shell must register, once, from the
    /// configured level.
    pub fn complete_creation(&mut self, handle: NativeHandle, log_level: i64) -> (r: Option<
        CallbackVariant,
    >)
        requires
            old(self).lifecycle() is Uninitialized,
        ensures
            final(self).lifecycle() == LifecycleState::Active(handle),
            r == selection(log_level as int),
    {
        self.state = LifecycleState::Active(handle);
        select_callback(log_level)
    }

    /// The one-shot release guard. The first call on an active instance
    /// with a valid handle returns it for the single native release call;
    /// on the invalid sentinel the state still moves to `Released` but
    /// nothing is returned, so the native release is never given null.
    /// Every other call returns nothing and changes nothing.
    pub fn release(&mut self) -> (r: Option<NativeHandle>)
        ensures
            (final(self).lifecycle(), r) == release_step(old(self).lifecycle()),
    {
        match self.state {
            LifecycleState::Active(h) => {
                self.state = LifecycleState::Released;
                if h.is_valid() {
                    Some(h)
                } else {
                    None
                }
            }
            _ => None,
        }
    }

    /// The read-only accessor: the live handle while active, an error
    /// before creation completes or after release.
    pub fn get_vlc_instance(&self) -> (r: Result<NativeHandle, AccessError>)
        ensures
            r == accessor_result(self.lifecycle()),
    {
        match self.state {
            LifecycleState::Uninitialized => Err(AccessError::NotInitialized),
            LifecycleState::Active(h) => Ok(h),
            LifecycleState::Released => Err(AccessError::AlreadyReleased),
        }
    }
}

/// The process-wide accessor: resolves the singleton — absent when the host
/// registry does not hold it — and returns the live handle through it.
pub fn get(singleton: Option<&VLCInstance>) -> (r: Result<NativeHandle, AccessError>)
    ensures
        (match singleton {
            None => r == Err::<NativeHandle, AccessError>(AccessError::SingletonNotFound),
            Some(inst) => r == accessor_result(inst.lifecycle()),
        }),
{
    match singleton {
        None => Err(AccessError::SingletonNotFound),
        Some(inst) => inst.get_vlc_instance(),
    }
}

/// The informational line logged when native creation succeeded, naming the
/// native library's version.
pub open spec fn success_line(version: Seq<char>) -> Seq<char> {
    "VLC initialized successfully. Version: "@ + version
}

/// The error line logged when native creation returned the invalid handle.
pub open spec fn failure_line() -> Seq<char> {
    "VLC failed to initialize! Make sure VLC is installed on your system."@
}

/// The creation outcome report: on a valid handle an informational line
/// naming the version — "unknown" when the native version query returned
/// nothing — and on the invalid sentinel an error line.
pub open spec fn creation_report_ok(valid: bool, version: Option<&str>, r: ForwardedRecord) -> bool {
    if valid {
        r.sink == Sink::InfoSink && r.line@ == success_line(
            match version {
                Some(v) => v@,
                None => "unknown"@,
            },
        )
    } else {
        r.sink == Sink::ErrorSink && r.line@ == failure_line()
    }
}

/// Builds the log record reporting the creation outcome.
pub fn creation_report(handle: &NativeHandle, version: Option<&str>) -> (r: ForwardedRecord)
    ensures
        creation_report_ok(handle.spec_valid(), version, r),
{
    if handle.is_valid() {
        let mut line: String = String::from_str("VLC initialized successfully. Version: ");
        match version {
            Some(v) => line.append(v),
            None => line.append("unknown"),
        }
        ForwardedRecord { sink: Sink::InfoSink, line }
    } else {
        ForwardedRecord {
            sink: Sink::ErrorSink,
            line: String::from_str(
                "VLC failed to initialize! Make sure VLC is installed on your system.",
            ),
        }
    }
}

/// Law: release is exactly once, and only of a valid handle. Whatever the
/// state, a release followed by another release hands out no second handle
/// and changes nothing further; and whenever a release hands a handle out,
/// that handle is valid — the native release is never given the sentinel.
pub proof fn lemma_release_exactly_once(s: LifecycleState)
    ensures
        release_step(release_step(s).0).1 is None,
        release_step(release_step(s).0).0 == release_step(s).0,
        (match release_step(s).1 {
            Some(h) => h.spec_valid(),
            None => true,
        }),
{
}

/// Law: the accessor is deterministic about failure. It returns a handle
/// exactly in the active state; before creation completes it reports
/// `NotInitialized`, after release `AlreadyReleased`.
pub proof fn lemma_accessor_precondition(s: LifecycleState)
    ensures
        accessor_result(s) is Ok <==> s is Active,
        s is Uninitialized ==> accessor_result(s) == Err::<NativeHandle, AccessError>(
            AccessError::NotInitialized,
        ),
        s is Released ==> accessor_result(s) == Err::<NativeHandle, AccessError>(
            AccessError::AlreadyReleased,
        ),
{
}

} // verus!
