use vlc_instance::lifecycle::{creation_report, get, AccessError, NativeHandle, VLCInstance};
use vlc_instance::router::{CallbackVariant, Sink};

#[test]
fn release_happens_exactly_once() {
    let mut inst = VLCInstance::new();
    inst.complete_creation(NativeHandle { raw: 0x1234 }, 2);

    assert_eq!(inst.release(), Some(NativeHandle { raw: 0x1234 }));
    assert_eq!(inst.release(), None);
    assert_eq!(inst.release(), None);
}

#[test]
fn release_before_creation_does_nothing() {
    let mut inst = VLCInstance::new();
    assert_eq!(inst.release(), None);
}

#[test]
fn accessor_fails_before_creation_and_after_release() {
    let mut inst = VLCInstance::new();
    assert_eq!(inst.get_vlc_instance(), Err(AccessError::NotInitialized));

    inst.complete_creation(NativeHandle { raw: 99 }, 4);
    assert_eq!(inst.get_vlc_instance(), Ok(NativeHandle { raw: 99 }));

    inst.release();
    assert_eq!(inst.get_vlc_instance(), Err(AccessError::AlreadyReleased));
}

#[test]
fn singleton_accessor_reports_each_failure() {
    assert_eq!(get(None), Err(AccessError::SingletonNotFound));

    let mut inst = VLCInstance::new();
    assert_eq!(get(Some(&inst)), Err(AccessError::NotInitialized));

    inst.complete_creation(NativeHandle { raw: 7 }, 1);
    assert_eq!(get(Some(&inst)), Ok(NativeHandle { raw: 7 }));
}

#[test]
fn creation_chooses_the_configured_variant() {
    let mut inst = VLCInstance::new();
    assert_eq!(
        inst.complete_creation(NativeHandle { raw: 5 }, 0),
        Some(CallbackVariant::DebugVariant),
    );

    let mut disabled = VLCInstance::new();
    assert_eq!(disabled.complete_creation(NativeHandle { raw: 5 }, 4), None);
}

#[test]
fn invalid_handle_is_still_active() {
    // creation may fail for environmental reasons; the lifecycle still owns
    // the sentinel, but releasing it is a no-op beyond the state change —
    // the native release is never handed the null sentinel
    let mut inst = VLCInstance::new();
    inst.complete_creation(NativeHandle::invalid(), 1);

    let h = inst.get_vlc_instance().unwrap();
    assert!(!h.is_valid());
    assert_eq!(inst.release(), None);
    assert_eq!(inst.get_vlc_instance(), Err(AccessError::AlreadyReleased));
    assert_eq!(inst.release(), None);
}

#[test]
fn creation_report_names_the_version() {
    let ok = creation_report(&NativeHandle { raw: 1 }, Some("3.0.21 Vetinari"));
    assert_eq!(ok.sink, Sink::InfoSink);
    assert_eq!(ok.line, "VLC initialized successfully. Version: 3.0.21 Vetinari");

    let unknown = creation_report(&NativeHandle { raw: 1 }, None);
    assert_eq!(unknown.sink, Sink::InfoSink);
    assert_eq!(unknown.line, "VLC initialized successfully. Version: unknown");

    let failed = creation_report(&NativeHandle::invalid(), Some("3.0.21"));
    assert_eq!(failed.sink, Sink::ErrorSink);
    assert_eq!(failed.line, "VLC failed to initialize! Make sure VLC is installed on your system.");
}
