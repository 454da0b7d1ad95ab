use solo2_runtime::runner::{serial_bytes, Runner, UserPresence, UserPresenceMechanism};
use solo2_runtime::status::{Diagnostic, StatusReport};

#[test]
fn user_presence_follows_mechanism() {
    assert_eq!(UserPresence::from(UserPresenceMechanism::AcceptAll), UserPresence::Fixed(true));
    assert_eq!(UserPresence::from(UserPresenceMechanism::RejectAll), UserPresence::Fixed(false));
    assert_eq!(UserPresence::from(UserPresenceMechanism::Interactive), UserPresence::Interactive);
    assert_eq!(UserPresence::from(UserPresenceMechanism::Signal), UserPresence::Signal);
    assert_eq!(UserPresenceMechanism::default(), UserPresenceMechanism::AcceptAll);
}

#[test]
fn serial_is_big_endian() {
    let s: u128 = 0x000102030405060708090a0b0c0d0e0f;
    assert_eq!(serial_bytes(s), s.to_be_bytes());
    assert_eq!(Runner::new(Some(s)).unwrap().uuid(), [0, 1, 2, 3, 4, 5, 6, 7, 8, 9, 10, 11, 12, 13, 14, 15]);
    assert_eq!(serial_bytes(1)[15], 1);
    assert_eq!(serial_bytes(u128::MAX), [0xff; 16]);
}

#[test]
fn missing_serial_uses_fallback() {
    let random = [7u8; 16];
    assert_eq!(Runner::with_fallback(None, random).uuid(), random);
    assert_eq!(Runner::with_fallback(Some(0x20a0), random).uuid()[14], 0x20);
    let a = Runner::new(None).unwrap().uuid();
    let b = Runner::new(None).unwrap().uuid();
    assert_eq!(a.len(), 16);
    assert_ne!(a, b);
}

#[test]
fn status_report_is_append_only_log() {
    let mut s = StatusReport::new();
    s.record(Diagnostic::NfcAbsent);
    s.record(Diagnostic::InternalMountFail);
    s.record(Diagnostic::NfcAbsent);
    assert_eq!(s.len(), 3);
    assert_eq!(s.get(1), Diagnostic::InternalMountFail);
    assert_eq!(s.count(Diagnostic::NfcAbsent), 2);
    assert_eq!(s.count(Diagnostic::InternalMountFail), 1);
}
