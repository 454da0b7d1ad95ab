use solo2_runtime::board::{ExternalRegion, StorageError, Store};
use solo2_runtime::bringup::{init, start, BringupError, Peripheral, Peripherals, Unconfigured};
use solo2_runtime::sched::{pin_int0, refresh, Cpu, Shared, Tick};
use solo2_runtime::status::Diagnostic;
use solo2_runtime::storage::{Record, Region};
use solo2_runtime::transport::Apps;

fn formatted_store() -> Store {
    let mut ifs = Region::erased(4, true);
    ifs.format();
    Store { ifs, efs: ExternalRegion::Absent }
}

#[test]
fn healthy_bringup_yields_device() {
    let all = init(Peripherals::healthy(), formatted_store(), true, true).ok().unwrap();
    assert!(all.nfc.is_some());
    assert!(all.usb_classes.is_some());
    assert_eq!(all.status.len(), 0);
    assert_eq!(all.peripherals.len(), 16);
    assert_eq!(all.peripherals[0].peripheral(), Peripheral::Syscon);
    assert_eq!(all.peripherals[5].peripheral(), Peripheral::Ctimer0);
    assert_eq!(all.peripherals[10].peripheral(), Peripheral::Pint);
    assert_eq!(all.peripherals[15].peripheral(), Peripheral::Usbhs);
    assert_eq!(all.rgb.peripheral(), Peripheral::Ctimer3);
    assert_eq!(all.buttons.peripheral(), Peripheral::Ctimer1);
    assert_eq!(all.clock_controller.peripheral(), Peripheral::Adc);
    assert!(all.prince_active);
    assert!(all.store.ifs.encrypted());
}

#[test]
fn unencrypted_build_leaves_prince_inactive() {
    let all = init(Peripherals::healthy(), formatted_store(), false, true).ok().unwrap();
    assert!(!all.prince_active);
}

#[test]
fn faulty_power_controller_aborts_bringup() {
    let mut hal = Peripherals::healthy();
    hal.pmc = Unconfigured::new(Peripheral::Pmc, true);
    let r = init(hal, formatted_store(), true, true);
    assert_eq!(r.err(), Some(BringupError::Hardware(Peripheral::Pmc)));
}

#[test]
fn first_of_two_faults_is_reported() {
    let mut hal = Peripherals::healthy();
    hal.ctimer2 = Unconfigured::new(Peripheral::Ctimer2, true);
    hal.usbhs = Unconfigured::new(Peripheral::Usbhs, true);
    let r = init(hal, formatted_store(), true, true);
    assert_eq!(r.err(), Some(BringupError::Hardware(Peripheral::Ctimer2)));
}

#[test]
fn faulty_usb_controller_aborts_bringup() {
    let mut hal = Peripherals::healthy();
    hal.usbhs = Unconfigured::new(Peripheral::Usbhs, true);
    let r = init(hal, formatted_store(), true, true);
    assert_eq!(r.err(), Some(BringupError::Hardware(Peripheral::Usbhs)));
}

#[test]
fn faulty_input_mux_aborts_bringup() {
    let mut hal = Peripherals::healthy();
    hal.inputmux = Unconfigured::new(Peripheral::InputMux, true);
    let r = init(hal, formatted_store(), true, false);
    assert_eq!(r.err(), Some(BringupError::Hardware(Peripheral::InputMux)));
}

#[test]
fn unused_flexcomm_fault_is_never_seen() {
    let mut hal = Peripherals::healthy();
    hal.flexcomm5 = Unconfigured::new(Peripheral::Flexcomm5, true);
    assert!(init(hal, formatted_store(), true, true).is_ok());
}

#[test]
fn board_without_nfc_chip_boots_without_transceiver() {
    let all = init(Peripherals::healthy(), formatted_store(), true, false).ok().unwrap();
    assert!(all.nfc.is_none());
    assert_eq!(all.status.len(), 1);
    assert_eq!(all.status.get(0), Diagnostic::NfcAbsent);
    assert_eq!(all.status.count(Diagnostic::NfcAbsent), 1);
    let mut shared = Shared { apps: Apps::new(), usb: all.usb_classes, nfc: all.nfc };
    let mut cpu = Cpu { mask: 1 };
    pin_int0(&mut shared);
    assert_eq!(refresh(&mut shared, &mut cpu, 0, true), Tick::Scheduled(50));
    assert!(shared.nfc.is_none());
    assert_eq!(shared.apps.nfc.take_requests().len(), 0);
}

#[test]
fn nfc_disabled_build_records_nothing() {
    let hal = Peripherals::healthy();
    let s0 = start(hal.syscon, hal.pmc, hal.anactrl).ok().unwrap();
    let s1 = s0.next(hal.iocon, hal.gpio).ok().unwrap();
    let s2 = s1
        .next(hal.adc, hal.ctimer0, hal.ctimer1, hal.ctimer2, hal.ctimer3, hal.ctimer4, hal.pfr, None, true, true)
        .ok()
        .unwrap();
    let s3 = s2.next(hal.flexcomm0, hal.flexcomm5, hal.inputmux, hal.pint, false, true).ok().unwrap();
    let s4 = s3.next(hal.rng, hal.prince, hal.flash).ok().unwrap();
    let s6 = s4.next().next(hal.rtc, formatted_store()).ok().unwrap();
    let all = s6.next(hal.usbhs).ok().unwrap();
    assert!(all.nfc.is_none());
    assert_eq!(all.status.len(), 0);
    assert_eq!(all.peripherals.len(), 14);
    assert_eq!(all.rgb.peripheral(), Peripheral::Ctimer3);
}

#[test]
fn corrupted_internal_filesystem_is_recovered_at_boot() {
    let mut ifs = Region::erased(4, true);
    ifs.format();
    assert!(ifs.write(Record { key: 1, value: 10 }).is_ok());
    ifs.begin(Record { key: 1, value: 99 });
    assert!(ifs.mount().is_err());
    let store = Store { ifs, efs: ExternalRegion::Absent };
    let all = init(Peripherals::healthy(), store, true, true).ok().unwrap();
    assert_eq!(all.store.ifs.recoveries(), 1);
    assert_eq!(all.status.len(), 1);
    assert_eq!(all.status.get(0), Diagnostic::InternalMountFail);
    assert!(all.store.ifs.mount().is_ok());
    assert_eq!(all.store.ifs.read(1), Some(10));
}

#[test]
fn intact_internal_filesystem_is_not_recovered() {
    let all = init(Peripherals::healthy(), formatted_store(), true, true).ok().unwrap();
    assert_eq!(all.store.ifs.recoveries(), 0);
    assert_eq!(all.status.count(Diagnostic::InternalMountFail), 0);
}

#[test]
fn unrecoverable_internal_filesystem_halts_bringup() {
    let store = Store { ifs: Region::erased(4, true), efs: ExternalRegion::Absent };
    let r = init(Peripherals::healthy(), store, true, true);
    assert_eq!(r.err(), Some(BringupError::Storage(StorageError::UnrecoverableCorruption)));
}

#[test]
fn faulty_clock_wins_over_bad_storage() {
    let mut hal = Peripherals::healthy();
    hal.rtc = Unconfigured::new(Peripheral::Rtc, true);
    let store = Store { ifs: Region::erased(4, true), efs: ExternalRegion::Absent };
    let r = init(hal, store, true, true);
    assert_eq!(r.err(), Some(BringupError::Hardware(Peripheral::Rtc)));
}

#[test]
fn bad_storage_is_reported_before_usb_fault() {
    let mut hal = Peripherals::healthy();
    hal.usbhs = Unconfigured::new(Peripheral::Usbhs, true);
    let store = Store { ifs: Region::erased(4, true), efs: ExternalRegion::Absent };
    let r = init(hal, store, true, true);
    assert_eq!(r.err(), Some(BringupError::Storage(StorageError::UnrecoverableCorruption)));
}
