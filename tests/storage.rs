use solo2_runtime::board::{ExternalRegion, StorageError, Store, SOLO2};
use solo2_runtime::status::{Diagnostic, StatusReport};
use solo2_runtime::storage::{MountError, Record, RecoverError, Region, WriteError};

#[test]
fn format_then_mount_succeeds() {
    let mut r = Region::erased(8, false);
    assert_eq!(r.mount(), Err(MountError::Corrupt));
    r.format();
    assert_eq!(r.mount(), Ok(()));
    assert_eq!(r.read(3), None);
    assert_eq!(r.journal_block_count(), 8);
    assert!(!r.encrypted());
}

#[test]
fn format_after_use_is_empty_again() {
    let mut r = Region::erased(8, false);
    r.format();
    r.write(Record { key: 5, value: 6 }).unwrap();
    r.format();
    assert_eq!(r.mount(), Ok(()));
    assert_eq!(r.read(5), None);
}

#[test]
fn latest_record_wins() {
    let mut r = Region::erased(2, true);
    r.format();
    r.write(Record { key: 1, value: 1 }).unwrap();
    r.write(Record { key: 2, value: 2 }).unwrap();
    r.write(Record { key: 1, value: 3 }).unwrap();
    assert_eq!(r.read(1), Some(3));
    assert_eq!(r.read(2), Some(2));
    assert_eq!(r.read(7), None);
}

#[test]
fn interruption_at_each_write_boundary_recovers_last_commit() {
    let records: Vec<Record> = (0..5u64).map(|i| Record { key: i % 3, value: 100 + i }).collect();
    for cut in 0..=records.len() {
        let mut r = Region::erased(4, true);
        r.format();
        for rec in &records[..cut] {
            r.write(*rec).unwrap();
        }
        let expected: Vec<Option<u64>> = (0..3).map(|k| r.read(k)).collect();
        for rec in &records[cut..] {
            r.begin(*rec);
        }
        if cut < records.len() {
            assert_eq!(r.mount(), Err(MountError::Corrupt));
        }
        assert_eq!(r.recover_from_journal(), Ok(()));
        assert_eq!(r.mount(), Ok(()));
        let got: Vec<Option<u64>> = (0..3).map(|k| r.read(k)).collect();
        assert_eq!(got, expected);
    }
}

#[test]
fn commit_makes_journaled_records_durable() {
    let mut r = Region::erased(4, true);
    r.format();
    r.begin(Record { key: 4, value: 40 });
    r.begin(Record { key: 5, value: 50 });
    assert_eq!(r.read(4), None);
    r.commit();
    assert_eq!(r.mount(), Ok(()));
    assert_eq!(r.read(4), Some(40));
    assert_eq!(r.read(5), Some(50));
}

#[test]
fn write_on_inconsistent_region_is_refused() {
    let mut r = Region::erased(4, true);
    assert_eq!(r.write(Record { key: 1, value: 1 }), Err(WriteError::NotMounted));
    assert_eq!(r.read(1), None);
}

#[test]
fn recover_without_journal_fails() {
    let mut r = Region::erased(4, true);
    assert_eq!(r.recover_from_journal(), Err(RecoverError::NoJournal));
    assert_eq!(r.recoveries(), 1);
    assert_eq!(r.mount(), Err(MountError::Corrupt));
}

#[test]
fn prepare_hook_reserves_journal() {
    let mut r = Region::erased(4, true);
    SOLO2::prepare_ifs(&mut r);
    let mut efs = ExternalRegion::Absent;
    assert_eq!(SOLO2::recover_ifs(&mut r, &mut efs), Ok(()));
    assert_eq!(r.mount(), Ok(()));
    assert_eq!(SOLO2::BOARD_NAME, "solo2");
    assert!(SOLO2::HAS_NFC);
}

#[test]
fn absent_external_region_is_always_empty_and_accepting() {
    let mut efs = ExternalRegion::Absent;
    for k in 0..4u64 {
        assert_eq!(efs.write(Record { key: k, value: k + 1 }), Ok(()));
        assert_eq!(efs.read(k), None);
    }
}

#[test]
fn present_external_region_persists() {
    let mut g = Region::erased(2, false);
    g.format();
    let mut efs = ExternalRegion::Present(g);
    assert_eq!(efs.write(Record { key: 9, value: 90 }), Ok(()));
    assert_eq!(efs.read(9), Some(90));
}

#[test]
fn boot_mount_on_unrecoverable_region_records_both_diagnostics() {
    let mut store = Store { ifs: Region::erased(4, true), efs: ExternalRegion::Absent };
    let mut status = StatusReport::new();
    assert_eq!(store.mount_internal(&mut status), Err(StorageError::UnrecoverableCorruption));
    assert_eq!(status.len(), 1);
    assert_eq!(status.get(0), Diagnostic::InternalMountFail);
    assert_eq!(store.ifs.recoveries(), 1);
}

#[test]
fn recovering_a_clean_store_changes_nothing() {
    let mut r = Region::erased(4, true);
    r.format();
    r.write(Record { key: 2, value: 20 }).unwrap();
    let mut efs = ExternalRegion::Absent;
    assert_eq!(SOLO2::recover_ifs(&mut r, &mut efs), Ok(()));
    assert_eq!(r.mount(), Ok(()));
    assert_eq!(r.read(2), Some(20));
}

#[test]
fn commit_without_journal_does_nothing() {
    let mut r = Region::erased(4, true);
    r.begin(Record { key: 1, value: 1 });
    r.commit();
    assert_eq!(r.mount(), Err(MountError::Corrupt));
    assert_eq!(r.read(1), None);
}
