//! The board: its capabilities, its storage hooks, and the storage it boots
//! with.
use vstd::prelude::*;
use crate::status::{Diagnostic, StatusReport};
use crate::storage::{MountError, Record, RecoverError, Region, RegionModel, WriteError};

verus! {

/// A secondary flash region that some board variants do not populate.
pub enum ExternalRegion {
    Present(Region),
    /// No chip: reads find nothing, writes succeed and persist nothing.
    Absent,
}

impl ExternalRegion {
    pub open spec fn model(&self) -> Option<RegionModel> {
        match self {
            ExternalRegion::Present(g) => Some(g@),
            ExternalRegion::Absent => None,
        }
    }

    /// A present region is well formed.
    pub open spec fn wf(&self) -> bool {
        self.model() matches Some(m) ==> m.wf()
    }

    pub open spec fn spec_read(&self, key: u64) -> Option<u64> {
        match self.model() {
            Some(m) => m.read(key),
            None => None,
        }
    }

    /// The region's state after writing `r`, and the write's result.
    pub open spec fn spec_write(&self, r: Record) -> (Option<RegionModel>, Result<(), WriteError>) {
        match self.model() {
            Some(m) => (Some(m.write(r).0), m.write(r).1),
            None => (None, Ok(())),
        }
    }

    pub fn read(&self, key: u64) -> (r: Option<u64>)
        ensures
            r == self.spec_read(key),
    {
        match self {
            ExternalRegion::Present(g) => g.read(key),
            ExternalRegion::Absent => None,
        }
    }

    pub fn write(&mut self, r: Record) -> (res: Result<(), WriteError>)
        requires
            old(self).wf(),
        ensures
            final(self).wf(),
            (final(self).model(), res) == old(self).spec_write(r),
    {
        match self {
            ExternalRegion::Present(g) => g.write(r),
            ExternalRegion::Absent => Ok(()),
        }
    }
}

/// An absent external region reports every key as not found, and every
/// write to it succeeds and leaves it absent, so nothing is persisted.
pub proof fn lemma_absent_external_region(key: u64, r: Record)
    ensures
        ExternalRegion::Absent.spec_read(key) is None,
        ExternalRegion::Absent.spec_write(r) == (None::<RegionModel>, Ok::<(), WriteError>(())),
{
}

/// Boot stopped because the internal filesystem cannot be trusted.
#[derive(Clone, Copy, Debug, PartialEq, Eq, Structural)]
pub enum StorageError {
    UnrecoverableCorruption,
}

/// The solo2 board.
pub struct SOLO2;

impl SOLO2 {
    pub const BOARD_NAME: &'static str = "solo2";

    pub const HAS_NFC: bool = true;

    /// Hook run when the internal filesystem is formatted: reserves the
    /// journal block range.
    pub fn prepare_ifs(ifs: &mut Region)
        ensures
            final(ifs)@ == (RegionModel {
                journal_reserved: true,
                pending: Seq::empty(),
                ..old(ifs)@
            }),
            final(ifs).journal_blocks() == old(ifs).journal_blocks(),
            final(ifs).is_encrypted() == old(ifs).is_encrypted(),
    {
        ifs.format_journal_blocks();
    }

    /// Hook run once when the internal filesystem fails to mount: replays
    /// its journal. The external region is left alone.
    pub fn recover_ifs(ifs: &mut Region, efs: &mut ExternalRegion) -> (res: Result<
        (),
        RecoverError,
    >)
        requires
            old(ifs)@.wf(),
        ensures
            (final(ifs)@, res) == old(ifs)@.recover(),
            final(ifs)@.wf(),
            old(ifs)@.consistent ==> res is Ok && final(ifs)@.committed == old(ifs)@.committed,
            final(ifs).journal_blocks() == old(ifs).journal_blocks(),
            final(ifs).is_encrypted() == old(ifs).is_encrypted(),
            final(efs).model() == old(efs).model(),
    {
        ifs.recover_from_journal()
    }
}

/// The storage a device boots with.
pub struct Store {
    pub ifs: Region,
    pub efs: ExternalRegion,
}

/// Outcome of the boot-time mount of the internal region, as a function of
/// its state: the new state, the diagnostics appended, and the result.
pub open spec fn boot_mount(m: RegionModel) -> (RegionModel, Seq<Diagnostic>, Result<(), StorageError>) {
    if m.mount() is Ok {
        (m, Seq::empty(), Ok(()))
    } else if m.recover().1 is Ok && m.recover().0.mount() is Ok {
        (m.recover().0, seq![Diagnostic::InternalMountFail], Ok(()))
    } else {
        (m.recover().0, seq![Diagnostic::InternalMountFail], Err(StorageError::UnrecoverableCorruption))
    }
}

impl Store {
    /// Mounts the internal region; on failure records the failure, recovers
    /// once and mounts again. A second failure is fatal: the error is the
    /// diagnostic, and boot goes no further.
    pub fn mount_internal(&mut self, status: &mut StatusReport) -> (res: Result<(), StorageError>)
        requires
            old(self).ifs@.wf(),
        ensures
            final(self).ifs@.wf(),
            final(self).ifs@ == boot_mount(old(self).ifs@).0,
            final(status)@ == old(status)@ + boot_mount(old(self).ifs@).1,
            res == boot_mount(old(self).ifs@).2,
            final(self).efs.model() == old(self).efs.model(),
            final(self).ifs.journal_blocks() == old(self).ifs.journal_blocks(),
            final(self).ifs.is_encrypted() == old(self).ifs.is_encrypted(),
    {
        if self.ifs.mount().is_ok() {
            proof {
                assert(old(status)@ + Seq::<Diagnostic>::empty() =~= old(status)@);
            }
            return Ok(());
        }
        status.record(Diagnostic::InternalMountFail);
        let recovered = SOLO2::recover_ifs(&mut self.ifs, &mut self.efs);
        proof {
            assert(old(status)@ + seq![Diagnostic::InternalMountFail] =~= final(status)@);
        }
        if recovered.is_ok() && self.ifs.mount().is_ok() {
            Ok(())
        } else {
            Err(StorageError::UnrecoverableCorruption)
        }
    }
}

/// A corrupted internal filesystem whose journal is reserved is recovered at
/// boot: one failure is recorded, one replay is made, and the region mounts
/// with its last committed contents.
pub proof fn lemma_boot_recovers_corruption(m: RegionModel)
    requires
        m.journal_reserved,
        !m.consistent,
        m.recoveries < u64::MAX,
    ensures
        boot_mount(m).2 == Ok::<(), StorageError>(()),
        boot_mount(m).1 == seq![Diagnostic::InternalMountFail],
        boot_mount(m).0.mount() == Ok::<(), MountError>(()),
        boot_mount(m).0.recoveries == m.recoveries + 1,
        boot_mount(m).0.committed == m.committed,
{
}

} // verus!
