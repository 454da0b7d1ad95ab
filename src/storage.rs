//! Journaled flash regions: format, mount, recover, and the record store
//! kept on top of them.
use vstd::prelude::*;

verus! {

/// One stored record: the latest record with a key holds its value.
#[derive(Clone, Copy, Debug, PartialEq, Eq, Structural)]
pub struct Record {
    pub key: u64,
    pub value: u64,
}

/// The existing flash contents do not form a valid filesystem.
#[derive(Clone, Copy, Debug, PartialEq, Eq, Structural)]
pub enum MountError {
    Corrupt,
}

/// Journal replay could not produce a consistent filesystem.
#[derive(Clone, Copy, Debug, PartialEq, Eq, Structural)]
pub enum RecoverError {
    NoJournal,
}

/// A write was refused because the filesystem is not in a consistent state.
#[derive(Clone, Copy, Debug, PartialEq, Eq, Structural)]
pub enum WriteError {
    NotMounted,
}

/// Abstract state of one flash region.
pub ghost struct RegionModel {
    /// The journal block range has been reserved by a format.
    pub journal_reserved: bool,
    /// The filesystem metadata is consistent (no transaction in flight).
    pub consistent: bool,
    /// Records of every fully committed transaction, oldest first.
    pub committed: Seq<Record>,
    /// Records journaled by a transaction whose commit marker is not written.
    pub pending: Seq<Record>,
    /// Number of journal replays performed (saturating).
    pub recoveries: nat,
}

/// Value of `key` in a record sequence: the latest record with that key.
pub open spec fn lookup(s: Seq<Record>, key: u64) -> Option<u64>
    decreases s.len(),
{
    if s.len() == 0 {
        None
    } else if s.last().key == key {
        Some(s.last().value)
    } else {
        lookup(s.drop_last(), key)
    }
}

pub open spec fn sat_inc(n: nat) -> nat {
    if n < u64::MAX {
        n + 1
    } else {
        n
    }
}

impl RegionModel {
    /// A consistent filesystem always has its journal range reserved.
    pub open spec fn wf(self) -> bool {
        self.consistent ==> self.journal_reserved
    }

    /// Lays out an empty filesystem and reserves the journal range.
    pub open spec fn format(self) -> RegionModel {
        RegionModel {
            journal_reserved: true,
            consistent: true,
            committed: Seq::empty(),
            pending: Seq::empty(),
            ..self
        }
    }

    pub open spec fn mount(self) -> Result<(), MountError> {
        if self.consistent {
            Ok(())
        } else {
            Err(MountError::Corrupt)
        }
    }

    /// Journals a record: the transaction is in flight until committed.
    pub open spec fn begin(self, r: Record) -> RegionModel {
        RegionModel { consistent: false, pending: self.pending.push(r), ..self }
    }

    /// Writes the commit marker: every journaled record becomes committed.
    /// Without a journal range there is nothing to commit from.
    pub open spec fn commit(self) -> RegionModel {
        if self.journal_reserved {
            RegionModel {
                consistent: true,
                committed: self.committed + self.pending,
                pending: Seq::empty(),
                ..self
            }
        } else {
            self
        }
    }

    /// Replays the journal: uncommitted records are discarded.
    pub open spec fn recover(self) -> (RegionModel, Result<(), RecoverError>) {
        let counted = RegionModel { recoveries: sat_inc(self.recoveries), ..self };
        if self.journal_reserved {
            (RegionModel { consistent: true, pending: Seq::empty(), ..counted }, Ok(()))
        } else {
            (counted, Err(RecoverError::NoJournal))
        }
    }

    pub open spec fn write(self, r: Record) -> (RegionModel, Result<(), WriteError>) {
        if self.consistent {
            (self.begin(r).commit(), Ok(()))
        } else {
            (self, Err(WriteError::NotMounted))
        }
    }

    pub open spec fn read(self, key: u64) -> Option<u64> {
        lookup(self.committed, key)
    }

    /// Applies a sequence of journaled writes none of which was committed.
    pub open spec fn begin_all(self, rs: Seq<Record>) -> RegionModel
        decreases rs.len(),
    {
        if rs.len() == 0 {
            self
        } else {
            self.begin_all(rs.drop_last()).begin(rs.last())
        }
    }
}

/// Formatting a region always leaves a filesystem that mounts.
pub proof fn lemma_format_then_mount(m: RegionModel)
    ensures
        m.format().mount() == Ok::<(), MountError>(()),
        m.format().committed == Seq::<Record>::empty(),
{
}

/// However many journaled writes are interrupted before their commit marker,
/// replaying the journal of a formatted region succeeds and the next mount
/// sees exactly the last committed state.
pub proof fn lemma_recover_restores_committed(m: RegionModel, rs: Seq<Record>)
    requires
        m.journal_reserved,
    ensures
        m.begin_all(rs).recover().1 == Ok::<(), RecoverError>(()),
        m.begin_all(rs).recover().0.mount() == Ok::<(), MountError>(()),
        m.begin_all(rs).recover().0.committed == m.committed,
        forall|k: u64| #[trigger] m.begin_all(rs).recover().0.read(k) == m.read(k),
    decreases rs.len(),
{
    if rs.len() > 0 {
        lemma_recover_restores_committed(m, rs.drop_last());
    }
}

/// A flash region holding a journaled record store.
pub struct Region {
    journal_blocks: u64,
    encrypted: bool,
    journal_reserved: bool,
    consistent: bool,
    committed: Vec<Record>,
    pending: Vec<Record>,
    recoveries: u64,
}

impl View for Region {
    type V = RegionModel;

    closed spec fn view(&self) -> RegionModel {
        RegionModel {
            journal_reserved: self.journal_reserved,
            consistent: self.consistent,
            committed: self.committed@,
            pending: self.pending@,
            recoveries: self.recoveries as nat,
        }
    }
}

impl Region {
    /// Freshly erased flash: no filesystem and no journal.
    pub fn erased(journal_blocks: u64, encrypted: bool) -> (r: Region)
        ensures
            r@ == (RegionModel {
                journal_reserved: false,
                consistent: false,
                committed: Seq::empty(),
                pending: Seq::empty(),
                recoveries: 0,
            }),
            r.journal_blocks() == journal_blocks,
            r.is_encrypted() == encrypted,
            r@.wf(),
    {
        Region {
            journal_blocks,
            encrypted,
            journal_reserved: false,
            consistent: false,
            committed: Vec::new(),
            pending: Vec::new(),
            recoveries: 0,
        }
    }

    pub closed spec fn journal_blocks(&self) -> u64 {
        self.journal_blocks
    }

    pub closed spec fn is_encrypted(&self) -> bool {
        self.encrypted
    }

    /// Size of the journal block range, fixed by the board memory map.
    pub fn journal_block_count(&self) -> (r: u64)
        ensures
            r == self.journal_blocks(),
    {
        self.journal_blocks
    }

    /// Whether the region is encrypted by the flash encryption engine.
    pub fn encrypted(&self) -> (r: bool)
        ensures
            r == self.is_encrypted(),
    {
        self.encrypted
    }

    pub fn recoveries(&self) -> (r: u64)
        ensures
            r == self@.recoveries,
    {
        self.recoveries
    }

    /// Reserves the journal block range and clears it.
    pub fn format_journal_blocks(&mut self)
        ensures
            final(self)@ == (RegionModel {
                journal_reserved: true,
                pending: Seq::empty(),
                ..old(self)@
            }),
            final(self).journal_blocks() == old(self).journal_blocks(),
            final(self).is_encrypted() == old(self).is_encrypted(),
            final(self)@.wf(),
    {
        self.journal_reserved = true;
        self.pending = Vec::new();
    }

    /// Lays out an empty filesystem and reserves the journal range.
    pub fn format(&mut self)
        ensures
            final(self)@ == old(self)@.format(),
            final(self).journal_blocks() == old(self).journal_blocks(),
            final(self).is_encrypted() == old(self).is_encrypted(),
            final(self)@.wf(),
    {
        self.format_journal_blocks();
        self.committed = Vec::new();
        self.consistent = true;
    }

    pub fn mount(&self) -> (r: Result<(), MountError>)
        ensures
            r == self@.mount(),
    {
        if self.consistent {
            Ok(())
        } else {
            Err(MountError::Corrupt)
        }
    }

    /// Journals `r` without writing the commit marker.
    pub fn begin(&mut self, r: Record)
        ensures
            final(self)@ == old(self)@.begin(r),
            final(self).journal_blocks() == old(self).journal_blocks(),
            final(self).is_encrypted() == old(self).is_encrypted(),
            final(self)@.wf(),
    {
        self.pending.push(r);
        self.consistent = false;
    }

    /// Writes the commit marker for everything journaled.
    pub fn commit(&mut self)
        requires
            old(self)@.wf(),
        ensures
            final(self)@ == old(self)@.commit(),
            final(self).journal_blocks() == old(self).journal_blocks(),
            final(self).is_encrypted() == old(self).is_encrypted(),
            final(self)@.wf(),
    {
        if !self.journal_reserved {
            return;
        }
        let ghost before = self.committed@;
        let mut i: usize = 0;
        while i < self.pending.len()
            invariant
                i <= self.pending@.len(),
                self.committed@ == before + self.pending@.take(i as int),
                self.pending@ == old(self).pending@,
                self.journal_blocks == old(self).journal_blocks,
                self.encrypted == old(self).encrypted,
                self.journal_reserved == old(self).journal_reserved,
                self.recoveries == old(self).recoveries,
                self.journal_reserved,
            decreases self.pending@.len() - i,
        {
            let r = self.pending[i];
            self.committed.push(r);
            proof {
                assert(self.pending@.take(i as int + 1) =~= self.pending@.take(i as int).push(r));
            }
            i = i + 1;
        }
        proof {
            assert(self.pending@.take(i as int) =~= self.pending@);
        }
        self.pending = Vec::new();
        self.consistent = true;
    }

    /// One transaction: journal the record, then commit it.
    pub fn write(&mut self, r: Record) -> (res: Result<(), WriteError>)
        requires
            old(self)@.wf(),
        ensures
            (final(self)@, res) == old(self)@.write(r),
            final(self).journal_blocks() == old(self).journal_blocks(),
            final(self).is_encrypted() == old(self).is_encrypted(),
            final(self)@.wf(),
    {
        if self.consistent {
            self.begin(r);
            self.commit();
            Ok(())
        } else {
            Err(WriteError::NotMounted)
        }
    }

    /// Replays the journal range, discarding transactions without a commit
    /// marker.
    pub fn recover_from_journal(&mut self) -> (res: Result<(), RecoverError>)
        requires
            old(self)@.wf(),
        ensures
            (final(self)@, res) == old(self)@.recover(),
            final(self).journal_blocks() == old(self).journal_blocks(),
            final(self).is_encrypted() == old(self).is_encrypted(),
            final(self)@.wf(),
            old(self)@.consistent ==> res is Ok && final(self)@.committed == old(self)@.committed,
    {

        if self.recoveries < u64::MAX {
            self.recoveries = self.recoveries + 1;
        }
        if self.journal_reserved {
            self.pending = Vec::new();
            self.consistent = true;
            Ok(())
        } else {
            Err(RecoverError::NoJournal)
        }
    }

    /// Latest committed value of `key`.
    pub fn read(&self, key: u64) -> (r: Option<u64>)
        ensures
            r == self@.read(key),
    {
        let mut i: usize = self.committed.len();
        proof {
            assert(self.committed@.take(i as int) =~= self.committed@);
        }
        while i > 0
            invariant
                i <= self.committed@.len(),
                lookup(self.committed@, key) == lookup(self.committed@.take(i as int), key),
            decreases i,
        {
            let rec = self.committed[i - 1];
            proof {
                assert(self.committed@.take(i as int).drop_last() =~= self.committed@.take(i - 1));
            }
            if rec.key == key {
                return Some(rec.value);
            }
            i = i - 1;
        }
        proof {
            assert(self.committed@.take(0) =~= Seq::<Record>::empty());
        }
        None
    }
}

} // verus!
