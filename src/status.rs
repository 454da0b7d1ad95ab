//! Append-only diagnostic log written during bring-up.
use vstd::prelude::*;

verus! {

/// One diagnostic entry.
#[derive(Clone, Copy, Debug, PartialEq, Eq, Structural)]
pub enum Diagnostic {
    /// An optional NFC front-end did not answer the bus probe.
    NfcAbsent,
    /// The internal filesystem failed to mount at boot.
    InternalMountFail,
}

/// Bring-up status: the diagnostics recorded so far, oldest first.
pub struct StatusReport {
    entries: Vec<Diagnostic>,
}

impl View for StatusReport {
    type V = Seq<Diagnostic>;

    closed spec fn view(&self) -> Seq<Diagnostic> {
        self.entries@
    }
}

impl StatusReport {
    pub fn new() -> (r: StatusReport)
        ensures
            r@ == Seq::<Diagnostic>::empty(),
    {
        StatusReport { entries: Vec::new() }
    }

    /// Appends one entry; earlier entries are never changed.
    pub fn record(&mut self, d: Diagnostic)
        ensures
            final(self)@ == old(self)@.push(d),
    {
        self.entries.push(d);
    }

    pub fn len(&self) -> (r: usize)
        ensures
            r == self@.len(),
    {
        self.entries.len()
    }

    pub fn get(&self, i: usize) -> (r: Diagnostic)
        requires
            i < self@.len(),
        ensures
            r == self@[i as int],
    {
        self.entries[i]
    }

    /// Number of entries equal to `d`.
    pub fn count(&self, d: Diagnostic) -> (r: usize)
        ensures
            r == self@.filter(|e: Diagnostic| e == d).len(),
    {
        let mut n: usize = 0;
        let mut i: usize = 0;
        while i < self.entries.len()
            invariant
                i <= self@.len(),
                n == self@.take(i as int).filter(|e: Diagnostic| e == d).len(),
                n <= i,
            decreases self@.len() - i,
        {
            proof {
                reveal(Seq::filter);
                assert(self@.take(i as int + 1).drop_last() =~= self@.take(i as int));
            }
            if self.entries[i] == d {
                n = n + 1;
            }
            i = i + 1;
        }
        proof {
            assert(self@.take(i as int) =~= self@);
        }
        n
    }
}

} // verus!
