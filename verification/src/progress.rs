//! Per-item download progress, kept as an exact fraction of two byte counts.

use std::collections::HashMap;
use vstd::prelude::*;
use vstd::std_specs::hash::*;

verus! {

broadcast use vstd::std_specs::hash::group_hash_axioms;

/// Completion of one download as the fraction `received / total`.
///
/// A value always satisfies `0 < total` and `received <= total`, so the
/// fraction lies between zero and one.
#[derive(Clone, Copy, Debug, PartialEq, Eq, Structural)]
pub struct Progress {
    received: u64,
    total: u64,
}

impl Progress {
    /// The fraction is well formed: a positive denominator that bounds the numerator.
    pub open spec fn wf(self) -> bool {
        0 < self.spec_total() && self.spec_received() <= self.spec_total()
    }

    #[verifier::type_invariant]
    closed spec fn inv(self) -> bool {
        0 < self.total && self.received <= self.total
    }

    /// The numerator of the fraction.
    pub closed spec fn spec_received(self) -> u64 {
        self.received
    }

    /// The denominator of the fraction.
    pub closed spec fn spec_total(self) -> u64 {
        self.total
    }

    /// The fraction equals one.
    pub open spec fn is_complete(self) -> bool {
        self.spec_received() == self.spec_total()
    }

    /// The fraction equals zero.
    pub open spec fn is_zero(self) -> bool {
        self.spec_received() == 0
    }

    /// The fraction that `after_chunk` reports for the given byte counts.
    pub open spec fn of_counts(downloaded: u64, total_size: u64) -> (u64, u64) {
        if downloaded < total_size {
            (downloaded, total_size)
        } else {
            (1u64, 1u64)
        }
    }

    /// The fraction zero, as `0 / 1`.
    pub closed spec fn spec_zero() -> Progress {
        Progress { received: 0, total: 1 }
    }

    /// The fraction one, as `1 / 1`.
    pub closed spec fn spec_complete() -> Progress {
        Progress { received: 1, total: 1 }
    }

    /// The progress after `downloaded` bytes of a body announced as
    /// `total_size` bytes: `downloaded / total_size` while fewer bytes than
    /// announced have arrived, else one.
    pub closed spec fn spec_after(downloaded: u64, total_size: u64) -> Progress {
        if downloaded < total_size {
            Progress { received: downloaded, total: total_size }
        } else {
            Progress { received: 1, total: 1 }
        }
    }

    /// The zero fraction is well formed, zero and not complete.
    pub proof fn lemma_zero()
        ensures
            Progress::spec_zero().wf(),
            Progress::spec_zero().is_zero(),
            !Progress::spec_zero().is_complete(),
    {
    }

    /// The fraction one is well formed and complete, and so is the progress
    /// after every byte announced.
    pub proof fn lemma_complete()
        ensures
            Progress::spec_complete().wf(),
            Progress::spec_complete().is_complete(),
            forall|downloaded: u64, total_size: u64|
                downloaded >= total_size ==> #[trigger] Progress::spec_after(downloaded, total_size)
                    == Progress::spec_complete(),
    {
    }

    /// The progress after some bytes is the fraction of the two counts.
    pub proof fn lemma_after(downloaded: u64, total_size: u64)
        ensures
            Progress::spec_after(downloaded, total_size).wf(),
            (
                Progress::spec_after(downloaded, total_size).spec_received(),
                Progress::spec_after(downloaded, total_size).spec_total(),
            ) == Progress::of_counts(downloaded, total_size),
            Progress::spec_after(downloaded, total_size).is_complete() <==> downloaded
                >= total_size,
    {
    }

    /// Nothing received yet.
    pub fn zero() -> (p: Progress)
        ensures
            p == Self::spec_zero(),
            p.wf(),
            p.is_zero(),
            !p.is_complete(),
            p.spec_received() == 0 && p.spec_total() == 1,
    {
        Progress { received: 0, total: 1 }
    }

    /// Everything received.
    pub fn complete() -> (p: Progress)
        ensures
            p == Self::spec_complete(),
            p.wf(),
            p.is_complete(),
            p.spec_received() == 1 && p.spec_total() == 1,
    {
        Progress { received: 1, total: 1 }
    }

    /// Progress after `downloaded` bytes of a body announced as `total_size` bytes.
    ///
    /// While fewer bytes than announced have arrived the fraction is
    /// `downloaded / total_size`; once the announced size is reached, or when
    /// no size was announced (`total_size == 0`), the fraction is one.
    pub fn after_chunk(downloaded: u64, total_size: u64) -> (p: Progress)
        ensures
            p == Self::spec_after(downloaded, total_size),
            p.wf(),
            (p.spec_received(), p.spec_total()) == Self::of_counts(downloaded, total_size),
            p.is_complete() <==> downloaded >= total_size,
    {
        if downloaded < total_size {
            Progress { received: downloaded, total: total_size }
        } else {
            Progress { received: 1, total: 1 }
        }
    }

    /// The numerator of the fraction.
    pub fn received(&self) -> (r: u64)
        ensures
            r == self.spec_received(),
    {
        self.received
    }

    /// The denominator of the fraction, which is never zero.
    pub fn total(&self) -> (r: u64)
        ensures
            r == self.spec_total(),
            r > 0,
    {
        proof {
            use_type_invariant(self);
        }
        self.total
    }

    /// Tells whether the fraction equals one.
    pub fn finished(&self) -> (r: bool)
        ensures
            r == self.is_complete(),
    {
        self.received == self.total
    }
}

/// The progress store: one entry per item of the current batch.
///
/// The set of keys is fixed when the store is reset for a batch; recording
/// progress never adds or removes a key. An entry that has reached one is
/// never changed again.
pub struct ProgressStore {
    entries: HashMap<u32, Progress>,
}

impl View for ProgressStore {
    type V = Map<u32, Progress>;

    closed spec fn view(&self) -> Map<u32, Progress> {
        self.entries@
    }
}

impl ProgressStore {
    /// Every entry is a well-formed fraction.
    pub open spec fn wf(&self) -> bool {
        forall|id: u32| self@.contains_key(id) ==> (#[trigger] self@[id]).wf()
    }

    /// Every entry is zero.
    pub open spec fn all_zero(&self) -> bool {
        forall|id: u32| self@.contains_key(id) ==> #[trigger] self@[id] == Progress::spec_zero()
    }

    /// The store after progress `p` was recorded for `id`: unchanged where
    /// `id` has no entry or its entry is complete.
    pub open spec fn recorded(store: Map<u32, Progress>, id: u32, p: Progress) -> Map<
        u32,
        Progress,
    > {
        if store.contains_key(id) && !store[id].is_complete() {
            store.insert(id, p)
        } else {
            store
        }
    }

    /// A store without entries.
    pub fn new() -> (store: ProgressStore)
        ensures
            store@ == Map::<u32, Progress>::empty(),
            store.wf(),
    {
        ProgressStore { entries: HashMap::new() }
    }

    /// Drops every entry and sets up a zero entry for each of `items`.
    pub fn reset(&mut self, items: &Vec<u32>)
        ensures
            final(self)@.dom() == items@.to_set(),
            final(self).all_zero(),
            final(self).wf(),
    {
        self.entries = HashMap::new();
        let mut i: usize = 0;
        while i < items.len()
            invariant
                i <= items@.len(),
                self@.dom() == items@.subrange(0, i as int).to_set(),
                self.all_zero(),
                self.wf(),
            decreases items@.len() - i,
        {
            let ghost before = items@.subrange(0, i as int);
            self.entries.insert(items[i], Progress::zero());
            proof {
                let after = items@.subrange(0, i + 1);
                assert(after =~= before.push(items@[i as int]));
                assert forall|id: u32| after.to_set().contains(id) <==> before.to_set().contains(id)
                    || id == items@[i as int] by {
                    if after.to_set().contains(id) {
                        let k = choose|k: int| 0 <= k < after.len() && after[k] == id;
                        if k < i {
                            assert(before[k] == id);
                        }
                    }
                    if before.to_set().contains(id) {
                        let k = choose|k: int| 0 <= k < before.len() && before[k] == id;
                        assert(after[k] == id);
                    }
                    if id == items@[i as int] {
                        assert(after[i as int] == id);
                    }
                }
                assert(self@.dom() =~= after.to_set());
            }
            i = i + 1;
        }
        assert(items@.subrange(0, i as int) =~= items@);
    }

    /// Drops every entry.
    pub fn clear(&mut self)
        ensures
            final(self)@ == Map::<u32, Progress>::empty(),
            final(self).wf(),
    {
        self.entries = HashMap::new();
    }

    /// The progress of `id`, if it has an entry.
    pub fn get(&self, id: u32) -> (p: Option<Progress>)
        ensures
            p == (if self@.contains_key(id) {
                Some(self@[id])
            } else {
                None
            }),
    {
        match self.entries.get(&id) {
            Some(p) => Some(*p),
            None => None,
        }
    }

    /// Number of entries.
    pub fn len(&self) -> (n: usize)
        ensures
            n == self@.len(),
    {
        self.entries.len()
    }

    /// Records progress `p` for `id` and tells whether the entry changed
    /// hands: nothing is recorded for an item without an entry, nor for one
    /// whose entry is complete.
    pub fn record(&mut self, id: u32, p: Progress) -> (written: bool)
        requires
            old(self).wf(),
        ensures
            final(self).wf(),
            final(self)@ == Self::recorded(old(self)@, id, p),
            final(self)@.dom() == old(self)@.dom(),
            written == (old(self)@.contains_key(id) && !old(self)@[id].is_complete()),
    {
        proof {
            use_type_invariant(&p);
        }
        let current = self.get(id);
        match current {
            Some(at) => {
                if at.finished() {
                    false
                } else {
                    self.entries.insert(id, p);
                    assert(self@.dom() =~= old(self)@.dom());
                    true
                }
            },
            None => false,
        }
    }
}

/// The byte counts of one running download.
#[derive(Debug, Clone, Copy, PartialEq, Eq, Structural)]
pub struct Transfer {
    downloaded: u64,
    total_size: u64,
}

impl Transfer {
    /// Bytes received so far (at most `u64::MAX` are counted).
    pub closed spec fn downloaded(self) -> u64 {
        self.downloaded
    }

    /// The announced size of the body, zero where none was announced.
    pub closed spec fn total_size(self) -> u64 {
        self.total_size
    }

    /// `a + b`, or `u64::MAX` where the sum is above it.
    pub open spec fn capped_sum(a: u64, b: nat) -> u64 {
        if a + b > u64::MAX {
            u64::MAX
        } else {
            (a + b) as u64
        }
    }

    /// A download that has received nothing yet. `content_length` is the
    /// announced size of the body, if any was announced.
    pub fn new(content_length: Option<u64>) -> (transfer: Transfer)
        ensures
            transfer.downloaded() == 0,
            transfer.total_size() == (match content_length {
                Some(n) => n,
                None => 0u64,
            }),
    {
        let total_size = match content_length {
            Some(n) => n,
            None => 0,
        };
        Transfer { downloaded: 0, total_size }
    }

    /// Bytes received so far.
    pub fn downloaded_bytes(&self) -> (n: u64)
        ensures
            n == self.downloaded(),
    {
        self.downloaded
    }

    /// The announced size of the body, zero where none was announced.
    pub fn total_bytes(&self) -> (n: u64)
        ensures
            n == self.total_size(),
    {
        self.total_size
    }

    /// Counts a chunk of `len` bytes and gives the progress to report.
    pub fn on_chunk(&mut self, len: usize) -> (p: Progress)
        ensures
            final(self).total_size() == old(self).total_size(),
            final(self).downloaded() == Self::capped_sum(old(self).downloaded(), len as nat),
            p == Progress::spec_after(final(self).downloaded(), final(self).total_size()),
            p.wf(),
            (p.spec_received(), p.spec_total()) == Progress::of_counts(
                final(self).downloaded(),
                final(self).total_size(),
            ),
    {
        let len64 = len as u64;
        self.downloaded = match self.downloaded.checked_add(len64) {
            Some(sum) => sum,
            None => u64::MAX,
        };
        Progress::after_chunk(self.downloaded, self.total_size)
    }
}

} // verus!
