//! The persisted single-record store behind the estimator: an opaque
//! interface with an atomic read and an atomic upsert of one
//! [`FeeRateEstimate`] record, implementable over any embedded transactional
//! storage engine.

use vstd::prelude::*;

use crate::FeeRateEstimate;

verus! {

/// A failure of the backing store, reported by the operation that hit it.
#[derive(Clone, Copy, Debug, PartialEq, Eq, Structural)]
pub enum StoreError {
    ReadFailed,
    WriteFailed,
}

/// A single-record store holding at most one persisted estimate.
///
/// `contents` is the store's model: the record as it is durable right now.
/// An upsert is all-or-nothing: it either replaces the whole record or
/// fails and leaves the previous record untouched — a failed write never
/// leaves mixed old/new tier values behind.
pub trait EstimateStore: Sized {
    /// The record the store currently holds, `None` before the first upsert.
    spec fn contents(&self) -> Option<FeeRateEstimate>;

    /// Read the record non-destructively.
    fn read_estimate(&self) -> (r: Result<Option<FeeRateEstimate>, StoreError>)
        ensures
            match r {
                Ok(v) => v == self.contents(),
                Err(e) => e == StoreError::ReadFailed,
            },
    ;

    /// Replace the record with `estimate`, atomically: on success the store
    /// holds exactly `estimate`; on failure it still holds the old record.
    fn upsert_estimate(&mut self, estimate: &FeeRateEstimate) -> (r: Result<(), StoreError>)
        ensures
            match r {
                Ok(()) => final(self).contents() == Some(*estimate),
                Err(e) => e == StoreError::WriteFailed && final(self).contents() == old(
                    self,
                ).contents(),
            },
    ;
}

/// An in-memory store: the simplest record store, used where durability
/// across restarts is not needed, and to drive the estimator in tests.
/// Its two failure switches make every [`StoreError`] reachable on demand,
/// so the estimator's failure paths can be exercised.
pub struct MemoryStore {
    record: Option<FeeRateEstimate>,
    fail_reads: bool,
    fail_writes: bool,
}

impl MemoryStore {
    /// An empty store whose operations always succeed.
    pub fn new() -> (r: Self)
        ensures
            r.contents() == Option::<FeeRateEstimate>::None,
            !r.spec_fail_reads(),
            !r.spec_fail_writes(),
    {
        MemoryStore { record: None, fail_reads: false, fail_writes: false }
    }

    /// An empty store that fails the selected operations, for exercising
    /// the estimator's error reporting.
    pub fn new_failing(fail_reads: bool, fail_writes: bool) -> (r: Self)
        ensures
            r.contents() == Option::<FeeRateEstimate>::None,
            r.spec_fail_reads() == fail_reads,
            r.spec_fail_writes() == fail_writes,
    {
        MemoryStore { record: None, fail_reads, fail_writes }
    }

    pub closed spec fn spec_fail_reads(&self) -> bool {
        self.fail_reads
    }

    pub closed spec fn spec_fail_writes(&self) -> bool {
        self.fail_writes
    }
}

impl EstimateStore for MemoryStore {
    closed spec fn contents(&self) -> Option<FeeRateEstimate> {
        self.record
    }

    fn read_estimate(&self) -> (r: Result<Option<FeeRateEstimate>, StoreError>)
        ensures
            r is Ok <==> !self.spec_fail_reads(),
    {
        if self.fail_reads {
            Err(StoreError::ReadFailed)
        } else {
            Ok(self.record)
        }
    }

    fn upsert_estimate(&mut self, estimate: &FeeRateEstimate) -> (r: Result<(), StoreError>)
        ensures
            r is Ok <==> !old(self).spec_fail_writes(),
            final(self).spec_fail_reads() == old(self).spec_fail_reads(),
            final(self).spec_fail_writes() == old(self).spec_fail_writes(),
    {
        if self.fail_writes {
            Err(StoreError::WriteFailed)
        } else {
            self.record = Some(*estimate);
            Ok(())
        }
    }
}

} // verus!
