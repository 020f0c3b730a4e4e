//! The persist cycle's durability state. Records are written to the
//! store one by one, in order, with no transaction around the batch: a
//! failure partway through leaves every earlier record committed and
//! every later one absent. `PersistRun` tracks exactly that — which
//! prefix of the cycle's records is durable — and says when the batch is
//! complete, which is the only point at which the freshness counter may
//! be bumped.

use vstd::prelude::*;

use crate::model::{PersistedRecord, SpecRecord, StoreError, records_view};

verus! {

/// One persist cycle in progress: the records to write, how many of them
/// are already durable, and whether a write has failed.
pub struct PersistRun {
    records: Vec<PersistedRecord>,
    written: usize,
    failed: bool,
}

impl PersistRun {
    /// All records of the cycle, in write order.
    pub closed spec fn spec_records(self) -> Seq<SpecRecord> {
        records_view(self.records@)
    }

    /// How many records are durable in the store.
    pub closed spec fn spec_written(self) -> int {
        self.written as int
    }

    /// Whether a write has been rejected; after a failure the run stops.
    pub closed spec fn spec_failed(self) -> bool {
        self.failed
    }

    /// A run is well-formed: never more written than there are records,
    /// and a failure always leaves the failed record unwritten.
    pub closed spec fn wf(self) -> bool {
        self.written <= self.records@.len() && (self.failed ==> self.written < self.records@.len())
    }

    /// The records that are durable: always exactly a prefix of the
    /// cycle's records, in their original order.
    pub open spec fn committed(self) -> Seq<SpecRecord> {
        self.spec_records().take(self.spec_written())
    }

    /// Starts a run over the given records; nothing is durable yet.
    pub fn new(records: Vec<PersistedRecord>) -> (run: PersistRun)
        ensures
            run.wf(),
            run.spec_records() == records_view(records@),
            run.spec_written() == 0,
            !run.spec_failed(),
            run.committed() == Seq::<SpecRecord>::empty(),
    {
        let run = PersistRun { records, written: 0, failed: false };
        proof {
            assert(run.committed() =~= Seq::<SpecRecord>::empty());
        }
        run
    }

    /// The next record to write: `None` once the run has failed or every
    /// record is durable.
    pub fn next_record(&self) -> (next: Option<&PersistedRecord>)
        requires
            self.wf(),
        ensures
            (next is None) == (self.spec_failed() || self.spec_written()
                == self.spec_records().len()),
            next matches Some(record) ==> record@ == self.spec_records()[self.spec_written()],
    {
        if self.failed || self.written >= self.records.len() {
            Option::None
        } else {
            Option::Some(&self.records[self.written])
        }
    }

    /// Reports the store's outcome for the current record: on success it
    /// becomes durable, extending the committed prefix by exactly that
    /// record; on failure nothing more becomes durable and the run stops.
    pub fn report(&mut self, outcome: Result<(), StoreError>)
        requires
            old(self).wf(),
            !old(self).spec_failed(),
            old(self).spec_written() < old(self).spec_records().len(),
        ensures
            final(self).wf(),
            final(self).spec_records() == old(self).spec_records(),
            outcome is Ok ==> !final(self).spec_failed() && final(self).spec_written() == old(
                self,
            ).spec_written() + 1,
            outcome is Err ==> final(self).spec_failed() && final(self).spec_written() == old(
                self,
            ).spec_written(),
            final(self).committed() == (if outcome is Ok {
                old(self).committed().push(old(self).spec_records()[old(self).spec_written()])
            } else {
                old(self).committed()
            }),
    {
        match outcome {
            Result::Ok(_) => {
                let total: usize = self.records.len();
                assert(self.written < total);
                self.written = self.written + 1;
                proof {
                    assert(self.committed() =~= old(self).committed().push(
                        old(self).spec_records()[old(self).spec_written()],
                    ));
                }
            },
            Result::Err(_) => {
                self.failed = true;
            },
        }
    }

    /// Whether every record of the cycle is durable; only then may the
    /// freshness counter be bumped and the cycle committed.
    pub fn is_complete(&self) -> (complete: bool)
        ensures
            complete == (!self.spec_failed() && self.spec_written()
                == self.spec_records().len()),
    {
        !self.failed && self.written == self.records.len()
    }

    pub fn has_failed(&self) -> (failed: bool)
        ensures
            failed == self.spec_failed(),
    {
        self.failed
    }

    pub fn written_count(&self) -> (count: usize)
        ensures
            count == self.spec_written(),
    {
        self.written
    }

    /// The cycle's records, for inspection; the durable ones are exactly
    /// the first `written_count()` of them.
    pub fn records(&self) -> (records: &Vec<PersistedRecord>)
        ensures
            records_view(records@) == self.spec_records(),
    {
        &self.records
    }
}

/// Partial-failure law: whatever outcomes the store returned, the durable
/// records are a prefix of the cycle's records — a record is never
/// durable unless every record before it is.
pub proof fn lemma_committed_is_prefix(run: PersistRun)
    requires
        run.wf(),
    ensures
        run.committed().len() <= run.spec_records().len(),
        forall|i: int|
            0 <= i < run.committed().len() ==> run.committed()[i] == run.spec_records()[i],
{
}

} // verus!
