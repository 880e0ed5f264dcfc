//! Batch fan-out and fan-in.
//!
//! One generation or send action turns the full record set into one
//! self-contained job per record. The jobs share only read-only data —
//! the scaled regions, the template, the font size — so workers may run
//! them in any order and in parallel without locking; nothing a job does
//! can enter another job's output. The surrounding program executes the
//! jobs and hands the per-job outcomes back; the caller receives an
//! aggregate report instead of an abort.

use vstd::prelude::*;

use crate::errors::CertError;
use crate::naming::output_filename;
use crate::naming::spec_output_filename;
use crate::render::RenderJob;
use crate::render::RenderJobModel;
use crate::render::generate_certificate;
use crate::render::spec_job;
use crate::scale::ScaledRegion;

verus! {

/// The job of one record: its composition, named from its first two
/// fields, at the shared font size.
pub open spec fn spec_batch_job(
    record: Seq<Seq<char>>,
    regs: Seq<ScaledRegion>,
    font_size: int,
) -> RenderJobModel
    recommends
        record.len() >= 2,
{
    spec_job(record, regs, spec_output_filename(record[0], record[1]), font_size)
}

/// Fans the record set out into one render job per record, in record
/// order. By the naming convention, each record's first two fields are
/// its identifying fields.
pub fn make_jobs(
    records: &Vec<Vec<String>>,
    regions: &Vec<ScaledRegion>,
    font_size: u32,
) -> (jobs: Vec<RenderJob>)
    requires
        forall|i: int| 0 <= i < records@.len() ==> records@[i]@.len() >= 2,
    ensures
        jobs@.len() == records@.len(),
        forall|i: int|
            0 <= i < records@.len() ==> jobs@[i]@ == spec_batch_job(
                records@[i].deep_view(),
                regions@,
                font_size as int,
            ),
{
    let mut jobs: Vec<RenderJob> = Vec::new();
    let n = records.len();
    let mut i: usize = 0;
    while i < n
        invariant
            n == records@.len(),
            i <= n,
            jobs@.len() == i,
            forall|k: int| 0 <= k < records@.len() ==> records@[k]@.len() >= 2,
            forall|k: int|
                0 <= k < i ==> jobs@[k]@ == spec_batch_job(
                    records@[k].deep_view(),
                    regions@,
                    font_size as int,
                ),
        decreases n - i,
    {
        let record = &records[i];
        let filename = output_filename(record);
        let job = generate_certificate(record, regions, filename.as_str(), font_size);
        proof {
            assert(record.deep_view()[0] == record@[0]@);
            assert(record.deep_view()[1] == record@[1]@);
        }
        jobs.push(job);
        i = i + 1;
    }
    jobs
}

/// The i-th job is fixed by the i-th record and the shared read-only
/// inputs alone: two batches whose record sets agree at position `i`
/// produce the same job there, whatever the other records hold. Together
/// with `make_jobs` building exactly one job per record, this is why
/// running the jobs in any order, or in parallel, changes no output.
pub proof fn lemma_jobs_independent(
    records1: Seq<Seq<Seq<char>>>,
    records2: Seq<Seq<Seq<char>>>,
    regs: Seq<ScaledRegion>,
    font_size: int,
    i: int,
)
    requires
        0 <= i < records1.len(),
        0 <= i < records2.len(),
        records1[i] == records2[i],
    ensures
        spec_batch_job(records1[i], regs, font_size) == spec_batch_job(
            records2[i],
            regs,
            font_size,
        ),
{
}

/// Every cell of the record holds a value.
pub open spec fn spec_record_complete(record: Seq<Seq<char>>) -> bool {
    forall|i: int| 0 <= i < record.len() ==> record[i].len() > 0
}

/// Decides whether a row is complete; rows with empty cells are rejected
/// before a batch is formed.
pub fn record_complete(record: &Vec<String>) -> (r: bool)
    ensures
        r == spec_record_complete(record.deep_view()),
{
    let n = record.len();
    let mut i: usize = 0;
    while i < n
        invariant
            n == record@.len(),
            i <= n,
            forall|j: int| 0 <= j < i ==> record.deep_view()[j].len() > 0,
        decreases n - i,
    {
        if record[i].as_str().is_empty() {
            proof {
                assert(record.deep_view()[i as int] == record@[i as int]@);
            }
            return false;
        }
        i = i + 1;
    }
    true
}

/// Decides whether the record set is rectangular at the given column
/// count — what the batch contracts assume of a parsed table.
pub fn records_rectangular(records: &Vec<Vec<String>>, width: usize) -> (r: bool)
    ensures
        r == forall|i: int| 0 <= i < records@.len() ==> records@[i]@.len() == width,
{
    let n = records.len();
    let mut i: usize = 0;
    while i < n
        invariant
            n == records@.len(),
            i <= n,
            forall|j: int| 0 <= j < i ==> records@[j]@.len() == width,
        decreases n - i,
    {
        if records[i].len() != width {
            return false;
        }
        i = i + 1;
    }
    true
}

/// What one executed job reported back.
#[derive(Clone, Copy, PartialEq, Eq, Structural, Debug)]
pub enum JobOutcome {
    /// The job ran to completion.
    Completed,
    /// The job failed with the given typed error.
    Failed(CertError),
}

/// The aggregate of a settled batch.
#[derive(Clone, Copy, PartialEq, Eq, Structural, Debug)]
pub struct BatchReport {
    pub completed: usize,
    pub failed: usize,
}

/// How many of the outcomes are `Completed`.
pub open spec fn spec_count_completed(outcomes: Seq<JobOutcome>) -> int
    decreases outcomes.len(),
{
    if outcomes.len() == 0 {
        0
    } else {
        spec_count_completed(outcomes.drop_last()) + if outcomes.last() is Completed {
            1int
        } else {
            0int
        }
    }
}

/// Fans the settled batch back in: counts the completed and the failed
/// jobs. Every outcome is counted exactly once.
pub fn summarize(outcomes: &Vec<JobOutcome>) -> (r: BatchReport)
    ensures
        r.completed == spec_count_completed(outcomes@),
        r.completed + r.failed == outcomes@.len(),
{
    let n = outcomes.len();
    let mut completed: usize = 0;
    let mut i: usize = 0;
    while i < n
        invariant
            n == outcomes@.len(),
            i <= n,
            completed <= i,
            completed == spec_count_completed(outcomes@.take(i as int)),
        decreases n - i,
    {
        proof {
            assert(outcomes@.take(i + 1).drop_last() =~= outcomes@.take(i as int));
            assert(outcomes@.take(i + 1).last() == outcomes@[i as int]);
        }
        if matches!(outcomes[i], JobOutcome::Completed) {
            completed = completed + 1;
        }
        i = i + 1;
    }
    proof {
        assert(outcomes@.take(n as int) =~= outcomes@);
    }
    BatchReport { completed, failed: n - completed }
}

} // verus!
