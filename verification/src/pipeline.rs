//! The run itself, as one ordered pass over the discovered candidates:
//! classify each, extract and render the included ones, and account for
//! every candidate exactly once.
use vstd::prelude::*;

use crate::classify::{
    classify, sample_view, spec_classify, ClassificationVerdict, FileCandidate, PipelineConfig,
};
use crate::extract::{content_view, extract_content, spec_extract};
use crate::record::{render_record, spec_record};

verus! {

/// Everything one worker needs for one candidate: the candidate itself,
/// the sampled prefix of its bytes (nothing when the sample read
/// failed), and its full bytes (nothing when the file was not read or
/// could not be read).
pub struct WorkItem {
    /// The discovered file.
    pub candidate: FileCandidate,
    /// A prefix of the file's bytes for the binary check.
    pub sample: Option<Vec<u8>>,
    /// The file's bytes, when they were read.
    pub content: Option<Vec<u8>>,
}

/// The two run counters. Every candidate moves exactly one of them,
/// exactly once.
pub struct RunStatistics {
    /// How many candidates contributed a record.
    pub files_processed: u64,
    /// How many candidates were skipped by classification.
    pub files_skipped: u64,
}

impl RunStatistics {
    /// Fresh counters for a run.
    pub fn new() -> (s: RunStatistics)
        ensures
            s.files_processed == 0,
            s.files_skipped == 0,
    {
        RunStatistics { files_processed: 0, files_skipped: 0 }
    }

    /// Count one candidate whose record was written.
    pub fn record_processed(&mut self)
        requires
            old(self).files_processed < u64::MAX,
        ensures
            final(self).files_processed == old(self).files_processed + 1,
            final(self).files_skipped == old(self).files_skipped,
    {
        self.files_processed = self.files_processed + 1;
    }

    /// Count one candidate that classification skipped.
    pub fn record_skipped(&mut self)
        requires
            old(self).files_skipped < u64::MAX,
        ensures
            final(self).files_skipped == old(self).files_skipped + 1,
            final(self).files_processed == old(self).files_processed,
    {
        self.files_skipped = self.files_skipped + 1;
    }
}

/// What a run hands back: the records, in the order the pass appended
/// them, and the final counters.
pub struct PipelineOutput {
    /// One formatted record per included candidate.
    pub records: Vec<String>,
    /// The run's counters.
    pub stats: RunStatistics,
}

/// The bytes of an optional owned buffer.
pub open spec fn opt_bytes(o: Option<Vec<u8>>) -> Option<Seq<u8>> {
    match o {
        Some(b) => Some(b@),
        None => None,
    }
}

/// The verdict an item's candidate classifies to.
pub open spec fn item_verdict(item: WorkItem, config: PipelineConfig) -> ClassificationVerdict {
    spec_classify(
        item.candidate.path@,
        item.candidate.size,
        opt_bytes(item.sample),
        config.include_all,
        config.threshold_bytes,
    )
}

/// Whether an item's candidate is included in the output.
pub open spec fn item_included(item: WorkItem, config: PipelineConfig) -> bool {
    item_verdict(item, config) == ClassificationVerdict::Include
}

/// The record an included item contributes.
pub open spec fn item_record(item: WorkItem) -> Seq<char> {
    spec_record(item.candidate.rel_path@, item.candidate.size, spec_extract(opt_bytes(item.content)))
}

/// The records of a run over `items`, in order: one per included item.
pub open spec fn spec_run_records(items: Seq<WorkItem>, config: PipelineConfig) -> Seq<Seq<char>>
    decreases items.len(),
{
    if items.len() == 0 {
        Seq::empty()
    } else {
        spec_run_records(items.drop_last(), config) + if item_included(items.last(), config) {
            seq![item_record(items.last())]
        } else {
            Seq::<Seq<char>>::empty()
        }
    }
}

/// How many of `items` are included.
pub open spec fn spec_included_count(items: Seq<WorkItem>, config: PipelineConfig) -> nat
    decreases items.len(),
{
    if items.len() == 0 {
        0
    } else {
        spec_included_count(items.drop_last(), config) + if item_included(items.last(), config) {
            1nat
        } else {
            0nat
        }
    }
}

/// A run writes exactly one record per included item, and never more
/// records than it saw candidates.
pub proof fn lemma_run_accounting(items: Seq<WorkItem>, config: PipelineConfig)
    ensures
        spec_run_records(items, config).len() == spec_included_count(items, config),
        spec_included_count(items, config) <= items.len(),
    decreases items.len(),
{
    if items.len() > 0 {
        lemma_run_accounting(items.drop_last(), config);
    }
}

/// Running the pipeline twice over an unchanged candidate list with the
/// same settings yields the same records: in the sequential pass even
/// the same order, so in particular the same multiset of records.
pub proof fn lemma_pipeline_idempotent(
    items1: Seq<WorkItem>,
    items2: Seq<WorkItem>,
    config: PipelineConfig,
)
    requires
        items1 == items2,
    ensures
        spec_run_records(items1, config) == spec_run_records(items2, config),
        spec_run_records(items1, config).to_multiset() == spec_run_records(
            items2,
            config,
        ).to_multiset(),
{
}

/// One ordered pass over the candidates: classify each item, extract
/// and render the included ones in order, and move exactly one counter
/// for each. On return, processed plus skipped equals the number of
/// candidates, and the records are exactly those of the included items.
pub fn run_pipeline(items: &Vec<WorkItem>, config: &PipelineConfig) -> (out: PipelineOutput)
    ensures
        out.records.deep_view() == spec_run_records(items@, *config),
        out.stats.files_processed == spec_included_count(items@, *config),
        out.stats.files_processed + out.stats.files_skipped == items@.len(),
        out.records@.len() == out.stats.files_processed,
{
    let n = items.len();
    let mut records: Vec<String> = Vec::new();
    let mut stats = RunStatistics::new();
    let mut i: usize = 0;
    while i < n
        invariant
            n == items@.len(),
            i <= n,
            stats.files_processed + stats.files_skipped == i,
            records@.len() == stats.files_processed,
            records.deep_view() == spec_run_records(items@.take(i as int), *config),
            stats.files_processed == spec_included_count(items@.take(i as int), *config),
        decreases n - i,
    {
        let item = &items[i];
        let sample_ref = item.sample.as_ref();
        let verdict = classify(&item.candidate, sample_ref, config);
        proof {
            assert(sample_view(sample_ref) == opt_bytes(item.sample));
            assert(items@.take(i + 1).drop_last() =~= items@.take(i as int));
            assert(items@.take(i + 1).last() == items@[i as int]);
        }
        if verdict == ClassificationVerdict::Include {
            let content_ref = item.content.as_ref();
            let content = extract_content(content_ref);
            proof {
                assert(content_view(content_ref) == opt_bytes(item.content));
            }
            let rec = render_record(item.candidate.rel_path.as_str(), item.candidate.size, &content);
            let ghost old_records = records.deep_view();
            records.push(rec);
            proof {
                assert(records.deep_view() =~= old_records.push(rec@));
                assert(old_records.push(rec@) =~= old_records + seq![item_record(items@[i as int])]);
            }
            stats.record_processed();
        } else {
            stats.record_skipped();
        }
        i = i + 1;
    }
    proof {
        assert(items@.take(n as int) =~= items@);
    }
    PipelineOutput { records, stats }
}

} // verus!
