mod classify;
mod extract;
mod paths;
mod perf;
mod pipeline;
mod record;
mod size_format;
mod text;

pub use classify::{
    ClassificationVerdict, FileCandidate, PipelineConfig, SAMPLE_LEN, classify, control_count,
    is_binary_sample, is_control_byte, lemma_binary_sampling_boundary,
    lemma_classification_partition, lemma_include_all_override, lemma_threshold_boundary,
    sample_window, spec_classify, spec_is_binary_sample,
};
pub use extract::{
    extract_content, lossy_decode_of, payload_chars, spec_extract, unreadable_marker,
    ExtractedContent,
};
pub use paths::{
    basename, binary_extension_names, excluded_dir_names, excluded_file_names, has_binary_extension,
    has_dir_segment, is_excluded_path, path_extension, should_exclude_file,
    spec_has_binary_extension,
};
pub use perf::Timer;
pub use pipeline::{
    item_included, item_record, lemma_pipeline_idempotent, lemma_run_accounting, run_pipeline,
    spec_included_count, spec_run_records, PipelineOutput, RunStatistics, WorkItem,
};
pub use record::{render_record, spec_record, DELIMITER_LEN};
pub use size_format::{format_file_size, spec_format_file_size};
