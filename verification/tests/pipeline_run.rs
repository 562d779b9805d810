use textify::{run_pipeline, FileCandidate, PipelineConfig, RunStatistics, Timer, WorkItem};

fn item(path: &str, size: u64, sample: Option<&[u8]>, content: Option<&[u8]>) -> WorkItem {
    WorkItem {
        candidate: FileCandidate {
            path: path.to_string(),
            rel_path: path.to_string(),
            size,
        },
        sample: sample.map(|b| b.to_vec()),
        content: content.map(|b| b.to_vec()),
    }
}

const DEFAULT_THRESHOLD: u64 = 104_857;

fn mixed_tree() -> Vec<WorkItem> {
    vec![
        item("README.md", 50, Some(b"# docs"), Some(b"# docs and more text here, fifty bytes....")),
        item("node_modules/lib.js", 30, Some(b"var x = 1;"), Some(b"var x = 1;")),
        item("photo.png", 4096, Some(&[0x89, b'P', b'N', b'G']), None),
        item("big.log", 2 * 1024 * 1024, Some(b"log line\n"), None),
    ]
}

#[test]
fn mixed_tree_yields_exactly_one_record() {
    let cfg = PipelineConfig { threshold_bytes: DEFAULT_THRESHOLD, include_all: false };
    let out = run_pipeline(&mixed_tree(), &cfg);
    assert_eq!(out.records.len(), 1);
    assert!(out.records[0].contains("File: README.md\n"));
    assert_eq!(out.stats.files_processed, 1);
    assert_eq!(out.stats.files_skipped, 3);
}

#[test]
fn counters_always_sum_to_the_candidate_count() {
    let cfg = PipelineConfig { threshold_bytes: DEFAULT_THRESHOLD, include_all: false };
    let items = mixed_tree();
    let out = run_pipeline(&items, &cfg);
    assert_eq!(
        out.stats.files_processed + out.stats.files_skipped,
        items.len() as u64
    );
}

#[test]
fn empty_candidate_list_is_a_successful_run() {
    let cfg = PipelineConfig { threshold_bytes: DEFAULT_THRESHOLD, include_all: false };
    let out = run_pipeline(&Vec::new(), &cfg);
    assert_eq!(out.records.len(), 0);
    assert_eq!(out.stats.files_processed, 0);
    assert_eq!(out.stats.files_skipped, 0);
}

#[test]
fn empty_file_is_skipped_without_binary_markers() {
    let cfg = PipelineConfig { threshold_bytes: DEFAULT_THRESHOLD, include_all: false };
    let items = vec![item("empty.txt", 0, Some(b""), Some(b""))];
    let out = run_pipeline(&items, &cfg);
    assert_eq!(out.records.len(), 0);
    assert_eq!(out.stats.files_skipped, 1);
}

#[test]
fn two_runs_produce_the_same_records() {
    let cfg = PipelineConfig { threshold_bytes: DEFAULT_THRESHOLD, include_all: false };
    let first = run_pipeline(&mixed_tree(), &cfg);
    let second = run_pipeline(&mixed_tree(), &cfg);
    let mut a = first.records.clone();
    let mut b = second.records.clone();
    a.sort();
    b.sort();
    assert_eq!(a, b);
    assert_eq!(first.stats.files_processed, second.stats.files_processed);
    assert_eq!(first.stats.files_skipped, second.stats.files_skipped);
}

#[test]
fn include_all_keeps_binary_and_oversize_files() {
    let cfg = PipelineConfig { threshold_bytes: DEFAULT_THRESHOLD, include_all: true };
    let items = vec![
        item("photo.png", 4, Some(&[0u8, 1, 2, 3]), Some(&[0u8, 1, 2, 3])),
        item("big.log", 2 * 1024 * 1024, Some(b"log"), Some(b"log line\n")),
        item("node_modules/lib.js", 10, Some(b"var x;"), Some(b"var x;")),
    ];
    let out = run_pipeline(&items, &cfg);
    assert_eq!(out.stats.files_processed, 2);
    assert_eq!(out.stats.files_skipped, 1);
}

#[test]
fn included_file_without_readable_content_gets_the_marker() {
    let cfg = PipelineConfig { threshold_bytes: DEFAULT_THRESHOLD, include_all: false };
    let items = vec![item("vanished.txt", 9, Some(b"was here"), None)];
    let out = run_pipeline(&items, &cfg);
    assert_eq!(out.records.len(), 1);
    assert!(out.records[0].contains("[Binary file or read error]"));
}

#[test]
fn statistics_counters_move_one_at_a_time() {
    let mut stats = RunStatistics::new();
    stats.record_processed();
    stats.record_processed();
    stats.record_skipped();
    assert_eq!(stats.files_processed, 2);
    assert_eq!(stats.files_skipped, 1);
}

#[test]
fn timer_keeps_its_label() {
    let t = Timer::new("discovery");
    assert_eq!(t.label, "discovery");
    let first = t.elapsed_ms();
    let second = t.elapsed_ms();
    assert!(second >= first);
}
