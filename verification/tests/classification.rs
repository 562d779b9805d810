use textify::{classify, ClassificationVerdict, FileCandidate, PipelineConfig};

fn cand(path: &str, size: u64) -> FileCandidate {
    FileCandidate { path: path.to_string(), rel_path: path.to_string(), size }
}

fn cfg(threshold_bytes: u64, include_all: bool) -> PipelineConfig {
    PipelineConfig { threshold_bytes, include_all }
}

const DEFAULT_THRESHOLD: u64 = 104_857;

#[test]
fn includes_small_text_file() {
    let sample = b"fn main() {}\n".to_vec();
    let v = classify(&cand("src/main.rs", 13), Some(&sample), &cfg(DEFAULT_THRESHOLD, false));
    assert_eq!(v, ClassificationVerdict::Include);
}

#[test]
fn empty_file_is_excluded_by_path_rule() {
    let sample: Vec<u8> = Vec::new();
    let v = classify(&cand("empty.txt", 0), Some(&sample), &cfg(DEFAULT_THRESHOLD, false));
    assert_eq!(v, ClassificationVerdict::ExcludeByPath);
}

#[test]
fn excluded_directory_wins_over_everything() {
    let sample = b"plain text".to_vec();
    let v = classify(
        &cand("node_modules/lib.js", 10),
        Some(&sample),
        &cfg(DEFAULT_THRESHOLD, false),
    );
    assert_eq!(v, ClassificationVerdict::ExcludeByPath);
    // Even with include_all, the path rules still apply.
    let v = classify(&cand("node_modules/lib.js", 10), Some(&sample), &cfg(DEFAULT_THRESHOLD, true));
    assert_eq!(v, ClassificationVerdict::ExcludeByPath);
}

#[test]
fn binary_extension_is_excluded_without_reading() {
    let sample = b"this looks like text".to_vec();
    let v = classify(&cand("photo.png", 10), Some(&sample), &cfg(DEFAULT_THRESHOLD, false));
    assert_eq!(v, ClassificationVerdict::ExcludeBinary);
}

#[test]
fn nul_byte_in_sample_means_binary() {
    let mut sample = b"mostly printable text".to_vec();
    sample.push(0);
    sample.extend_from_slice(b"more text");
    let v = classify(&cand("data.dat", 31), Some(&sample), &cfg(DEFAULT_THRESHOLD, false));
    assert_eq!(v, ClassificationVerdict::ExcludeBinary);
}

#[test]
fn nul_byte_beyond_the_sampled_window_is_not_seen() {
    let mut sample = vec![b'a'; 600];
    sample[550] = 0;
    let v = classify(&cand("data.txt", 600), Some(&sample), &cfg(DEFAULT_THRESHOLD, false));
    assert_eq!(v, ClassificationVerdict::Include);
}

#[test]
fn control_bytes_over_thirty_percent_mean_binary() {
    // 4 control bytes out of 10 sampled: 40 percent, binary.
    let sample = vec![1u8, 1, 1, 1, b'a', b'b', b'c', b'd', b'e', b'f'];
    let v = classify(&cand("data.txt", 10), Some(&sample), &cfg(DEFAULT_THRESHOLD, false));
    assert_eq!(v, ClassificationVerdict::ExcludeBinary);
}

#[test]
fn control_bytes_at_thirty_percent_are_text() {
    // 3 control bytes out of 10 sampled: exactly 30 percent, text.
    let sample = vec![1u8, 1, 1, b'a', b'b', b'c', b'd', b'e', b'f', b'g'];
    let v = classify(&cand("data.txt", 10), Some(&sample), &cfg(DEFAULT_THRESHOLD, false));
    assert_eq!(v, ClassificationVerdict::Include);
}

#[test]
fn accepted_whitespace_is_not_control() {
    let sample = b"\t\n\r\t\n\r\t\n\r\n".to_vec();
    let v = classify(&cand("ws.txt", 10), Some(&sample), &cfg(DEFAULT_THRESHOLD, false));
    assert_eq!(v, ClassificationVerdict::Include);
}

#[test]
fn threshold_is_inclusive_one_byte_over_is_not() {
    let sample = b"text".to_vec();
    let at = classify(
        &cand("big.txt", DEFAULT_THRESHOLD),
        Some(&sample),
        &cfg(DEFAULT_THRESHOLD, false),
    );
    assert_eq!(at, ClassificationVerdict::Include);
    let over = classify(
        &cand("big.txt", DEFAULT_THRESHOLD + 1),
        Some(&sample),
        &cfg(DEFAULT_THRESHOLD, false),
    );
    assert_eq!(over, ClassificationVerdict::ExcludeOversize);
}

#[test]
fn include_all_bypasses_binary_and_size_rules() {
    let binary_sample = vec![0u8, 1, 2, 3];
    let v = classify(&cand("photo.png", 4), Some(&binary_sample), &cfg(DEFAULT_THRESHOLD, true));
    assert_eq!(v, ClassificationVerdict::Include);
    let v = classify(
        &cand("huge.log", 50_000_000),
        Some(&b"text".to_vec()),
        &cfg(DEFAULT_THRESHOLD, true),
    );
    assert_eq!(v, ClassificationVerdict::Include);
}

#[test]
fn missing_sample_fails_open_to_text() {
    let v = classify(&cand("stalled.txt", 10), None, &cfg(DEFAULT_THRESHOLD, false));
    assert_eq!(v, ClassificationVerdict::Include);
}

#[test]
fn verdict_is_deterministic() {
    let sample = b"some text".to_vec();
    let a = classify(&cand("a/b.txt", 9), Some(&sample), &cfg(DEFAULT_THRESHOLD, false));
    let b = classify(&cand("a/b.txt", 9), Some(&sample), &cfg(DEFAULT_THRESHOLD, false));
    assert_eq!(a, b);
}
