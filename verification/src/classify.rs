//! Per-file classification: excluded path, binary content, oversize, or
//! included.
use vstd::prelude::*;

use crate::paths::{
    has_binary_extension, is_excluded_path, should_exclude_file, spec_has_binary_extension,
};

verus! {

/// How many leading bytes of a file the binary check samples.
pub const SAMPLE_LEN: usize = 512;

/// The classifier's decision for one candidate file.
#[derive(Clone, Copy, PartialEq, Eq, Structural, Debug)]
pub enum ClassificationVerdict {
    /// The file's content goes into the output.
    Include,
    /// The path matches an exclusion rule, or the file is empty.
    ExcludeByPath,
    /// The file looks binary, by extension or by sampled content.
    ExcludeBinary,
    /// The file is strictly larger than the size threshold.
    ExcludeOversize,
}

/// One file found by discovery: where it is, its path relative to the
/// root, and how many bytes it holds.
#[derive(Debug)]
pub struct FileCandidate {
    /// The path as discovery walked to it.
    pub path: String,
    /// The path relative to the root, as printed in the record header.
    pub rel_path: String,
    /// The file's length in bytes.
    pub size: u64,
}

/// The settings a run classifies under.
#[derive(Clone, Copy, Debug)]
pub struct PipelineConfig {
    /// Files strictly larger than this many bytes are excluded.
    pub threshold_bytes: u64,
    /// When set, only the path rules apply: binary and oversize checks
    /// are bypassed.
    pub include_all: bool,
}

/// A control byte outside the accepted whitespace set (tab, line feed,
/// carriage return).
pub open spec fn is_control_byte(b: u8) -> bool {
    (b < 32 && b != 9 && b != 10 && b != 13) || b == 127
}

/// How many control bytes a sample holds.
pub open spec fn control_count(s: Seq<u8>) -> nat
    decreases s.len(),
{
    if s.len() == 0 {
        0
    } else {
        control_count(s.drop_last()) + if is_control_byte(s.last()) {
            1nat
        } else {
            0nat
        }
    }
}

/// The part of a sample the binary check reads: at most the first
/// `SAMPLE_LEN` bytes.
pub open spec fn sample_window(s: Seq<u8>) -> Seq<u8> {
    if s.len() <= SAMPLE_LEN {
        s
    } else {
        s.take(SAMPLE_LEN as int)
    }
}

/// Whether a sampled prefix marks the file as binary: a NUL byte
/// anywhere in the window, or control bytes making up more than 30
/// percent of it.
pub open spec fn spec_is_binary_sample(s: Seq<u8>) -> bool {
    let w = sample_window(s);
    w.contains(0u8) || 10 * control_count(w) > 3 * w.len()
}

/// The bytes of an optional sample.
pub open spec fn sample_view(sample: Option<&Vec<u8>>) -> Option<Seq<u8>> {
    match sample {
        Some(s) => Some(s@),
        None => None,
    }
}

/// The verdict for a file at `path` of `size` bytes, given an optional
/// sampled prefix of its content (nothing when the sample could not be
/// read, which fails open to "not binary").
pub open spec fn spec_classify(
    path: Seq<char>,
    size: u64,
    sample: Option<Seq<u8>>,
    include_all: bool,
    threshold_bytes: u64,
) -> ClassificationVerdict {
    if is_excluded_path(path) || size == 0 {
        ClassificationVerdict::ExcludeByPath
    } else if !include_all && spec_has_binary_extension(path) {
        ClassificationVerdict::ExcludeBinary
    } else if !include_all && (sample matches Some(sm) && spec_is_binary_sample(sm)) {
        ClassificationVerdict::ExcludeBinary
    } else if !include_all && size > threshold_bytes {
        ClassificationVerdict::ExcludeOversize
    } else {
        ClassificationVerdict::Include
    }
}

/// Whether a sampled prefix marks a file as binary. Only the first
/// `SAMPLE_LEN` bytes are examined, however much was handed in.
pub fn is_binary_sample(sample: &Vec<u8>) -> (r: bool)
    ensures
        r == spec_is_binary_sample(sample@),
{
    let len = sample.len();
    let w_len = if len <= SAMPLE_LEN {
        len
    } else {
        SAMPLE_LEN
    };
    proof {
        assert(sample_window(sample@) =~= sample@.take(w_len as int));
    }
    let ghost w = sample_window(sample@);
    let mut count: usize = 0;
    let mut i: usize = 0;
    while i < w_len
        invariant
            w_len <= sample@.len(),
            w == sample_window(sample@),
            w == sample@.take(w_len as int),
            i <= w_len,
            count == control_count(w.take(i as int)),
            count <= i,
            forall|j: int| 0 <= j < i ==> w[j] != 0u8,
        decreases w_len - i,
    {
        let b = sample[i];
        assert(b == w[i as int]);
        if b == 0 {
            assert(w.contains(0u8));
            return true;
        }
        if (b < 32 && b != 9 && b != 10 && b != 13) || b == 127 {
            count = count + 1;
        }
        i = i + 1;
        proof {
            assert(w.take(i as int).drop_last() =~= w.take(i - 1));
            assert(w.take(i as int).last() == w[i - 1]);
        }
    }
    proof {
        assert(w.take(w_len as int) =~= w);
        if w.contains(0u8) {
            let j = choose|j: int| 0 <= j < w.len() && w[j] == 0u8;
            assert(false);
        }
    }
    10 * count > 3 * w_len
}

/// Classify one candidate under the given settings. The sample is a
/// prefix of the file's bytes, or nothing when it could not be read.
pub fn classify(
    candidate: &FileCandidate,
    sample: Option<&Vec<u8>>,
    config: &PipelineConfig,
) -> (v: ClassificationVerdict)
    ensures
        v == spec_classify(
            candidate.path@,
            candidate.size,
            sample_view(sample),
            config.include_all,
            config.threshold_bytes,
        ),
{
    if should_exclude_file(candidate.path.as_str()) {
        return ClassificationVerdict::ExcludeByPath;
    }
    if candidate.size == 0 {
        return ClassificationVerdict::ExcludeByPath;
    }
    if !config.include_all {
        if has_binary_extension(candidate.path.as_str()) {
            return ClassificationVerdict::ExcludeBinary;
        }
        match sample {
            Some(s) => {
                if is_binary_sample(s) {
                    return ClassificationVerdict::ExcludeBinary;
                }
            },
            None => {},
        }
        if candidate.size > config.threshold_bytes {
            return ClassificationVerdict::ExcludeOversize;
        }
    }
    ClassificationVerdict::Include
}

/// For any path, size and settings, the classifier returns exactly one
/// verdict, and each verdict comes exactly on the stated inputs: the
/// path rules and emptiness decide `ExcludeByPath` first, then (unless
/// everything is included) the binary checks, then the size threshold;
/// whatever passes them all is included. The verdict is a function of
/// the inputs alone, so equal content and settings always classify
/// alike.
pub proof fn lemma_classification_partition(
    path: Seq<char>,
    size: u64,
    sample: Option<Seq<u8>>,
    include_all: bool,
    threshold_bytes: u64,
)
    ensures
        ({
            let v = spec_classify(path, size, sample, include_all, threshold_bytes);
            let binary = spec_has_binary_extension(path) || (sample matches Some(sm)
                && spec_is_binary_sample(sm));
            &&& (v == ClassificationVerdict::ExcludeByPath <==> is_excluded_path(path) || size
                == 0)
            &&& (v == ClassificationVerdict::ExcludeBinary <==> !is_excluded_path(path) && size
                != 0 && !include_all && binary)
            &&& (v == ClassificationVerdict::ExcludeOversize <==> !is_excluded_path(path) && size
                != 0 && !include_all && !binary && size > threshold_bytes)
            &&& (v == ClassificationVerdict::Include <==> !is_excluded_path(path) && size != 0 && (
            include_all || (!binary && size <= threshold_bytes)))
        }),
{
}

/// A file of exactly the threshold size is included; one byte more is
/// excluded as oversize. Holds for any file the other rules let
/// through; the threshold must be positive, since an empty file is
/// always excluded.
pub proof fn lemma_threshold_boundary(
    path: Seq<char>,
    sample: Option<Seq<u8>>,
    threshold_bytes: u64,
)
    requires
        !is_excluded_path(path),
        !spec_has_binary_extension(path),
        sample matches Some(sm) ==> !spec_is_binary_sample(sm),
        threshold_bytes > 0,
    ensures
        spec_classify(path, threshold_bytes, sample, false, threshold_bytes)
            == ClassificationVerdict::Include,
        threshold_bytes < u64::MAX ==> spec_classify(
            path,
            (threshold_bytes + 1) as u64,
            sample,
            false,
            threshold_bytes,
        ) == ClassificationVerdict::ExcludeOversize,
{
}

/// A NUL byte anywhere in the sampled window makes the sample binary,
/// whatever surrounds it; a sample with no NUL and control bytes at no
/// more than 30 percent of the window is text.
pub proof fn lemma_binary_sampling_boundary(s: Seq<u8>)
    ensures
        sample_window(s).contains(0u8) ==> spec_is_binary_sample(s),
        !sample_window(s).contains(0u8) && 10 * control_count(sample_window(s)) <= 3
            * sample_window(s).len() ==> !spec_is_binary_sample(s),
{
}

/// With `include_all` set, neither a recognized binary extension nor
/// any sampled content nor any size excludes a file: only the path
/// rules and emptiness still apply.
pub proof fn lemma_include_all_override(
    path: Seq<char>,
    size: u64,
    sample: Option<Seq<u8>>,
    threshold_bytes: u64,
)
    requires
        !is_excluded_path(path),
        size > 0,
    ensures
        spec_classify(path, size, sample, true, threshold_bytes) == ClassificationVerdict::Include,
{
}

} // verus!
