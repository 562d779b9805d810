//! Path-only classification rules: excluded directory segments, excluded
//! file names, and recognized binary extensions.
use vstd::prelude::*;

use crate::text::{
    chars_eq_ci, is_sep, is_sep_char, lower_char, lower_seq, range_eq, range_eq_ci, seq_eq_ci,
    str_chars,
};

verus! {

/// Directory names whose contents are never included: version-control
/// metadata, dependency and vendor trees, build output, editor metadata,
/// and coverage reports. Matched case-insensitively as full path segments.
pub open spec fn excluded_dir_names() -> Seq<Seq<char>> {
    seq![
        "node_modules"@,
        ".git"@,
        ".svn"@,
        ".hg"@,
        "target"@,
        "build"@,
        "dist"@,
        ".vscode"@,
        ".idea"@,
        "__pycache__"@,
        ".pytest_cache"@,
        "coverage"@,
        ".nyc_output"@,
        "vendor"@,
        "deps"@,
        "cmake-build-debug"@,
        "cmake-build-release"@,
    ]
}

/// Well-known non-essential file names, matched case-sensitively against
/// the final path component: OS metadata, lock files, ignore files, and
/// container descriptors.
pub open spec fn excluded_file_names() -> Seq<Seq<char>> {
    seq![
        ".DS_Store"@,
        "Thumbs.db"@,
        "desktop.ini"@,
        "Cargo.lock"@,
        "package-lock.json"@,
        "yarn.lock"@,
        "pnpm-lock.yaml"@,
        "poetry.lock"@,
        "Gemfile.lock"@,
        "composer.lock"@,
        ".gitignore"@,
        ".gitattributes"@,
        ".dockerignore"@,
        ".npmignore"@,
        "Dockerfile"@,
        "docker-compose.yml"@,
    ]
}

/// File extensions of known binary formats, matched case-insensitively.
pub open spec fn binary_extension_names() -> Seq<Seq<char>> {
    seq![
        "exe"@, "dll"@, "so"@, "dylib"@, "bin"@, "obj"@, "o"@, "a"@, "lib"@,
        "jpg"@, "jpeg"@, "png"@, "gif"@, "bmp"@, "ico"@, "svg"@,
        "mp3"@, "mp4"@, "avi"@, "mov"@, "wav"@, "flac"@,
        "zip"@, "tar"@, "gz"@, "rar"@, "7z"@, "bz2"@,
        "pdf"@, "doc"@, "docx"@, "xls"@, "xlsx"@, "ppt"@, "pptx"@,
    ]
}

/// Whether `name` occurs in `s` as a full path segment (bounded on the
/// left by the start of the path or a separator, on the right by a
/// separator), compared up to ASCII case, starting at position `i`.
pub open spec fn dir_match_at(s: Seq<char>, name: Seq<char>, i: int) -> bool {
    &&& 0 <= i
    &&& i + name.len() < s.len()
    &&& (i == 0 || is_sep(s[i - 1]))
    &&& is_sep(s[i + name.len()])
    &&& seq_eq_ci(s.subrange(i, i + name.len()), name)
}

/// Whether `name` occurs anywhere in `s` as a full path segment.
pub open spec fn has_dir_segment(s: Seq<char>, name: Seq<char>) -> bool {
    exists|i: int| dir_match_at(s, name, i)
}

/// The final path component of `s`: everything after the last separator.
pub open spec fn basename(s: Seq<char>) -> Seq<char>
    decreases s.len(),
{
    if s.len() == 0 {
        s
    } else if is_sep(s[s.len() - 1]) {
        Seq::empty()
    } else {
        basename(s.drop_last()) + seq![s[s.len() - 1]]
    }
}

/// The extension of a file name `f`: the part after the last dot, or
/// nothing when `f` has no dot or only a leading one.
pub open spec fn ext_of_name(f: Seq<char>) -> Option<Seq<char>>
    decreases f.len(),
{
    if f.len() == 0 {
        None
    } else if f[f.len() - 1] == '.' {
        if f.len() >= 2 {
            Some(Seq::empty())
        } else {
            None
        }
    } else {
        match ext_of_name(f.drop_last()) {
            Some(e) => Some(e + seq![f[f.len() - 1]]),
            None => None,
        }
    }
}

/// The extension of the final component of path `s`.
pub open spec fn path_extension(s: Seq<char>) -> Option<Seq<char>> {
    ext_of_name(basename(s))
}

/// Whether the path is excluded by the path-only rules: an excluded
/// directory segment anywhere, or an excluded final component.
pub open spec fn is_excluded_path(s: Seq<char>) -> bool {
    ||| exists|i: int|
        0 <= i < excluded_dir_names().len() && has_dir_segment(s, excluded_dir_names()[i])
    ||| excluded_file_names().contains(basename(s))
}

/// Whether the path carries a recognized binary extension.
pub open spec fn spec_has_binary_extension(s: Seq<char>) -> bool {
    match path_extension(s) {
        Some(e) => exists|i: int|
            0 <= i < binary_extension_names().len() && seq_eq_ci(e, binary_extension_names()[i]),
        None => false,
    }
}

/// A suffix of `s` that starts at the beginning or right after a
/// separator and contains no separator is exactly `basename(s)`.
proof fn lemma_basename_suffix(s: Seq<char>, k: int)
    requires
        0 <= k <= s.len(),
        k == 0 || is_sep(s[k - 1]),
        forall|j: int| k <= j < s.len() ==> !is_sep(s[j]),
    ensures
        basename(s) == s.subrange(k, s.len() as int),
    decreases s.len(),
{
    if s.len() == 0 {
        assert(basename(s) =~= s.subrange(0, 0));
    } else if k == s.len() {
        assert(is_sep(s[s.len() - 1]));
        assert(basename(s) =~= s.subrange(k, s.len() as int));
    } else {
        assert(!is_sep(s[s.len() - 1]));
        let t = s.drop_last();
        lemma_basename_suffix(t, k);
        assert(basename(s) == basename(t) + seq![s[s.len() - 1]]);
        assert(basename(s) =~= s.subrange(k, s.len() as int));
    }
}

/// If the only dot at position one or later in `f` is at `d`, the
/// extension of `f` is everything after `d`.
proof fn lemma_ext_at(f: Seq<char>, d: int)
    requires
        1 <= d < f.len(),
        f[d] == '.',
        forall|j: int| d < j < f.len() ==> f[j] != '.',
    ensures
        ext_of_name(f) == Some(f.subrange(d + 1, f.len() as int)),
    decreases f.len(),
{
    if d == f.len() - 1 {
        assert(ext_of_name(f) == Some(Seq::<char>::empty()));
        assert(Seq::<char>::empty() =~= f.subrange(d + 1, f.len() as int));
    } else {
        assert(f[f.len() - 1] != '.');
        let t = f.drop_last();
        lemma_ext_at(t, d);
        assert(ext_of_name(f) == Some(
            t.subrange(d + 1, t.len() as int) + seq![f[f.len() - 1]],
        ));
        assert(t.subrange(d + 1, t.len() as int) + seq![f[f.len() - 1]] =~= f.subrange(
            d + 1,
            f.len() as int,
        ));
    }
}

/// A file name with no dot past its first character has no extension.
proof fn lemma_ext_none(f: Seq<char>)
    requires
        forall|j: int| 1 <= j < f.len() ==> f[j] != '.',
    ensures
        ext_of_name(f) is None,
    decreases f.len(),
{
    if f.len() == 0 {
    } else if f[f.len() - 1] == '.' {
        assert(f.len() == 1);
    } else {
        lemma_ext_none(f.drop_last());
    }
}

/// Whether `name` matches a full path segment of `path` at position `i`.
fn dir_matches_at(path: &Vec<char>, name: &Vec<char>, i: usize) -> (r: bool)
    requires
        i + name@.len() < path@.len(),
    ensures
        r == dir_match_at(path@, name@, i as int),
{
    let n = path.len();
    if i > 0 && !is_sep_char(path[i - 1]) {
        return false;
    }
    let after = i + name.len();
    if after >= n || !is_sep_char(path[after]) {
        return false;
    }
    range_eq_ci(path, i, i + name.len(), name)
}

/// Whether `name` occurs anywhere in `path` as a full path segment.
fn has_dir_segment_vec(path: &Vec<char>, name: &Vec<char>) -> (r: bool)
    ensures
        r == has_dir_segment(path@, name@),
{
    if path.len() == 0 || name.len() >= path.len() {
        proof {
            assert forall|i: int| !dir_match_at(path@, name@, i) by {}
        }
        return false;
    }
    let end = path.len() - name.len();
    let mut i: usize = 0;
    while i < end
        invariant
            end == path@.len() - name@.len(),
            name@.len() < path@.len(),
            i <= end,
            forall|j: int| 0 <= j < i ==> !dir_match_at(path@, name@, j),
        decreases end - i,
    {
        if dir_matches_at(path, name, i) {
            return true;
        }
        i = i + 1;
    }
    proof {
        assert forall|j: int| !dir_match_at(path@, name@, j) by {}
    }
    false
}

/// The position where the final path component of `path` starts.
fn basename_start(path: &Vec<char>) -> (k: usize)
    ensures
        k <= path@.len(),
        k == 0 || is_sep(path@[k - 1]),
        forall|j: int| k <= j < path@.len() ==> !is_sep(path@[j]),
        basename(path@) == path@.subrange(k as int, path@.len() as int),
{
    let mut i: usize = path.len();
    while i > 0
        invariant
            i <= path@.len(),
            forall|j: int| i <= j < path@.len() ==> !is_sep(path@[j]),
        decreases i,
    {
        if is_sep_char(path[i - 1]) {
            proof {
                lemma_basename_suffix(path@, i as int);
            }
            return i;
        }
        i = i - 1;
    }
    proof {
        lemma_basename_suffix(path@, 0);
    }
    0
}

/// The exclusion-list names as character vectors.
fn excluded_dir_list() -> (v: Vec<Vec<char>>)
    ensures
        v@.len() == excluded_dir_names().len(),
        forall|i: int| 0 <= i < v@.len() ==> v@[i]@ == excluded_dir_names()[i],
{
    let mut v: Vec<Vec<char>> = Vec::new();
    v.push(str_chars("node_modules"));
    v.push(str_chars(".git"));
    v.push(str_chars(".svn"));
    v.push(str_chars(".hg"));
    v.push(str_chars("target"));
    v.push(str_chars("build"));
    v.push(str_chars("dist"));
    v.push(str_chars(".vscode"));
    v.push(str_chars(".idea"));
    v.push(str_chars("__pycache__"));
    v.push(str_chars(".pytest_cache"));
    v.push(str_chars("coverage"));
    v.push(str_chars(".nyc_output"));
    v.push(str_chars("vendor"));
    v.push(str_chars("deps"));
    v.push(str_chars("cmake-build-debug"));
    v.push(str_chars("cmake-build-release"));
    v
}

/// The excluded file names as character vectors.
fn excluded_file_list() -> (v: Vec<Vec<char>>)
    ensures
        v@.len() == excluded_file_names().len(),
        forall|i: int| 0 <= i < v@.len() ==> v@[i]@ == excluded_file_names()[i],
{
    let mut v: Vec<Vec<char>> = Vec::new();
    v.push(str_chars(".DS_Store"));
    v.push(str_chars("Thumbs.db"));
    v.push(str_chars("desktop.ini"));
    v.push(str_chars("Cargo.lock"));
    v.push(str_chars("package-lock.json"));
    v.push(str_chars("yarn.lock"));
    v.push(str_chars("pnpm-lock.yaml"));
    v.push(str_chars("poetry.lock"));
    v.push(str_chars("Gemfile.lock"));
    v.push(str_chars("composer.lock"));
    v.push(str_chars(".gitignore"));
    v.push(str_chars(".gitattributes"));
    v.push(str_chars(".dockerignore"));
    v.push(str_chars(".npmignore"));
    v.push(str_chars("Dockerfile"));
    v.push(str_chars("docker-compose.yml"));
    v
}

/// The binary extensions as character vectors.
fn binary_extension_list() -> (v: Vec<Vec<char>>)
    ensures
        v@.len() == binary_extension_names().len(),
        forall|i: int| 0 <= i < v@.len() ==> v@[i]@ == binary_extension_names()[i],
{
    let mut v: Vec<Vec<char>> = Vec::new();
    v.push(str_chars("exe"));
    v.push(str_chars("dll"));
    v.push(str_chars("so"));
    v.push(str_chars("dylib"));
    v.push(str_chars("bin"));
    v.push(str_chars("obj"));
    v.push(str_chars("o"));
    v.push(str_chars("a"));
    v.push(str_chars("lib"));
    v.push(str_chars("jpg"));
    v.push(str_chars("jpeg"));
    v.push(str_chars("png"));
    v.push(str_chars("gif"));
    v.push(str_chars("bmp"));
    v.push(str_chars("ico"));
    v.push(str_chars("svg"));
    v.push(str_chars("mp3"));
    v.push(str_chars("mp4"));
    v.push(str_chars("avi"));
    v.push(str_chars("mov"));
    v.push(str_chars("wav"));
    v.push(str_chars("flac"));
    v.push(str_chars("zip"));
    v.push(str_chars("tar"));
    v.push(str_chars("gz"));
    v.push(str_chars("rar"));
    v.push(str_chars("7z"));
    v.push(str_chars("bz2"));
    v.push(str_chars("pdf"));
    v.push(str_chars("doc"));
    v.push(str_chars("docx"));
    v.push(str_chars("xls"));
    v.push(str_chars("xlsx"));
    v.push(str_chars("ppt"));
    v.push(str_chars("pptx"));
    v
}

/// Whether a file should be excluded by its path alone: an excluded
/// directory segment anywhere in the path, or a well-known non-essential
/// file name as its final component.
pub fn should_exclude_file(path: &str) -> (r: bool)
    ensures
        r == is_excluded_path(path@),
{
    let v = str_chars(path);
    let dirs = excluded_dir_list();
    let mut i: usize = 0;
    while i < dirs.len()
        invariant
            dirs@.len() == excluded_dir_names().len(),
            forall|t: int| 0 <= t < dirs@.len() ==> dirs@[t]@ == excluded_dir_names()[t],
            v@ == path@,
            i <= dirs@.len(),
            forall|t: int| 0 <= t < i ==> !has_dir_segment(path@, excluded_dir_names()[t]),
        decreases dirs@.len() - i,
    {
        if has_dir_segment_vec(&v, &dirs[i]) {
            return true;
        }
        i = i + 1;
    }
    let k = basename_start(&v);
    let names = excluded_file_list();
    let mut i: usize = 0;
    while i < names.len()
        invariant
            names@.len() == excluded_file_names().len(),
            forall|t: int| 0 <= t < names@.len() ==> names@[t]@ == excluded_file_names()[t],
            v@ == path@,
            k <= v@.len(),
            basename(path@) == path@.subrange(k as int, path@.len() as int),
            i <= names@.len(),
            forall|t: int| 0 <= t < i ==> excluded_file_names()[t] != basename(path@),
        decreases names@.len() - i,
    {
        if range_eq(&v, k, v.len(), &names[i]) {
            return true;
        }
        i = i + 1;
    }
    false
}

/// Whether the path's final component carries a recognized binary
/// extension, compared case-insensitively.
pub fn has_binary_extension(path: &str) -> (r: bool)
    ensures
        r == spec_has_binary_extension(path@),
{
    let v = str_chars(path);
    let k = basename_start(&v);
    let ghost f = basename(path@);
    // Find the last dot in the final component.
    let mut i: usize = v.len();
    while i > k
        invariant
            k <= i <= v@.len(),
            v@ == path@,
            v@.len() <= usize::MAX,
            k <= v@.len(),
            f == basename(path@),
            f == path@.subrange(k as int, path@.len() as int),
            forall|j: int| i <= j < v@.len() ==> v@[j] != '.',
        decreases i,
    {
        if v[i - 1] == '.' {
            let d = i - 1;
            if d == k {
                // A leading dot alone names a hidden file, not an extension.
                proof {
                    assert forall|j: int| 1 <= j < f.len() implies f[j] != '.' by {
                        assert(f[j] == path@[k + j]);
                    }
                    lemma_ext_none(f);
                }
                return false;
            }
            proof {
                assert(f[d - k] == '.');
                assert forall|j: int| d - k < j < f.len() implies f[j] != '.' by {
                    assert(f[j] == path@[k + j]);
                }
                lemma_ext_at(f, d - k);
                assert(f.subrange(d - k + 1, f.len() as int) =~= path@.subrange(
                    d + 1,
                    path@.len() as int,
                ));
            }
            let exts = binary_extension_list();
            let mut t: usize = 0;
            while t < exts.len()
                invariant
                    exts@.len() == binary_extension_names().len(),
                    forall|u: int| 0 <= u < exts@.len() ==> exts@[u]@ == binary_extension_names()[u],
                    v@ == path@,
                    v@.len() <= usize::MAX,
                    d + 1 <= v@.len(),
                    path_extension(path@) == Some(
                        path@.subrange(d + 1 as int, path@.len() as int),
                    ),
                    t <= exts@.len(),
                    forall|u: int| 0 <= u < t ==> !seq_eq_ci(
                        path@.subrange(d + 1 as int, path@.len() as int),
                        binary_extension_names()[u],
                    ),
                decreases exts@.len() - t,
            {
                if range_eq_ci(&v, d + 1, v.len(), &exts[t]) {
                    return true;
                }
                t = t + 1;
            }
            return false;
        }
        i = i - 1;
    }
    proof {
        assert forall|j: int| 1 <= j < f.len() implies f[j] != '.' by {
            assert(f[j] == path@[k + j]);
        }
        lemma_ext_none(f);
    }
    false
}

} // verus!
