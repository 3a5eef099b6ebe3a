//! The model cache manager: the per-variant catalog of required files, cache
//! location resolution, status computation, the download progress protocol and
//! cache-clear accounting.
//!
//! Everything that touches the filesystem or the network lives in the host
//! application; it probes the disk and hands the findings in as plain values
//! (a [`CacheObservation`], a list of file sizes), and this module decides
//! what they mean.

use vstd::arithmetic::div_mod::{lemma_div_is_ordered, lemma_multiply_divide_lt};
use vstd::prelude::*;
use vstd::string::StringExecFns;

use crate::settings::ModelVariant;

verus! {

/// Errors that can occur during model operations.
#[derive(Debug, Clone, PartialEq)]
pub enum ModelError {
    /// A file transfer or copy failed; the message names the file.
    DownloadFailed(String),
    /// A filesystem operation failed.
    IoError(String),
    /// Any other failure, such as an unresolvable cache location.
    Other(String),
}

/// Status of a model on the system, recomputed from filesystem state at
/// query time. `Downloading` is observed only through the progress-event
/// stream, never persisted.
#[derive(Debug, Clone, PartialEq)]
pub enum ModelStatus {
    NotDownloaded,
    Downloading { progress_percent: u8 },
    Ready,
    Error { message: String },
}

/// Configuration for a specific model variant: its remote repository, the
/// files it requires on disk, and its expected total size.
pub struct ModelConfig {
    pub variant: ModelVariant,
    pub hf_repo: String,
    pub files: Vec<String>,
    pub total_size_bytes: u64,
}

/// One download progress event: emitted once before each file's transfer and
/// once at completion.
#[derive(Debug, Clone, PartialEq)]
pub struct DownloadProgress {
    /// 1-based index of the file the event announces.
    pub current_file: usize,
    /// Total number of files in this download; constant across one run.
    pub total_files: usize,
    /// Name of the announced file, or a sentinel on the completion event.
    pub file_name: String,
    /// Percent complete so far: 0 on the first event, 100 on the last.
    pub progress_percent: u8,
}

/// What a probe of one variant's cache directory found. The host gathers this
/// with plain stat calls and hands it in.
#[derive(Debug, Clone, PartialEq)]
pub enum CacheObservation {
    /// The cache location could not be resolved; the message says why.
    Unresolved { message: String },
    /// The variant directory does not exist.
    Missing,
    /// The variant directory exists and holds exactly these entries.
    Present { files: Vec<String> },
}

/// The remote repository identifier of a variant.
pub open spec fn repo_for(v: ModelVariant) -> Seq<char> {
    match v {
        ModelVariant::Qwen2VL2B => "Qwen/Qwen2-VL-2B-Instruct"@,
        ModelVariant::Qwen2VL7B => "Qwen/Qwen2-VL-7B-Instruct"@,
        ModelVariant::Qwen2VL72B => "Qwen/Qwen2-VL-72B-Instruct"@,
    }
}

/// The ordered list of files a variant requires on disk.
pub open spec fn files_for(v: ModelVariant) -> Seq<Seq<char>> {
    match v {
        ModelVariant::Qwen2VL2B => seq![
            "config.json"@,
            "model.safetensors"@,
            "tokenizer.json"@,
            "tokenizer_config.json"@,
        ],
        ModelVariant::Qwen2VL7B => seq![
            "chat_template.json"@,
            "config.json"@,
            "generation_config.json"@,
            "merges.txt"@,
            "model-00001-of-00004.safetensors"@,
            "model-00002-of-00004.safetensors"@,
            "model-00003-of-00004.safetensors"@,
            "model-00004-of-00004.safetensors"@,
            "model.safetensors.index.json"@,
            "preprocessor_config.json"@,
            "tokenizer.json"@,
            "tokenizer_config.json"@,
            "vocab.json"@,
        ],
        ModelVariant::Qwen2VL72B => seq![
            "chat_template.json"@,
            "config.json"@,
            "generation_config.json"@,
            "merges.txt"@,
            "model.safetensors.index.json"@,
            "preprocessor_config.json"@,
            "tokenizer.json"@,
            "tokenizer_config.json"@,
            "vocab.json"@,
        ],
    }
}

/// The expected total size of a variant's files, in bytes.
pub open spec fn total_size_for(v: ModelVariant) -> u64 {
    match v {
        ModelVariant::Qwen2VL2B => 4_500_000_000,
        ModelVariant::Qwen2VL7B => 15_000_000_000,
        ModelVariant::Qwen2VL72B => 146_000_000_000,
    }
}

/// The stable directory name of a variant under the cache root.
pub open spec fn variant_slug(v: ModelVariant) -> Seq<char> {
    match v {
        ModelVariant::Qwen2VL2B => "qwen2-vl-2b"@,
        ModelVariant::Qwen2VL7B => "qwen2-vl-7b"@,
        ModelVariant::Qwen2VL72B => "qwen2-vl-72b"@,
    }
}

impl ModelConfig {
    /// Create the configuration for the specified variant. The catalog is
    /// fixed per build: every variant has a non-empty file list and a
    /// strictly positive expected size.
    pub fn from_variant(variant: ModelVariant) -> (r: Self)
        ensures
            r.variant == variant,
            r.hf_repo@ == repo_for(variant),
            r.files.deep_view() == files_for(variant),
            r.files@.len() == files_for(variant).len(),
            r.total_size_bytes == total_size_for(variant),
            r.files@.len() >= 1,
            r.total_size_bytes > 0,
    {
        match variant {
            ModelVariant::Qwen2VL2B => {
                let mut files: Vec<String> = Vec::new();
                files.push(String::from_str("config.json"));
                files.push(String::from_str("model.safetensors"));
                files.push(String::from_str("tokenizer.json"));
                files.push(String::from_str("tokenizer_config.json"));
                assert(files.deep_view() =~~= files_for(variant));
                ModelConfig {
                    variant,
                    hf_repo: String::from_str("Qwen/Qwen2-VL-2B-Instruct"),
                    files,
                    total_size_bytes: 4_500_000_000,
                }
            },
            ModelVariant::Qwen2VL7B => {
                let mut files: Vec<String> = Vec::new();
                files.push(String::from_str("chat_template.json"));
                files.push(String::from_str("config.json"));
                files.push(String::from_str("generation_config.json"));
                files.push(String::from_str("merges.txt"));
                files.push(String::from_str("model-00001-of-00004.safetensors"));
                files.push(String::from_str("model-00002-of-00004.safetensors"));
                files.push(String::from_str("model-00003-of-00004.safetensors"));
                files.push(String::from_str("model-00004-of-00004.safetensors"));
                files.push(String::from_str("model.safetensors.index.json"));
                files.push(String::from_str("preprocessor_config.json"));
                files.push(String::from_str("tokenizer.json"));
                files.push(String::from_str("tokenizer_config.json"));
                files.push(String::from_str("vocab.json"));
                assert(files.deep_view() =~~= files_for(variant));
                ModelConfig {
                    variant,
                    hf_repo: String::from_str("Qwen/Qwen2-VL-7B-Instruct"),
                    files,
                    total_size_bytes: 15_000_000_000,
                }
            },
            ModelVariant::Qwen2VL72B => {
                let mut files: Vec<String> = Vec::new();
                files.push(String::from_str("chat_template.json"));
                files.push(String::from_str("config.json"));
                files.push(String::from_str("generation_config.json"));
                files.push(String::from_str("merges.txt"));
                files.push(String::from_str("model.safetensors.index.json"));
                files.push(String::from_str("preprocessor_config.json"));
                files.push(String::from_str("tokenizer.json"));
                files.push(String::from_str("tokenizer_config.json"));
                files.push(String::from_str("vocab.json"));
                assert(files.deep_view() =~~= files_for(variant));
                ModelConfig {
                    variant,
                    hf_repo: String::from_str("Qwen/Qwen2-VL-72B-Instruct"),
                    files,
                    total_size_bytes: 146_000_000_000,
                }
            },
        }
    }
}

/// Relies on `dirs::cache_dir`: the platform's user cache directory, if one
/// can be determined (here as a UTF-8 string).
#[verifier::external_body]
fn platform_cache_dir() -> (r: Option<String>) {
    dirs::cache_dir().and_then(|p| p.into_os_string().into_string().ok())
}

/// The fixed path segments under the platform cache directory where all
/// variant directories live.
pub open spec fn cache_namespace() -> Seq<char> {
    "/rzem-mj-lora/models"@
}

/// The resolution step of the cache root, separated from the platform probe
/// so that it is fixed for every probe outcome: a probed directory is joined
/// with the application namespace, and an undetermined platform directory is
/// the location error, if and only if.
pub fn resolve_cache_root(platform: Option<String>) -> (r: Result<String, ModelError>)
    ensures
        platform matches Some(base) ==> (r matches Ok(p) && p@ == base@ + cache_namespace()),
        platform is None ==> (r matches Err(e) && ({
            &&& e matches ModelError::Other(m)
            &&& m@ == "Failed to get cache directory"@
        })),
{
    match platform {
        Some(base) => {
            let ghost b = base@;
            let mut p = base;
            p.append("/rzem-mj-lora/models");
            proof {
                assert(p@ == b + cache_namespace());
            }
            Ok(p)
        },
        None => Err(ModelError::Other(String::from_str("Failed to get cache directory"))),
    }
}

/// Resolve the model cache root. A supplied override is returned verbatim;
/// otherwise the platform cache directory joined with the application
/// namespace is used, as `resolve_cache_root` fixes it. Creating missing
/// directories is the caller's work.
pub fn get_model_cache_dir(custom_dir: Option<String>) -> (r: Result<String, ModelError>)
    ensures
        custom_dir matches Some(d) ==> r matches Ok(p) && p == d,
        custom_dir is None ==> (r matches Ok(p) ==> exists|base: Seq<char>|
            p@ == base + cache_namespace()),
        r matches Err(e) ==> ({
            &&& custom_dir is None
            &&& e matches ModelError::Other(m)
            &&& m@ == "Failed to get cache directory"@
        }),
{
    match custom_dir {
        Some(dir) => Ok(dir),
        None => {
            resolve_cache_root(platform_cache_dir())
        },
    }
}

/// The full path for a specific model variant: the cache root joined with
/// the variant's slug.
pub fn get_model_path(variant: ModelVariant, custom_dir: Option<String>) -> (r: Result<
    String,
    ModelError,
>)
    ensures
        custom_dir matches Some(d) ==> r matches Ok(p) && p@ == d@ + "/"@ + variant_slug(variant),
        custom_dir is None ==> (r matches Ok(p) ==> exists|base: Seq<char>|
            p@ == base + cache_namespace() + "/"@ + variant_slug(variant)),
        r matches Err(e) ==> ({
            &&& custom_dir is None
            &&& e matches ModelError::Other(m)
            &&& m@ == "Failed to get cache directory"@
        }),
{
    let ghost was_custom = custom_dir is Some;
    let root = match get_model_cache_dir(custom_dir) {
        Ok(root) => root,
        Err(e) => {
            return Err(e);
        },
    };
    let ghost ro = root@;
    let mut p = root;
    p.append("/");
    match variant {
        ModelVariant::Qwen2VL2B => p.append("qwen2-vl-2b"),
        ModelVariant::Qwen2VL7B => p.append("qwen2-vl-7b"),
        ModelVariant::Qwen2VL72B => p.append("qwen2-vl-72b"),
    }
    proof {
        assert(p@ == ro + "/"@ + variant_slug(variant));
        if !was_custom {
            let base = choose|base: Seq<char>| ro == base + cache_namespace();
            assert(p@ == base + cache_namespace() + "/"@ + variant_slug(variant));
        }
    }
    Ok(p)
}

/// Every required file of `required` occurs in `present`.
pub open spec fn all_files_present(required: Seq<Seq<char>>, present: Seq<Seq<char>>) -> bool {
    forall|i: int| 0 <= i < required.len() ==> present.contains(required[i])
}

/// Index of the first file of `required`, at or after `from`, that does not
/// occur in `present`; `required.len()` if every one does.
pub open spec fn first_missing_from(
    required: Seq<Seq<char>>,
    present: Seq<Seq<char>>,
    from: int,
) -> int
    recommends
        0 <= from <= required.len(),
    decreases required.len() - from
        when from <= required.len()
{
    if from >= required.len() {
        from
    } else if !present.contains(required[from]) {
        from
    } else {
        first_missing_from(required, present, from + 1)
    }
}

/// `first_missing_from` is pinned down by what lies before and at a position:
/// if everything from `from` up to `k` is present and `k` itself is missing
/// (or is the end), the first missing index is `k`.
proof fn lemma_first_missing_from_is(
    required: Seq<Seq<char>>,
    present: Seq<Seq<char>>,
    from: int,
    k: int,
)
    requires
        0 <= from <= k <= required.len(),
        forall|j: int| from <= j < k ==> present.contains(required[j]),
        k < required.len() ==> !present.contains(required[k]),
    ensures
        first_missing_from(required, present, from) == k,
    decreases k - from,
{
    if from < k {
        lemma_first_missing_from_is(required, present, from + 1, k);
    }
}

/// When exactly one required file is absent, the first missing index is that
/// file's: the error that the status check reports names the absent file.
pub proof fn lemma_single_missing_named(
    required: Seq<Seq<char>>,
    present: Seq<Seq<char>>,
    i: int,
)
    requires
        0 <= i < required.len(),
        forall|j: int| 0 <= j < required.len() && j != i ==> present.contains(required[j]),
        !present.contains(required[i]),
    ensures
        first_missing_from(required, present, 0) == i,
{
    lemma_first_missing_from_is(required, present, 0, i);
}

/// The status-check error message for a missing file.
pub open spec fn missing_file_message(name: Seq<char>) -> Seq<char> {
    "Missing required file: "@ + name
}

/// The status-check error message for an unresolvable model path.
pub open spec fn unresolved_message(detail: Seq<char>) -> Seq<char> {
    "Failed to determine model path: "@ + detail
}

/// Whether `x` occurs in `v`.
fn contains_string(v: &Vec<String>, x: &String) -> (r: bool)
    ensures
        r == v.deep_view().contains(x@),
{
    let n = v.len();
    let mut i: usize = 0;
    while i < n
        invariant
            i <= n,
            n == v@.len(),
            forall|j: int| 0 <= j < i ==> v.deep_view()[j] != x@,
        decreases n - i,
    {
        if v[i] == *x {
            assert(v.deep_view()[i as int] == x@);
            return true;
        }
        i += 1;
    }
    assert(!v.deep_view().contains(x@));
    false
}

/// Check the status of a model variant against what a probe of its cache
/// directory found. No side effects: the decision is a pure function of the
/// observation.
///
/// The contract carries the status laws: an absent directory is always
/// `NotDownloaded` (for every variant, however empty the cache root is); a
/// directory holding every required file is `Ready`, and only such a
/// directory is; a directory missing files yields an error naming the first
/// missing file in catalog order (the check short-circuits).
#[verifier::loop_isolation(false)]
pub fn check_model_status(variant: ModelVariant, obs: &CacheObservation) -> (r: ModelStatus)
    ensures
        obs matches CacheObservation::Unresolved { message } ==> r matches ModelStatus::Error {
            message: m,
        } && m@ == unresolved_message(message@),
        obs is Missing ==> r is NotDownloaded,
        obs matches CacheObservation::Present { files } ==> (all_files_present(
            files_for(variant),
            files.deep_view(),
        ) ==> r is Ready),
        obs matches CacheObservation::Present { files } ==> (!all_files_present(
            files_for(variant),
            files.deep_view(),
        ) ==> {
            let k = first_missing_from(files_for(variant), files.deep_view(), 0);
            &&& 0 <= k < files_for(variant).len()
            &&& (r matches ModelStatus::Error { message: m } && m@ == missing_file_message(
                files_for(variant)[k],
            ))
        }),
        r is Ready <==> (obs matches CacheObservation::Present { files } && all_files_present(
            files_for(variant),
            files.deep_view(),
        )),
{
    match obs {
        CacheObservation::Unresolved { message } => {
            let m = String::from_str("Failed to determine model path: ").concat(message.as_str());
            ModelStatus::Error { message: m }
        },
        CacheObservation::Missing => ModelStatus::NotDownloaded,
        CacheObservation::Present { files } => {
            let config = ModelConfig::from_variant(variant);
            let n = config.files.len();
            let mut i: usize = 0;
            while i < n
                invariant
                    i <= n,
                    n == config.files@.len(),
                    config.files.deep_view() == files_for(variant),
                    n == files_for(variant).len(),
                    forall|j: int|
                        0 <= j < i ==> files.deep_view().contains(files_for(variant)[j]),
                decreases n - i,
            {
                if !contains_string(files, &config.files[i]) {
                    proof {
                        assert(config.files.deep_view()[i as int] == config.files@[i as int]@);
                        lemma_first_missing_from_is(
                            files_for(variant),
                            files.deep_view(),
                            0,
                            i as int,
                        );
                    }
                    let m = String::from_str("Missing required file: ").concat(
                        config.files[i].as_str(),
                    );
                    return ModelStatus::Error { message: m };
                }
                proof {
                    assert(config.files.deep_view()[i as int] == config.files@[i as int]@);
                }
                i += 1;
            }
            ModelStatus::Ready
        },
    }
}

/// The progress message for the download step that fetches one file, naming
/// the file and the underlying failure.
pub open spec fn fetch_error_message(file: Seq<char>, detail: Seq<char>) -> Seq<char> {
    "Failed to download "@ + file + ": "@ + detail
}

/// The message for a failure to place a fetched file in the model directory.
pub open spec fn copy_error_message(file: Seq<char>, detail: Seq<char>) -> Seq<char> {
    "Failed to copy "@ + file + " to model directory: "@ + detail
}

/// The download error for a file whose transfer failed, naming the file.
pub fn download_fetch_error(file: &str, detail: &str) -> (r: ModelError)
    ensures
        r matches ModelError::DownloadFailed(m) && m@ == fetch_error_message(file@, detail@),
{
    let mut m = String::from_str("Failed to download ");
    m.append(file);
    m.append(": ");
    m.append(detail);
    ModelError::DownloadFailed(m)
}

/// The download error for a fetched file that could not be placed in the
/// model directory, naming the file.
pub fn download_copy_error(file: &str, detail: &str) -> (r: ModelError)
    ensures
        r matches ModelError::DownloadFailed(m) && m@ == copy_error_message(file@, detail@),
{
    let mut m = String::from_str("Failed to copy ");
    m.append(file);
    m.append(" to model directory: ");
    m.append(detail);
    ModelError::DownloadFailed(m)
}

/// The full sequence of progress events for one download run of `config`, in
/// order: one event announcing each file before its transfer, then one
/// completion event.
///
/// The contract carries the progress protocol: for `M` files there are
/// exactly `M + 1` events; the first event reports 0 percent and
/// `current_file` 1; every event reports the same `total_files`; the percent
/// is non-decreasing along the run; the final event reports 100 percent and
/// the sentinel name.
pub fn download_events(config: &ModelConfig) -> (r: Vec<DownloadProgress>)
    requires
        config.files@.len() >= 1,
    ensures
        r@.len() == config.files@.len() + 1,
        forall|i: int|
            0 <= i < config.files@.len() ==> {
                &&& (#[trigger] r@[i]).current_file == i + 1
                &&& r@[i].total_files == config.files@.len()
                &&& r@[i].file_name == config.files@[i]
                &&& r@[i].progress_percent as int == (i * 100) / (config.files@.len() as int)
            },
        r@[0].progress_percent == 0,
        r@[r@.len() - 1].current_file == config.files@.len(),
        r@[r@.len() - 1].total_files == config.files@.len(),
        r@[r@.len() - 1].file_name@ == "Complete"@,
        r@[r@.len() - 1].progress_percent == 100,
        forall|i: int, j: int|
            0 <= i <= j < r@.len() ==> (#[trigger] r@[i]).progress_percent <= (
            #[trigger] r@[j]).progress_percent,
{
    let n = config.files.len();
    let mut events: Vec<DownloadProgress> = Vec::new();
    let mut i: usize = 0;
    while i < n
        invariant
            i <= n,
            n == config.files@.len(),
            1 <= n,
            events@.len() == i,
            forall|k: int|
                0 <= k < i ==> {
                    &&& (#[trigger] events@[k]).current_file == k + 1
                    &&& events@[k].total_files == n
                    &&& events@[k].file_name == config.files@[k]
                    &&& events@[k].progress_percent as int == (k * 100) / (n as int)
                },
        decreases n - i,
    {
        proof {
            lemma_multiply_divide_lt(i as int * 100, n as int, 100);
        }
        let pct = ((i as u128) * 100 / (n as u128)) as u8;
        events.push(
            DownloadProgress {
                current_file: i + 1,
                total_files: n,
                file_name: config.files[i].clone(),
                progress_percent: pct,
            },
        );
        i += 1;
    }
    events.push(
        DownloadProgress {
            current_file: n,
            total_files: n,
            file_name: String::from_str("Complete"),
            progress_percent: 100,
        },
    );
    proof {
        assert forall|i: int, j: int|
            0 <= i <= j < events@.len() implies (#[trigger] events@[i]).progress_percent <= (
        #[trigger] events@[j]).progress_percent by {
            if j < events@.len() - 1 {
                lemma_div_is_ordered(i * 100, j * 100, n as int);
            } else if i < events@.len() - 1 {
                lemma_multiply_divide_lt(i * 100, n as int, 100);
            }
        }
    }
    events
}

/// The sum of a sequence of byte counts.
pub open spec fn sum_bytes(s: Seq<u64>) -> int
    decreases s.len(),
{
    if s.len() == 0 {
        0
    } else {
        sum_bytes(s.drop_last()) + s.last()
    }
}

proof fn lemma_sum_take_step(s: Seq<u64>, i: int)
    requires
        0 <= i < s.len(),
    ensures
        sum_bytes(s.take(i + 1)) == sum_bytes(s.take(i)) + s[i],
{
    assert(s.take(i + 1).drop_last() =~= s.take(i));
}

proof fn lemma_sum_take_bound(s: Seq<u64>, i: int)
    requires
        0 <= i <= s.len(),
    ensures
        sum_bytes(s.take(i)) <= sum_bytes(s),
    decreases s.len() - i,
{
    if i == s.len() {
        assert(s.take(i) =~= s);
    } else {
        lemma_sum_take_step(s, i);
        lemma_sum_take_bound(s, i + 1);
    }
}

/// A directory tree under the cache root, as the clearing walk finds it:
/// regular files with their sizes, and directories holding further entries.
/// The model of what a clear acts on, at any nesting depth.
pub enum CacheTree {
    File { size: u64 },
    Dir { entries: Seq<CacheTree> },
}

/// The total byte size of the regular files of a tree, at any depth;
/// directories themselves count nothing.
pub open spec fn tree_total(t: CacheTree) -> int
    decreases t,
{
    match t {
        CacheTree::File { size } => size as int,
        CacheTree::Dir { entries } => forest_total(entries),
    }
}

/// The total byte size of the files of a sequence of trees.
pub open spec fn forest_total(s: Seq<CacheTree>) -> int
    decreases s,
{
    if s.len() == 0 {
        0
    } else {
        tree_total(s[0]) + forest_total(s.drop_first())
    }
}

/// The sizes of a tree's regular files, flattened in walk order: what the
/// host's recursive walk hands to `clear_model_cache`.
pub open spec fn tree_files(t: CacheTree) -> Seq<u64>
    decreases t,
{
    match t {
        CacheTree::File { size } => seq![size],
        CacheTree::Dir { entries } => forest_files(entries),
    }
}

/// The flattened file sizes of a sequence of trees.
pub open spec fn forest_files(s: Seq<CacheTree>) -> Seq<u64>
    decreases s,
{
    if s.len() == 0 {
        Seq::empty()
    } else {
        tree_files(s[0]) + forest_files(s.drop_first())
    }
}

/// Splitting a size list anywhere splits its sum.
proof fn lemma_sum_bytes_concat(a: Seq<u64>, b: Seq<u64>)
    ensures
        sum_bytes(a + b) == sum_bytes(a) + sum_bytes(b),
    decreases b.len(),
{
    if b.len() == 0 {
        assert(a + b =~= a);
    } else {
        assert((a + b).drop_last() =~= a + b.drop_last());
        lemma_sum_bytes_concat(a, b.drop_last());
    }
}

/// Clearing a cache root frees exactly its total size, however deep the
/// directory tree nests: the flattened sizes that the walk hands to
/// `clear_model_cache` sum to exactly the total of the tree's regular files,
/// so (by that function's contract) a root holding `t` frees `tree_total(t)`
/// bytes whenever that fits in 64 bits.
pub proof fn lemma_clear_frees_tree_total(t: CacheTree)
    ensures
        sum_bytes(tree_files(t)) == tree_total(t),
    decreases t,
{
    match t {
        CacheTree::File { size } => {
            assert(seq![size].drop_last() =~= Seq::<u64>::empty());
            assert(sum_bytes(Seq::<u64>::empty()) == 0);
            assert(sum_bytes(seq![size]) == size);
        },
        CacheTree::Dir { entries } => {
            lemma_clear_frees_forest_total(entries);
        },
    }
}

proof fn lemma_clear_frees_forest_total(s: Seq<CacheTree>)
    ensures
        sum_bytes(forest_files(s)) == forest_total(s),
    decreases s,
{
    if s.len() != 0 {
        lemma_clear_frees_tree_total(s[0]);
        lemma_clear_frees_forest_total(s.drop_first());
        lemma_sum_bytes_concat(tree_files(s[0]), forest_files(s.drop_first()));
    }
}

/// The outcome of clearing the whole model cache, decided from what a
/// recursive walk of the cache root found: `None` when the root does not
/// exist, otherwise the sizes of every regular file under it, at any
/// directory depth. Deleting the root afterwards is the host's work.
///
/// The contract carries the clearing laws: a non-existent root frees 0 bytes
/// and is no error; an existing root frees exactly the total of the observed
/// file sizes.
#[verifier::loop_isolation(false)]
pub fn clear_model_cache(observed: Option<Vec<u64>>) -> (r: Result<u64, ModelError>)
    ensures
        observed is None ==> (r matches Ok(freed) && freed == 0),
        observed matches Some(sizes) ==> (sum_bytes(sizes@) <= u64::MAX ==> (r matches Ok(freed)
            && freed == sum_bytes(sizes@))),
        observed matches Some(sizes) ==> (sum_bytes(sizes@) > u64::MAX ==> (r matches Err(e)
            && e is IoError)),
{
    match observed {
        None => Ok(0),
        Some(sizes) => {
            let n = sizes.len();
            let mut total: u64 = 0;
            let mut i: usize = 0;
            while i < n
                invariant
                    i <= n,
                    n == sizes@.len(),
                    total == sum_bytes(sizes@.take(i as int)),
                decreases n - i,
            {
                let sz = sizes[i];
                proof {
                    lemma_sum_take_step(sizes@, i as int);
                }
                if total <= u64::MAX - sz {
                    total += sz;
                    i += 1;
                } else {
                    proof {
                        lemma_sum_take_bound(sizes@, i + 1 as int);
                    }
                    return Err(
                        ModelError::IoError(
                            String::from_str("cache size total does not fit in 64 bits"),
                        ),
                    );
                }
            }
            proof {
                assert(sizes@.take(n as int) =~= sizes@);
            }
            Ok(total)
        },
    }
}

} // verus!
