//! Model Manager
//!
//! Where models are stored (`{data dir}/stttts/{type}/...`), which directory
//! of an unpacked archive holds the files, and how a download is planned and
//! checked.

use vstd::prelude::*;
use vstd::string::StringExecFns;
use crate::domain::models::{ModelType, default_model_name_of, subdirectory_of};
use crate::utils::chars::chars_of;
use crate::utils::path::{join, path_exists, path_is_file, path_join};

verus! {

/// Model Manager: the models directory.
pub struct ModelManager {
    models_dir: String,
}

/// Picks the archive subdirectory when it exists, else the base directory.
pub open spec fn model_dir_choice(base: Seq<char>, subdir: Seq<char>, subdir_exists: bool) -> Seq<char> {
    if subdir_exists {
        subdir
    } else {
        base
    }
}

/// Picks the directory that holds a model's files: the archive's own
/// subdirectory when it exists, otherwise the base directory.
pub fn resolve_model_dir(base: String, subdir: String, subdir_exists: bool) -> (r: String)
    ensures
        r@ == model_dir_choice(base@, subdir@, subdir_exists),
{
    if subdir_exists {
        subdir
    } else {
        base
    }
}

/// The files are looked for in the archive subdirectory exactly when it
/// exists, and otherwise in the base directory.
pub proof fn law_model_dir_follows_disk(base: Seq<char>, subdir: Seq<char>, subdir_exists: bool)
    requires
        base != subdir,
    ensures
        (model_dir_choice(base, subdir, subdir_exists) == subdir) == subdir_exists,
        (model_dir_choice(base, subdir, subdir_exists) == base) == !subdir_exists,
{
}

impl ModelManager {
    /// The models directory.
    pub closed spec fn dir(&self) -> Seq<char> {
        self.models_dir@
    }

    /// A manager that stores models under `{data_dir}/stttts`.
    pub fn from_data_dir(data_dir: &str) -> (r: Self)
        ensures
            r.dir() == path_join(data_dir@, "stttts"@),
    {
        ModelManager { models_dir: join(data_dir, "stttts") }
    }

    /// Get the models directory path
    pub fn models_dir(&self) -> (r: &str)
        ensures
            r@ == self.dir(),
    {
        self.models_dir.as_str()
    }

    /// Get the path for a specific model type
    pub fn model_path(&self, model_type: &ModelType) -> (r: String)
        ensures
            r@ == path_join(self.dir(), subdirectory_of(*model_type)),
    {
        join(self.models_dir.as_str(), model_type.subdirectory())
    }

    /// Get the actual model directory (handles subdirectories from archives):
    /// `{model_path}/{default model name}` when it exists, else the model path.
    pub fn actual_model_path(&self, model_type: &ModelType) -> (r: String)
        ensures
            r@ == path_join(path_join(self.dir(), subdirectory_of(*model_type)), default_model_name_of(*model_type))
                || r@ == path_join(self.dir(), subdirectory_of(*model_type)),
    {
        let base = self.model_path(model_type);
        let subdir = join(base.as_str(), model_type.default_model_name());
        let exists = path_exists(subdir.as_str());
        resolve_model_dir(base, subdir, exists)
    }

    /// Get the path to a specific model file
    pub fn get_model_file(&self, model_type: &ModelType, filename: &str) -> (r: String)
        ensures
            r@ == path_join(path_join(path_join(self.dir(), subdirectory_of(*model_type)), default_model_name_of(*model_type)), filename@)
                || r@ == path_join(path_join(self.dir(), subdirectory_of(*model_type)), filename@),
    {
        let dir = self.actual_model_path(model_type);
        join(dir.as_str(), filename)
    }

    /// Find the actual model path (handles subdirectories from archives):
    /// `{base_path}/{model_id}` when it exists, else `base_path`.
    pub fn find_actual_model_path(&self, base_path: &str, model_id: &str) -> (r: String)
        ensures
            r@ == path_join(base_path@, model_id@) || r@ == base_path@,
    {
        let subdir = join(base_path, model_id);
        let exists = path_exists(subdir.as_str());
        resolve_model_dir(base_path.to_owned(), subdir, exists)
    }
}

/// Whether a model is complete, from what the disk said: its directory
/// exists, the directory that holds its files exists, and each required file
/// is a regular file (`files_ok`, in order; checking stops at the first
/// missing one).
pub fn model_files_present(dir_exists: bool, actual_exists: bool, files_ok: &[bool]) -> (r: bool)
    ensures
        r == (dir_exists && actual_exists && forall|i: int| 0 <= i < files_ok@.len() ==> files_ok@[i]),
{
    if !dir_exists || !actual_exists {
        return false;
    }
    let mut i: usize = 0;
    while i < files_ok.len()
        invariant
            i <= files_ok@.len(),
            forall|k: int| 0 <= k < i ==> files_ok@[k],
        decreases files_ok.len() - i,
    {
        if !files_ok[i] {
            return false;
        }
        i += 1;
    }
    true
}

impl ModelManager {
    /// Whether a model directory holds every file its type requires, in the
    /// directory itself or in the archive subdirectory named after the
    /// default model. The disk answers each existence check; the verdict on
    /// those answers is `model_files_present`.
    pub fn check_model_files(&self, model_path: &str, model_type: &ModelType) -> bool {
        let dir_exists = path_exists(model_path);
        let mut actual_exists = false;
        let mut files_ok: Vec<bool> = Vec::new();
        if dir_exists {
            let subdir = join(model_path, model_type.default_model_name());
            let sub_exists = path_exists(subdir.as_str());
            let actual = resolve_model_dir(model_path.to_owned(), subdir, sub_exists);
            actual_exists = path_exists(actual.as_str());
            if actual_exists {
                let files = model_type.required_files();
                let mut i: usize = 0;
                while i < files.len()
                    decreases files.len() - i,
                {
                    let p = join(actual.as_str(), files[i]);
                    let ok = path_exists(p.as_str()) && path_is_file(p.as_str());
                    files_ok.push(ok);
                    if !ok {
                        break;
                    }
                    i += 1;
                }
            }
        }
        model_files_present(dir_exists, actual_exists, files_ok.as_slice())
    }
}

/// Why a model could not be made ready.
#[derive(Debug, Clone, Copy, PartialEq, Eq, Structural)]
pub enum EnsureError {
    /// The download of a required model failed.
    DownloadFailed,
    /// A required model still misses files after its download.
    Incomplete,
}

/// Judges a model's download: `Ok(true)` when the model is complete,
/// `Ok(false)` when the optional voice-activity model stays missing (the
/// service works without it), an error for a required model.
pub fn after_download(model_type: &ModelType, download_ok: bool, present_after: bool) -> (r: Result<bool, EnsureError>)
    ensures
        download_ok && present_after ==> r == Ok::<bool, EnsureError>(true),
        !(download_ok && present_after) && *model_type == ModelType::Vad ==> r == Ok::<bool, EnsureError>(false),
        !download_ok && *model_type != ModelType::Vad ==> r == Err::<bool, EnsureError>(EnsureError::DownloadFailed),
        download_ok && !present_after && *model_type != ModelType::Vad ==> r == Err::<bool, EnsureError>(EnsureError::Incomplete),
{
    let optional = match model_type {
        ModelType::Vad => true,
        _ => false,
    };
    if !download_ok {
        if optional { Ok(false) } else { Err(EnsureError::DownloadFailed) }
    } else if !present_after {
        if optional { Ok(false) } else { Err(EnsureError::Incomplete) }
    } else {
        Ok(true)
    }
}

impl ModelManager {
    /// Where the TTS model of a language is unpacked: `{models_dir}/tts/{lang}`.
    pub fn tts_model_dir(&self, lang_code: &str) -> (r: String)
        ensures
            r@ == path_join(path_join(self.dir(), "tts"@), lang_code@),
    {
        let tts = join(self.models_dir.as_str(), "tts");
        join(tts.as_str(), lang_code)
    }

    /// Where a Whisper model is unpacked: `{models_dir}/whisper/{model_id}`.
    pub fn stt_model_dir(&self, model_id: &str) -> (r: String)
        ensures
            r@ == path_join(path_join(self.dir(), "whisper"@), model_id@),
    {
        let whisper = join(self.models_dir.as_str(), "whisper");
        join(whisper.as_str(), model_id)
    }

    /// The directory holding the files of a language's TTS model.
    pub fn get_tts_model_path(&self, lang_code: &str, model_id: &str) -> (r: String)
        ensures
            ({
                let base = path_join(path_join(self.dir(), "tts"@), lang_code@);
                r@ == path_join(base, model_id@) || r@ == base
            }),
    {
        let base = self.tts_model_dir(lang_code);
        self.find_actual_model_path(base.as_str(), model_id)
    }

    /// The directory holding the files of a Whisper model.
    pub fn get_stt_model_path(&self, model_id: &str) -> (r: String)
        ensures
            ({
                let base = path_join(path_join(self.dir(), "whisper"@), model_id@);
                r@ == path_join(base, model_id@) || r@ == base
            }),
    {
        let base = self.stt_model_dir(model_id);
        self.find_actual_model_path(base.as_str(), model_id)
    }
}

/// How a model is fetched.
#[derive(Debug, Clone, PartialEq, Eq)]
pub enum DownloadPlan {
    /// A single `.onnx` file, saved under this name.
    SingleFile { filename: String },
    /// A `.tar.bz2` archive, saved under this name and unpacked.
    Archive { archive_name: String },
}

/// The text after the last `/` of `s` (all of `s` when it has none).
pub open spec fn last_segment(s: Seq<char>) -> Seq<char> {
    if exists|i: int| 0 <= i < s.len() && s[i] == '/' {
        let i = choose|i: int| 0 <= i < s.len() && s[i] == '/' && forall|k: int| i < k < s.len() ==> s[k] != '/';
        s.skip(i + 1)
    } else {
        s
    }
}

/// Whether `s` ends with `suffix`.
pub open spec fn ends_with(s: Seq<char>, suffix: Seq<char>) -> bool {
    suffix.len() <= s.len() && s.skip(s.len() - suffix.len()) == suffix
}

/// The plan for a URL: a single file (named by the URL's last segment) when
/// the URL ends with `.onnx`, otherwise the archive `{model_id}.tar.bz2`.
pub open spec fn download_plan_of(url: Seq<char>, model_id: Seq<char>) -> (bool, Seq<char>) {
    if ends_with(url, ".onnx"@) {
        (true, last_segment(url))
    } else {
        (false, model_id + ".tar.bz2"@)
    }
}

pub(crate) fn chars_end_with(s: &[char], suffix: &[char]) -> (r: bool)
    ensures
        r == ends_with(s@, suffix@),
{
    if suffix.len() > s.len() {
        return false;
    }
    let n = s.len();
    let off = n - suffix.len();
    let mut i: usize = 0;
    while i < suffix.len()
        invariant
            i <= suffix@.len(),
            n == s@.len(),
            off + suffix@.len() == s@.len(),
            forall|k: int| 0 <= k < i ==> s@[off + k] == suffix@[k],
        decreases suffix.len() - i,
    {
        if s[off + i] != suffix[i] {
            assert(s@.skip(off as int)[i as int] != suffix@[i as int]);
            return false;
        }
        i += 1;
    }
    assert(s@.skip(off as int) =~= suffix@);
    true
}

/// Plans the download of a model from `url`.
pub fn download_plan(url: &str, model_id: &str) -> (r: DownloadPlan)
    ensures
        match r {
            DownloadPlan::SingleFile { filename } => download_plan_of(url@, model_id@) == (true, filename@),
            DownloadPlan::Archive { archive_name } => download_plan_of(url@, model_id@) == (false, archive_name@),
        },
{
    let cs = chars_of(url);
    let onnx = chars_of(".onnx");
    if chars_end_with(cs.as_slice(), onnx.as_slice()) {
        let n = cs.len();
        let mut i: usize = n;
        while i > 0 && cs[i - 1] != '/'
            invariant
                i <= n,
                n == cs@.len(),
                cs@ == url@,
                forall|k: int| i <= k < n ==> cs@[k] != '/',
            decreases i,
        {
            i -= 1;
        }
        let filename = crate::utils::chars::string_from_range(cs.as_slice(), i, n);
        proof {
            let s = url@;
            if i > 0 {
                let j = choose|j: int| 0 <= j < s.len() && s[j] == '/' && forall|k: int| j < k < s.len() ==> s[k] != '/';
                assert(j == i - 1) by {
                    if j < i - 1 {
                        assert(s[i - 1] != '/');
                    } else if j > i - 1 {
                        assert(s[j] != '/');
                    }
                }
                assert(s.skip(i as int) == s.subrange(i as int, n as int));
            } else {
                assert forall|k: int| 0 <= k < s.len() implies s[k] != '/' by {}
                assert(s.subrange(0, n as int) == s);
            }
        }
        DownloadPlan::SingleFile { filename }
    } else {
        let mut name = model_id.to_owned();
        name.append(".tar.bz2");
        DownloadPlan::Archive { archive_name: name }
    }
}

/// Whether a file header starts with the bzip2 magic bytes `BZ`.
pub fn is_bzip2_magic(header: &[u8]) -> (r: bool)
    requires
        header@.len() >= 2,
    ensures
        r == (header@[0] == 0x42 && header@[1] == 0x5A),
{
    header[0] == 0x42 && header[1] == 0x5A
}

/// A download that cannot be accepted.
#[derive(Debug, Clone, Copy, PartialEq, Eq, Structural)]
pub enum DownloadError {
    /// Fewer than 1024 bytes: most likely an error page.
    TooSmall { size: u64 },
    /// The file does not have the announced size.
    Incomplete { expected: u64, actual: u64 },
}

/// Checks the announced size of a download before fetching it.
pub fn check_announced_size(total_size: u64) -> (r: Result<(), DownloadError>)
    ensures
        total_size < 1024 <==> r == Err::<(), DownloadError>(DownloadError::TooSmall { size: total_size }),
        total_size >= 1024 <==> r is Ok,
{
    if total_size < 1024 {
        Err(DownloadError::TooSmall { size: total_size })
    } else {
        Ok(())
    }
}

/// Checks a fetched file against the announced size.
pub fn check_downloaded_size(total_size: u64, file_size: u64) -> (r: Result<(), DownloadError>)
    ensures
        file_size != total_size ==> r == Err::<(), DownloadError>(
            DownloadError::Incomplete { expected: total_size, actual: file_size },
        ),
        file_size == total_size && file_size < 1024 ==> r == Err::<(), DownloadError>(
            DownloadError::TooSmall { size: file_size },
        ),
        r is Ok <==> file_size == total_size && file_size >= 1024,
{
    if file_size != total_size {
        return Err(DownloadError::Incomplete { expected: total_size, actual: file_size });
    }
    if file_size < 1024 {
        return Err(DownloadError::TooSmall { size: file_size });
    }
    Ok(())
}

} // verus!
