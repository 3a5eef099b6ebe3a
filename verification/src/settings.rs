//! Application settings: the analysis mode, the chosen offline model variant
//! and the cache location override. The settings are an explicitly passed,
//! read-only configuration value for the duration of one request; reading and
//! writing the settings file is the host application's work.

use vstd::prelude::*;
use vstd::string::StringExecFns;

verus! {

/// Analysis mode selection.
#[derive(Debug, Clone, Copy, PartialEq, Eq, Structural)]
pub enum AnalysisMode {
    /// Use the remote analysis API.
    CloudAPI,
    /// Use the local vision-language model.
    Offline,
    /// Automatically choose based on availability.
    Auto,
}

/// Available local model variants.
#[derive(Debug, Clone, Copy, PartialEq, Eq, Structural)]
pub enum ModelVariant {
    /// 2B parameter model (fastest).
    Qwen2VL2B,
    /// 7B parameter model (balanced).
    Qwen2VL7B,
    /// 72B parameter model (highest quality).
    Qwen2VL72B,
}

/// Application settings for analysis modes.
#[derive(Debug, Clone)]
pub struct AppSettings {
    /// Current analysis mode.
    pub analysis_mode: AnalysisMode,
    /// Selected offline model variant.
    pub offline_model_variant: ModelVariant,
    /// Optional custom directory for the model cache.
    pub model_cache_dir: Option<String>,
    /// Whether to fall back to the other path if the primary one fails.
    pub auto_fallback: bool,
    /// Whether to keep the model loaded in memory between analyses.
    pub keep_model_loaded: bool,
}

impl Default for AppSettings {
    /// The settings used when no settings file exists.
    fn default() -> (r: Self)
        ensures
            r.analysis_mode == AnalysisMode::Auto,
            r.offline_model_variant == ModelVariant::Qwen2VL2B,
            r.model_cache_dir is None,
            r.auto_fallback,
            r.keep_model_loaded,
    {
        AppSettings {
            analysis_mode: AnalysisMode::Auto,
            offline_model_variant: ModelVariant::Qwen2VL2B,
            model_cache_dir: None,
            auto_fallback: true,
            keep_model_loaded: true,
        }
    }
}

/// Errors from settings handling.
#[derive(Debug, Clone, PartialEq)]
pub enum SettingsError {
    /// The platform's configuration directory could not be determined.
    ConfigDirUnavailable,
    /// The settings file exists but its content could not be decoded.
    Malformed { detail: String },
}

impl SettingsError {
    /// A human-readable description of the error.
    pub fn message(&self) -> (r: String)
        ensures
            self is ConfigDirUnavailable ==> r@ == "Failed to get config directory"@,
            self matches SettingsError::Malformed { detail } ==> r@
                == "Failed to parse settings JSON: "@ + detail@,
    {
        match self {
            SettingsError::ConfigDirUnavailable => String::from_str(
                "Failed to get config directory",
            ),
            SettingsError::Malformed { detail } => {
                let mut m = String::from_str("Failed to parse settings JSON: ");
                m.append(detail.as_str());
                m
            },
        }
    }
}

/// Relies on `dirs::config_dir`: the platform's user configuration directory,
/// if one can be determined (here as a UTF-8 string).
#[verifier::external_body]
fn platform_config_dir() -> (r: Option<String>) {
    dirs::config_dir().and_then(|p| p.into_os_string().into_string().ok())
}

/// The application's namespace segment under the platform directories.
pub open spec fn app_namespace_segment() -> Seq<char> {
    "/rzem-mj-lora"@
}

/// The resolution step of the configuration directory, separated from the
/// platform probe so that it is fixed for every probe outcome: a probed
/// directory is joined with the application namespace, and an undetermined
/// platform directory is the location error, if and only if.
pub fn resolve_config_dir(platform: Option<String>) -> (r: Result<String, SettingsError>)
    ensures
        platform matches Some(base) ==> (r matches Ok(p) && p@ == base@
            + app_namespace_segment()),
        platform is None ==> (r matches Err(e) && e == SettingsError::ConfigDirUnavailable),
{
    match platform {
        Some(base) => {
            let ghost b = base@;
            let mut p = base;
            p.append("/rzem-mj-lora");
            proof {
                assert(p@ == b + app_namespace_segment());
            }
            Ok(p)
        },
        None => Err(SettingsError::ConfigDirUnavailable),
    }
}

/// The resolution step of the settings file path: the resolved configuration
/// directory joined with the fixed file name `settings.json`, again fixed
/// for every probe outcome.
pub fn resolve_settings_path(platform: Option<String>) -> (r: Result<String, SettingsError>)
    ensures
        platform matches Some(base) ==> (r matches Ok(p) && p@ == base@
            + app_namespace_segment() + "/settings.json"@),
        platform is None ==> (r matches Err(e) && e == SettingsError::ConfigDirUnavailable),
{
    match resolve_config_dir(platform) {
        Ok(dir) => {
            let ghost d = dir@;
            let mut p = dir;
            p.append("/settings.json");
            proof {
                assert(p@ == d + "/settings.json"@);
            }
            Ok(p)
        },
        Err(e) => Err(e),
    }
}

/// Resolve the application's configuration directory: the platform
/// configuration directory joined with the application namespace, as
/// `resolve_config_dir` fixes it. Creating the directory when it is missing
/// is the caller's work.
pub fn get_config_dir() -> (r: Result<String, SettingsError>)
    ensures
        r matches Ok(p) ==> exists|base: Seq<char>| p@ == base + app_namespace_segment(),
        r matches Err(e) ==> e == SettingsError::ConfigDirUnavailable,
{
    resolve_config_dir(platform_config_dir())
}

/// Where the settings file lives: the configuration directory joined with
/// the fixed file name `settings.json`, as `resolve_settings_path` fixes it.
pub fn get_settings_path() -> (r: Result<String, SettingsError>)
    ensures
        r matches Ok(p) ==> exists|base: Seq<char>|
            p@ == base + app_namespace_segment() + "/settings.json"@,
        r matches Err(e) ==> e == SettingsError::ConfigDirUnavailable,
{
    resolve_settings_path(platform_config_dir())
}

/// Decide what a read of the settings store found: a missing file means the
/// defaults, a decoded file means exactly its settings, and undecodable
/// content is an error carrying the decoder's words — never silently
/// replaced by defaults.
pub fn settings_from_store(found: Option<Result<AppSettings, String>>) -> (r: Result<
    AppSettings,
    SettingsError,
>)
    ensures
        found is None ==> (r matches Ok(s) && ({
            &&& s.analysis_mode == AnalysisMode::Auto
            &&& s.offline_model_variant == ModelVariant::Qwen2VL2B
            &&& s.model_cache_dir is None
            &&& s.auto_fallback
            &&& s.keep_model_loaded
        })),
        found matches Some(Ok(s)) ==> (r matches Ok(o) && o == s),
        found matches Some(Err(detail)) ==> (r matches Err(e) && ({
            &&& e matches SettingsError::Malformed { detail: d }
            &&& d == detail
        })),
{
    match found {
        None => Ok(AppSettings::default()),
        Some(Ok(s)) => Ok(s),
        Some(Err(detail)) => Err(SettingsError::Malformed { detail }),
    }
}

} // verus!
