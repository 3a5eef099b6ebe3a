//! The local analysis path: memory headroom checking and model readiness.
//! The host application sequences the path (probe memory, probe the cache,
//! load images, run the engine); each decision along the way is made here.

use vstd::prelude::*;
use vstd::string::StringExecFns;

use crate::model_manager::ModelStatus;
use crate::settings::{AppSettings, ModelVariant};
use crate::text::{dec_digits, u64_to_string};

verus! {

/// Errors from the local analysis path.
#[derive(Debug, Clone, PartialEq)]
pub enum OfflineAnalysisError {
    /// The model is not downloaded (or incomplete) in the cache.
    ModelNotFound,
    /// Not enough memory for the chosen variant; whole gigabytes.
    InsufficientMemory { required: u64, available: u64 },
    /// The model could not be loaded.
    ModelLoadError(String),
    /// The inference run failed.
    InferenceFailed(String),
    /// An input image could not be read or decoded.
    ImageProcessingError(String),
}

impl OfflineAnalysisError {
    /// A human-readable description of the error.
    pub fn message(&self) -> (r: String)
        ensures
            self is ModelNotFound ==> r@
                == "Model not found. Please download the model first."@,
            self matches OfflineAnalysisError::InsufficientMemory { required, available } ==> r@
                == "Insufficient memory. Requires "@ + dec_digits(required as nat) + "GB, available "@
                + dec_digits(available as nat) + "GB"@,
            self matches OfflineAnalysisError::ModelLoadError(d) ==> r@
                == "Model loading failed: "@ + d@,
            self matches OfflineAnalysisError::InferenceFailed(d) ==> r@
                == "Inference failed: "@ + d@,
            self matches OfflineAnalysisError::ImageProcessingError(d) ==> r@
                == "Image processing failed: "@ + d@,
    {
        match self {
            OfflineAnalysisError::ModelNotFound => String::from_str(
                "Model not found. Please download the model first.",
            ),
            OfflineAnalysisError::InsufficientMemory { required, available } => {
                let mut m = String::from_str("Insufficient memory. Requires ");
                let req = u64_to_string(*required);
                m.append(req.as_str());
                m.append("GB, available ");
                let avail = u64_to_string(*available);
                m.append(avail.as_str());
                m.append("GB");
                m
            },
            OfflineAnalysisError::ModelLoadError(d) => {
                let mut m = String::from_str("Model loading failed: ");
                m.append(d.as_str());
                m
            },
            OfflineAnalysisError::InferenceFailed(d) => {
                let mut m = String::from_str("Inference failed: ");
                m.append(d.as_str());
                m
            },
            OfflineAnalysisError::ImageProcessingError(d) => {
                let mut m = String::from_str("Image processing failed: ");
                m.append(d.as_str());
                m
            },
        }
    }
}

/// Whole gigabytes of memory a variant needs to run locally: the model's
/// weights plus working overhead.
pub open spec fn required_memory_gb(v: ModelVariant) -> u64 {
    match v {
        ModelVariant::Qwen2VL2B => 4,
        ModelVariant::Qwen2VL7B => 16,
        ModelVariant::Qwen2VL72B => 160,
    }
}

/// The memory decision alone, from a measured amount of available memory in
/// whole gigabytes: enough memory passes, a shortfall reports the variant's
/// requirement next to the measurement, if and only if it is short.
pub fn memory_verdict(variant: ModelVariant, available_gb: u64) -> (r: Result<
    (),
    OfflineAnalysisError,
>)
    ensures
        r is Ok <==> available_gb >= required_memory_gb(variant),
        r matches Err(e) ==> ({
            &&& e matches OfflineAnalysisError::InsufficientMemory { required, available }
            &&& required == required_memory_gb(variant)
            &&& available == available_gb
            &&& available < required
        }),
{
    let required: u64 = match variant {
        ModelVariant::Qwen2VL2B => 4,
        ModelVariant::Qwen2VL7B => 16,
        ModelVariant::Qwen2VL72B => 160,
    };
    if available_gb < required {
        Err(OfflineAnalysisError::InsufficientMemory { required, available: available_gb })
    } else {
        Ok(())
    }
}

/// Relies on `sysinfo::System` (`new_all`, `refresh_memory`,
/// `available_memory`): the number of bytes of memory currently available.
/// The value depends on the machine's state at the call, so nothing is
/// assumed of it.
#[verifier::external_body]
fn probe_available_memory_bytes() -> (r: u64) {
    let mut sys = sysinfo::System::new_all();
    sys.refresh_memory();
    sys.available_memory()
}

/// Check that the machine has the memory headroom the chosen variant needs,
/// failing fast without touching the model when it is short.
///
/// Whatever amount the memory probe reports, an error is always
/// `InsufficientMemory`, names the variant's true requirement, and carries a
/// measurement below it.
pub fn check_system_requirements(settings: &AppSettings) -> (r: Result<(), OfflineAnalysisError>)
    ensures
        r matches Err(e) ==> ({
            &&& e matches OfflineAnalysisError::InsufficientMemory { required, available }
            &&& required == required_memory_gb(settings.offline_model_variant)
            &&& available < required
        }),
{
    let bytes = probe_available_memory_bytes();
    let gb = bytes / 1_073_741_824;
    memory_verdict(settings.offline_model_variant, gb)
}

/// Require a computed model status to be `Ready` before local inference;
/// anything else is `ModelNotFound`.
pub fn ensure_model_ready(status: &ModelStatus) -> (r: Result<(), OfflineAnalysisError>)
    ensures
        r is Ok <==> status is Ready,
        r matches Err(e) ==> e is ModelNotFound,
{
    match status {
        ModelStatus::Ready => Ok(()),
        _ => Err(OfflineAnalysisError::ModelNotFound),
    }
}

} // verus!
