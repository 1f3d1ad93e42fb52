//! GPU generation detection from the GPU's name, and the AV1 features and
//! settings that follow from it.

use vstd::prelude::*;
use crate::error::NitrogenError;
use crate::text::{owned, to_upper, contains_text, has_sub, upper_text, trim_text, trimmed,
    is_ascii_text, ascii_lower, lemma_ascii_lower_then_upper};

verus! {

/// RTX 50 series feature capabilities
#[derive(Debug, Clone)]
pub struct Rtx50Features {
    /// GPU name
    pub name: String,
    /// Is RTX 50 series (Blackwell)
    pub is_rtx50: bool,
    /// Ultra High Quality (UHQ) tuning supported
    pub uhq_supported: bool,
    /// Temporal AQ supported
    pub temporal_aq_supported: bool,
    /// YUV 4:2:2 chroma supported
    pub yuv422_supported: bool,
    /// YUV 4:4:4 chroma supported
    pub yuv444_supported: bool,
    /// B-frame reference mode supported
    pub b_ref_supported: bool,
    /// Extended lookahead depth (up to 250 frames)
    pub extended_lookahead: bool,
}

impl Rtx50Features {
    /// Every feature flag equals `b`.
    pub open spec fn all_flags(self, b: bool) -> bool {
        &&& self.is_rtx50 == b
        &&& self.uhq_supported == b
        &&& self.temporal_aq_supported == b
        &&& self.yuv422_supported == b
        &&& self.yuv444_supported == b
        &&& self.b_ref_supported == b
        &&& self.extended_lookahead == b
    }
}

impl Default for Rtx50Features {
    fn default() -> (f: Self)
        ensures
            f.name@ == "Unknown"@,
            f.all_flags(false),
    {
        Rtx50Features {
            name: owned("Unknown"),
            is_rtx50: false,
            uhq_supported: false,
            temporal_aq_supported: false,
            yuv422_supported: false,
            yuv444_supported: false,
            b_ref_supported: false,
            extended_lookahead: false,
        }
    }
}

/// GPU generation enumeration
#[derive(Debug, Clone, Copy, PartialEq, Eq, Structural)]
pub enum GpuGeneration {
    /// Pre-Turing (Pascal, etc.)
    Legacy,
    /// RTX 20 series (Turing)
    Turing,
    /// RTX 30 series (Ampere)
    Ampere,
    /// RTX 40 series (Ada Lovelace)
    AdaLovelace,
    /// RTX 50 series (Blackwell)
    Blackwell,
    /// Unknown generation
    Unknown,
}

impl GpuGeneration {
    /// Whether NVENC of this generation encodes AV1 (RTX 40 and newer).
    pub fn supports_av1(&self) -> (r: bool)
        ensures
            r == (*self == GpuGeneration::AdaLovelace || *self == GpuGeneration::Blackwell),
    {
        match self {
            GpuGeneration::AdaLovelace | GpuGeneration::Blackwell => true,
            _ => false,
        }
    }

    /// Whether NVENC of this generation has the UHQ tuning (RTX 50).
    pub fn supports_uhq(&self) -> (r: bool)
        ensures
            r == (*self == GpuGeneration::Blackwell),
    {
        match self {
            GpuGeneration::Blackwell => true,
            _ => false,
        }
    }
}

/// The generation that an upper-cased GPU name stands for.
pub open spec fn generation_of_upper(u: Seq<char>) -> GpuGeneration {
    if has_sub(u, "RTX 50"@) || has_sub(u, "RTX50"@) {
        GpuGeneration::Blackwell
    } else if has_sub(u, "RTX 40"@) || has_sub(u, "RTX40"@) {
        GpuGeneration::AdaLovelace
    } else if has_sub(u, "RTX 30"@) || has_sub(u, "RTX30"@) {
        GpuGeneration::Ampere
    } else if has_sub(u, "RTX 20"@) || has_sub(u, "RTX20"@) {
        GpuGeneration::Turing
    } else if has_sub(u, "GTX 16"@) || has_sub(u, "GTX16"@) {
        GpuGeneration::Turing
    } else if has_sub(u, "GTX 10"@) || has_sub(u, "GTX10"@) {
        GpuGeneration::Legacy
    } else if (has_sub(u, "QUADRO"@) || has_sub(u, "TESLA"@) || has_sub(u, "A100"@)) && (has_sub(
        u,
        "RTX 6000"@,
    ) || has_sub(u, "RTX 5000"@) || has_sub(u, "RTX 4000"@)) {
        GpuGeneration::AdaLovelace
    } else {
        GpuGeneration::Unknown
    }
}

/// The generation of a GPU with the given name.
pub open spec fn generation_of_name(name: Seq<char>) -> GpuGeneration {
    generation_of_upper(upper_text(name))
}

/// Detect the GPU generation from an upper-cased GPU name.
pub fn generation_from_upper(u: &str) -> (g: GpuGeneration)
    ensures
        g == generation_of_upper(u@),
{
    if contains_text(u, "RTX 50") || contains_text(u, "RTX50") {
        GpuGeneration::Blackwell
    } else if contains_text(u, "RTX 40") || contains_text(u, "RTX40") {
        GpuGeneration::AdaLovelace
    } else if contains_text(u, "RTX 30") || contains_text(u, "RTX30") {
        GpuGeneration::Ampere
    } else if contains_text(u, "RTX 20") || contains_text(u, "RTX20") {
        GpuGeneration::Turing
    } else if contains_text(u, "GTX 16") || contains_text(u, "GTX16") {
        GpuGeneration::Turing
    } else if contains_text(u, "GTX 10") || contains_text(u, "GTX10") {
        GpuGeneration::Legacy
    } else if (contains_text(u, "QUADRO") || contains_text(u, "TESLA") || contains_text(u, "A100"))
        && (contains_text(u, "RTX 6000") || contains_text(u, "RTX 5000") || contains_text(
        u,
        "RTX 4000",
    )) {
        GpuGeneration::AdaLovelace
    } else {
        GpuGeneration::Unknown
    }
}

/// Detect GPU generation from name string
pub fn detect_generation(name: &str) -> (g: GpuGeneration)
    ensures
        g == generation_of_name(name@),
{
    let u = to_upper(name);
    generation_from_upper(u.as_str())
}

/// Generation detection ignores the case of ASCII letters: an ASCII GPU
/// name and its lower-case form stand for the same generation.
pub proof fn lemma_generation_ignores_case(name: Seq<char>)
    requires
        is_ascii_text(name),
    ensures
        generation_of_name(name) == generation_of_name(ascii_lower(name)),
{
    lemma_ascii_lower_then_upper(name);
}

/// The features of the GPU with the given name.
pub fn features_for_name(name: String) -> (f: Rtx50Features)
    ensures
        f.name == name,
        f.all_flags(generation_of_name(name@) == GpuGeneration::Blackwell),
{
    let generation = detect_generation(name.as_str());
    let is_rtx50 = generation == GpuGeneration::Blackwell;
    Rtx50Features {
        name,
        is_rtx50,
        uhq_supported: is_rtx50,
        temporal_aq_supported: is_rtx50,
        yuv422_supported: is_rtx50,
        yuv444_supported: is_rtx50,
        b_ref_supported: is_rtx50,
        extended_lookahead: is_rtx50,
    }
}

/// The GPU name that `nvidia-smi --query-gpu=name` reported: its output with
/// whitespace trimmed, or an error if the query failed or the name is empty.
pub fn gpu_name_from_query(success: bool, stdout: &str) -> (r: Result<String, NitrogenError>)
    ensures
        !success ==> (r matches Err(NitrogenError::Nvenc(m)) && m@ == "nvidia-smi query failed"@),
        success && trimmed(stdout@).len() == 0 ==> (r matches Err(NitrogenError::Nvenc(m))
            && m@ == "Empty GPU name from nvidia-smi"@),
        success && trimmed(stdout@).len() > 0 ==> (r matches Ok(n) && n@ == trimmed(stdout@)),
{
    if !success {
        return Err(NitrogenError::nvenc("nvidia-smi query failed"));
    }
    let name = trim_text(stdout);
    if name.as_str().unicode_len() == 0 {
        return Err(NitrogenError::nvenc("Empty GPU name from nvidia-smi"));
    }
    Ok(name)
}

/// Detect RTX 50 series features from the result of querying the GPU's name.
pub fn detect_rtx50_features(queried_name: Result<String, NitrogenError>) -> (r: Result<
    Rtx50Features,
    NitrogenError,
>)
    ensures
        match queried_name {
            Ok(n) => r matches Ok(f) && f.name == n && f.all_flags(
                generation_of_name(n@) == GpuGeneration::Blackwell,
            ),
            Err(e) => r == Err::<Rtx50Features, NitrogenError>(e),
        },
{
    match queried_name {
        Ok(n) => Ok(features_for_name(n)),
        Err(e) => Err(e),
    }
}

/// Get GPU generation from the result of querying the GPU's name.
pub fn get_gpu_generation(queried_name: Result<String, NitrogenError>) -> (r: Result<
    GpuGeneration,
    NitrogenError,
>)
    ensures
        match queried_name {
            Ok(n) => r == Ok::<GpuGeneration, NitrogenError>(generation_of_name(n@)),
            Err(e) => r == Err::<GpuGeneration, NitrogenError>(e),
        },
{
    match queried_name {
        Ok(n) => Ok(detect_generation(n.as_str())),
        Err(e) => Err(e),
    }
}

/// Check if AV1 encoding is supported, from the result of querying the GPU's name.
pub fn supports_av1(queried_name: Result<String, NitrogenError>) -> (r: Result<bool, NitrogenError>)
    ensures
        match queried_name {
            Ok(n) => r == Ok::<bool, NitrogenError>(
                generation_of_name(n@) == GpuGeneration::AdaLovelace || generation_of_name(n@)
                    == GpuGeneration::Blackwell,
            ),
            Err(e) => r == Err::<bool, NitrogenError>(e),
        },
{
    match get_gpu_generation(queried_name) {
        Ok(g) => Ok(g.supports_av1()),
        Err(e) => Err(e),
    }
}

/// Recommended AV1 encoder settings
#[derive(Debug, Clone)]
pub struct RecommendedAv1Settings {
    pub generation: GpuGeneration,
    pub tune: &'static str,
    pub temporal_aq: bool,
    pub lookahead_depth: u32,
    pub b_ref_mode: bool,
    pub chroma: &'static str,
}

/// Get recommended AV1 settings from the result of querying the GPU's name.
pub fn get_recommended_av1_settings(queried_name: Result<String, NitrogenError>) -> (r: Result<
    RecommendedAv1Settings,
    NitrogenError,
>)
    ensures
        match queried_name {
            Ok(n) => r matches Ok(s) && {
                let g = generation_of_name(n@);
                let b = g == GpuGeneration::Blackwell;
                &&& s.generation == g
                &&& s.tune@ == (if b { "uhq"@ } else { "hq"@ })
                &&& s.temporal_aq == b
                &&& s.lookahead_depth == (if b { 100u32 } else { 20u32 })
                &&& s.b_ref_mode == b
                &&& s.chroma@ == (if b { "444"@ } else { "420"@ })
            },
            Err(e) => r matches Err(x) && x == e,
        },
{
    let features = match detect_rtx50_features(queried_name) {
        Ok(f) => f,
        Err(e) => return Err(e),
    };
    let generation = detect_generation(features.name.as_str());
    Ok(RecommendedAv1Settings {
        generation,
        tune: if features.uhq_supported { "uhq" } else { "hq" },
        temporal_aq: features.temporal_aq_supported,
        lookahead_depth: if features.extended_lookahead { 100 } else { 20 },
        b_ref_mode: features.b_ref_supported,
        chroma: if features.yuv444_supported {
            "444"
        } else if features.yuv422_supported {
            "422"
        } else {
            "420"
        },
    })
}

} // verus!
