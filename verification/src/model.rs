//! Model selection: the closed set of speech-model presets the external
//! transcription engine knows, and the mapping to its preset names.

use vstd::prelude::*;
use vstd::string::StringExecFns;

verus! {

/// The selectable speech models, a closed set mapped one-for-one onto
/// the engine's named presets.
#[derive(Clone, Copy, Debug, PartialEq, Eq, Structural)]
pub enum ModelSource {
    Tiny,
    TinyEn,
    Base,
    BaseEn,
    Medium,
    MediumEn,
    LargeV3,
    DistilMediumEn,
    DistilLargeV3_5,
    DistilLargeV3,
    LargeV3Turbo,
}

/// The engine-side preset name each model maps to.
pub open spec fn source_name(m: ModelSource) -> Seq<char> {
    match m {
        ModelSource::Tiny => "tiny"@,
        ModelSource::TinyEn => "tiny-en"@,
        ModelSource::Base => "base"@,
        ModelSource::BaseEn => "base-en"@,
        ModelSource::Medium => "medium"@,
        ModelSource::MediumEn => "medium-en"@,
        ModelSource::LargeV3 => "large-v3"@,
        ModelSource::DistilMediumEn => "distil-medium-en"@,
        ModelSource::DistilLargeV3_5 => "distil-large-v3.5"@,
        ModelSource::DistilLargeV3 => "distil-large-v3"@,
        ModelSource::LargeV3Turbo => "large-v3-turbo"@,
    }
}

/// Every selectable model, in presentation order.
pub open spec fn all_sources() -> Seq<ModelSource> {
    seq![
        ModelSource::Tiny,
        ModelSource::TinyEn,
        ModelSource::Base,
        ModelSource::BaseEn,
        ModelSource::Medium,
        ModelSource::MediumEn,
        ModelSource::LargeV3,
        ModelSource::DistilMediumEn,
        ModelSource::DistilLargeV3_5,
        ModelSource::DistilLargeV3,
        ModelSource::LargeV3Turbo,
    ]
}

impl ModelSource {
    /// The preset selector handed to the external transcription engine.
    pub fn source(self) -> (r: String)
        ensures
            r@ == source_name(self),
    {
        match self {
            ModelSource::Tiny => String::from_str("tiny"),
            ModelSource::TinyEn => String::from_str("tiny-en"),
            ModelSource::Base => String::from_str("base"),
            ModelSource::BaseEn => String::from_str("base-en"),
            ModelSource::Medium => String::from_str("medium"),
            ModelSource::MediumEn => String::from_str("medium-en"),
            ModelSource::LargeV3 => String::from_str("large-v3"),
            ModelSource::DistilMediumEn => String::from_str("distil-medium-en"),
            ModelSource::DistilLargeV3_5 => String::from_str("distil-large-v3.5"),
            ModelSource::DistilLargeV3 => String::from_str("distil-large-v3"),
            ModelSource::LargeV3Turbo => String::from_str("large-v3-turbo"),
        }
    }

    /// The selectable models, in the order they are offered.
    pub fn all() -> (v: Vec<ModelSource>)
        ensures
            v@ == all_sources(),
    {
        let mut v: Vec<ModelSource> = Vec::new();
        v.push(ModelSource::Tiny);
        v.push(ModelSource::TinyEn);
        v.push(ModelSource::Base);
        v.push(ModelSource::BaseEn);
        v.push(ModelSource::Medium);
        v.push(ModelSource::MediumEn);
        v.push(ModelSource::LargeV3);
        v.push(ModelSource::DistilMediumEn);
        v.push(ModelSource::DistilLargeV3_5);
        v.push(ModelSource::DistilLargeV3);
        v.push(ModelSource::LargeV3Turbo);
        proof {
            assert(v@ =~= all_sources());
        }
        v
    }
}

} // verus!
