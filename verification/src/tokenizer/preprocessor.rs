//! Preprocessor directives: the version and extension directives.

use crate::code::{Code, SpecCode, fields2};
use crate::model::{SpecPreprocessor, SpecPreprocessorExtension, SpecPreprocessorExtensionName};
use crate::names::{Field, Record, Variant};
use crate::quoted::Quoted;
use crate::syntax::{
    Preprocessor, PreprocessorExtension, PreprocessorExtensionBehavior, PreprocessorExtensionName,
    PreprocessorVersion, PreprocessorVersionProfile,
};
use vstd::prelude::*;

verus! {

/// The constructor expression of a version profile.
pub open spec fn preprocessor_version_profile_code(
    profile: PreprocessorVersionProfile,
) -> SpecCode {
    match profile {
        PreprocessorVersionProfile::Core => SpecCode::Unit(Variant::PreprocessorVersionProfileCore),
        PreprocessorVersionProfile::Compatibility => SpecCode::Unit(
            Variant::PreprocessorVersionProfileCompatibility,
        ),
        PreprocessorVersionProfile::ES => SpecCode::Unit(Variant::PreprocessorVersionProfileES),
    }
}

/// Tokenizes a version profile.
pub fn tokenize_preprocessor_version_profile(profile: &PreprocessorVersionProfile) -> (code: Code)
    ensures
        code@ == preprocessor_version_profile_code(profile@),
{
    match profile {
        PreprocessorVersionProfile::Core => Code::Unit(Variant::PreprocessorVersionProfileCore),
        PreprocessorVersionProfile::Compatibility => Code::Unit(
            Variant::PreprocessorVersionProfileCompatibility,
        ),
        PreprocessorVersionProfile::ES => Code::Unit(Variant::PreprocessorVersionProfileES),
    }
}

/// The constructor expression of a version profile that may be absent.
pub open spec fn optional_preprocessor_version_profile_code(
    o: Option<PreprocessorVersionProfile>,
) -> SpecCode {
    SpecCode::optional(
        match o {
            Some(x) => Some(preprocessor_version_profile_code(x)),
            None => None,
        },
    )
}

/// The constructor expression of an extension behaviour.
pub open spec fn preprocessor_extension_behavior_code(
    behavior: PreprocessorExtensionBehavior,
) -> SpecCode {
    match behavior {
        PreprocessorExtensionBehavior::Require => SpecCode::Unit(
            Variant::PreprocessorExtensionBehaviorRequire,
        ),
        PreprocessorExtensionBehavior::Enable => SpecCode::Unit(
            Variant::PreprocessorExtensionBehaviorEnable,
        ),
        PreprocessorExtensionBehavior::Warn => SpecCode::Unit(
            Variant::PreprocessorExtensionBehaviorWarn,
        ),
        PreprocessorExtensionBehavior::Disable => SpecCode::Unit(
            Variant::PreprocessorExtensionBehaviorDisable,
        ),
    }
}

/// Tokenizes an extension behaviour.
pub fn tokenize_preprocessor_extension_behavior(
    behavior: &PreprocessorExtensionBehavior,
) -> (code: Code)
    ensures
        code@ == preprocessor_extension_behavior_code(behavior@),
{
    match behavior {
        PreprocessorExtensionBehavior::Require => Code::Unit(
            Variant::PreprocessorExtensionBehaviorRequire,
        ),
        PreprocessorExtensionBehavior::Enable => Code::Unit(
            Variant::PreprocessorExtensionBehaviorEnable,
        ),
        PreprocessorExtensionBehavior::Warn => Code::Unit(
            Variant::PreprocessorExtensionBehaviorWarn,
        ),
        PreprocessorExtensionBehavior::Disable => Code::Unit(
            Variant::PreprocessorExtensionBehaviorDisable,
        ),
    }
}

/// The constructor expression of an extension behaviour that may be absent.
pub open spec fn optional_preprocessor_extension_behavior_code(
    o: Option<PreprocessorExtensionBehavior>,
) -> SpecCode {
    SpecCode::optional(
        match o {
            Some(x) => Some(preprocessor_extension_behavior_code(x)),
            None => None,
        },
    )
}

/// The constructor expression of a version directive.
pub open spec fn preprocessor_version_code(pv: PreprocessorVersion) -> SpecCode {
    SpecCode::Record(
        Record::PreprocessorVersion,
        seq![
            (Field::Version, SpecCode::Short(pv.version)),
            (Field::Profile, optional_preprocessor_version_profile_code(pv.profile)),
        ],
    )
}

/// Tokenizes a version directive.
pub fn tokenize_preprocessor_version(pv: &PreprocessorVersion) -> (code: Code)
    ensures
        code@ == preprocessor_version_code(pv@),
{
    let version = Code::Short(pv.version);
    let profile = match &pv.profile {
        Some(x) => Some(tokenize_preprocessor_version_profile(x)),
        None => None,
    }.quote();
    assert(profile@ == optional_preprocessor_version_profile_code(pv@.profile));
    Code::record(
        Record::PreprocessorVersion,
        fields2(
            Field::Version,
            version,
            Field::Profile,
            profile,
        ),
    )
}

/// The constructor expression of an extension name.
pub open spec fn preprocessor_extension_name_code(name: SpecPreprocessorExtensionName) -> SpecCode {
    match name {
        SpecPreprocessorExtensionName::All => SpecCode::Unit(Variant::PreprocessorExtensionNameAll),
        SpecPreprocessorExtensionName::Specific(n) => SpecCode::Call(
            Variant::PreprocessorExtensionNameSpecific,
            seq![SpecCode::Owned(n)],
        ),
    }
}

/// Tokenizes an extension name.
pub fn tokenize_preprocessor_extension_name(name: &PreprocessorExtensionName) -> (code: Code)
    ensures
        code@ == preprocessor_extension_name_code(name@),
{
    match name {
        PreprocessorExtensionName::All => Code::Unit(Variant::PreprocessorExtensionNameAll),
        PreprocessorExtensionName::Specific(n) => {
            let n = n.as_str().quote();
            Code::call1(Variant::PreprocessorExtensionNameSpecific, n)
        },
    }
}

/// The constructor expression of an extension directive.
pub open spec fn preprocessor_extension_code(pe: SpecPreprocessorExtension) -> SpecCode {
    SpecCode::Record(
        Record::PreprocessorExtension,
        seq![
            (Field::Name, preprocessor_extension_name_code(pe.name)),
            (Field::Behavior, optional_preprocessor_extension_behavior_code(pe.behavior)),
        ],
    )
}

/// Tokenizes an extension directive.
pub fn tokenize_preprocessor_extension(pe: &PreprocessorExtension) -> (code: Code)
    ensures
        code@ == preprocessor_extension_code(pe@),
{
    let name = tokenize_preprocessor_extension_name(&pe.name);
    let behavior = match &pe.behavior {
        Some(x) => Some(tokenize_preprocessor_extension_behavior(x)),
        None => None,
    }.quote();
    assert(behavior@ == optional_preprocessor_extension_behavior_code(pe@.behavior));
    Code::record(
        Record::PreprocessorExtension,
        fields2(
            Field::Name,
            name,
            Field::Behavior,
            behavior,
        ),
    )
}

/// The constructor expression of a preprocessor directive.
pub open spec fn preprocessor_code(pp: SpecPreprocessor) -> SpecCode {
    match pp {
        SpecPreprocessor::Version(pv) => SpecCode::Call(
            Variant::PreprocessorVersion,
            seq![preprocessor_version_code(pv)],
        ),
        SpecPreprocessor::Extension(pe) => SpecCode::Call(
            Variant::PreprocessorExtension,
            seq![preprocessor_extension_code(pe)],
        ),
    }
}

/// Tokenizes a preprocessor directive.
pub fn tokenize_preprocessor(pp: &Preprocessor) -> (code: Code)
    ensures
        code@ == preprocessor_code(pp@),
{
    match pp {
        Preprocessor::Version(pv) => {
            let pv = tokenize_preprocessor_version(pv);
            Code::call1(Variant::PreprocessorVersion, pv)
        },
        Preprocessor::Extension(pe) => {
            let pe = tokenize_preprocessor_extension(pe);
            Code::call1(Variant::PreprocessorExtension, pe)
        },
    }
}

} // verus!
