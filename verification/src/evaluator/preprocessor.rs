//! Evaluation of the version and extension directives.

use crate::code::SpecCode;
use crate::evaluator::{eval_owned, eval_short};
use crate::model::{SpecPreprocessor, SpecPreprocessorExtension, SpecPreprocessorExtensionName};
use crate::names::{Field, Record, Variant};
use crate::syntax::{
    PreprocessorExtensionBehavior, PreprocessorVersion, PreprocessorVersionProfile,
};
use crate::tokenizer::preprocessor::{
    optional_preprocessor_extension_behavior_code, optional_preprocessor_version_profile_code,
    preprocessor_code, preprocessor_extension_behavior_code, preprocessor_extension_code,
    preprocessor_extension_name_code, preprocessor_version_code,
    preprocessor_version_profile_code,
};
use vstd::prelude::*;

verus! {

/// The version profile that a constructor expression builds, if it builds one.
#[verifier::opaque]
pub open spec fn eval_preprocessor_version_profile(
    c: SpecCode,
) -> Option<PreprocessorVersionProfile> {
    match c {
        SpecCode::Unit(Variant::PreprocessorVersionProfileCore) => Some(
            PreprocessorVersionProfile::Core,
        ),
        SpecCode::Unit(Variant::PreprocessorVersionProfileCompatibility) => Some(
            PreprocessorVersionProfile::Compatibility,
        ),
        SpecCode::Unit(Variant::PreprocessorVersionProfileES) => Some(
            PreprocessorVersionProfile::ES,
        ),
        _ => None,
    }
}

/// Evaluating the constructor expression of a version profile gives it back.
pub proof fn lemma_preprocessor_version_profile_round_trip(profile: PreprocessorVersionProfile)
    ensures
        eval_preprocessor_version_profile(preprocessor_version_profile_code(profile))
            == Some(profile),
{
    reveal(eval_preprocessor_version_profile);
}

/// What a constructor expression builds where a version profile may be absent: nothing, or the
/// version profile, if it builds either.
#[verifier::opaque]
pub open spec fn eval_optional_preprocessor_version_profile(
    c: SpecCode,
) -> Option<Option<PreprocessorVersionProfile>> {
    match c {
        SpecCode::Absent => Some(None),
        SpecCode::Present(inner) => match eval_preprocessor_version_profile(*inner) {
            Some(x) => Some(Some(x)),
            None => None,
        },
        _ => None,
    }
}

/// Evaluating the constructor expression of a version profile that may be absent gives it back.
pub proof fn lemma_optional_preprocessor_version_profile_round_trip(
    o: Option<PreprocessorVersionProfile>,
)
    ensures
        eval_optional_preprocessor_version_profile(optional_preprocessor_version_profile_code(o))
            == Some(o),
{
    reveal(eval_optional_preprocessor_version_profile);
    match o {
        Some(x) => {
            lemma_preprocessor_version_profile_round_trip(x);
        },
        None => {},
    }
}

/// The extension behaviour that a constructor expression builds, if it builds one.
#[verifier::opaque]
pub open spec fn eval_preprocessor_extension_behavior(
    c: SpecCode,
) -> Option<PreprocessorExtensionBehavior> {
    match c {
        SpecCode::Unit(Variant::PreprocessorExtensionBehaviorRequire) => Some(
            PreprocessorExtensionBehavior::Require,
        ),
        SpecCode::Unit(Variant::PreprocessorExtensionBehaviorEnable) => Some(
            PreprocessorExtensionBehavior::Enable,
        ),
        SpecCode::Unit(Variant::PreprocessorExtensionBehaviorWarn) => Some(
            PreprocessorExtensionBehavior::Warn,
        ),
        SpecCode::Unit(Variant::PreprocessorExtensionBehaviorDisable) => Some(
            PreprocessorExtensionBehavior::Disable,
        ),
        _ => None,
    }
}

/// Evaluating the constructor expression of an extension behaviour gives it back.
pub proof fn lemma_preprocessor_extension_behavior_round_trip(
    behavior: PreprocessorExtensionBehavior,
)
    ensures
        eval_preprocessor_extension_behavior(preprocessor_extension_behavior_code(behavior))
            == Some(behavior),
{
    reveal(eval_preprocessor_extension_behavior);
}

/// What a constructor expression builds where an extension behaviour may be absent: nothing, or the
/// extension behaviour, if it builds either.
#[verifier::opaque]
pub open spec fn eval_optional_preprocessor_extension_behavior(
    c: SpecCode,
) -> Option<Option<PreprocessorExtensionBehavior>> {
    match c {
        SpecCode::Absent => Some(None),
        SpecCode::Present(inner) => match eval_preprocessor_extension_behavior(*inner) {
            Some(x) => Some(Some(x)),
            None => None,
        },
        _ => None,
    }
}

/// Evaluating the constructor expression of an extension behaviour that may be absent gives it
/// back.
pub proof fn lemma_optional_preprocessor_extension_behavior_round_trip(
    o: Option<PreprocessorExtensionBehavior>,
)
    ensures
        eval_optional_preprocessor_extension_behavior(
            optional_preprocessor_extension_behavior_code(o),
        )
            == Some(o),
{
    reveal(eval_optional_preprocessor_extension_behavior);
    match o {
        Some(x) => {
            lemma_preprocessor_extension_behavior_round_trip(x);
        },
        None => {},
    }
}

/// The version directive that a constructor expression builds, if it builds one.
#[verifier::opaque]
pub open spec fn eval_preprocessor_version(c: SpecCode) -> Option<PreprocessorVersion> {
    match c {
        SpecCode::Record(Record::PreprocessorVersion, fields) => {
            if fields.len() == 2 && fields[0].0 == Field::Version && fields[1].0 == Field::Profile {
                match (
                    eval_short(fields[0].1),
                    eval_optional_preprocessor_version_profile(fields[1].1),
                ) {
                    (Some(version), Some(profile)) => Some(
                        PreprocessorVersion { version, profile },
                    ),
                    _ => None,
                }
            } else {
                None
            }
        },
        _ => None,
    }
}

/// Evaluating the constructor expression of a version directive gives it back.
pub proof fn lemma_preprocessor_version_round_trip(pv: PreprocessorVersion)
    ensures
        eval_preprocessor_version(preprocessor_version_code(pv)) == Some(pv),
{
    reveal(eval_preprocessor_version);
    let fields = preprocessor_version_code(pv)->Record_1;
    assert(fields.len() == 2);
    lemma_optional_preprocessor_version_profile_round_trip(pv.profile);
}

/// The extension name that a constructor expression builds, if it builds one.
#[verifier::opaque]
pub open spec fn eval_preprocessor_extension_name(
    c: SpecCode,
) -> Option<SpecPreprocessorExtensionName> {
    match c {
        SpecCode::Unit(Variant::PreprocessorExtensionNameAll) => Some(
            SpecPreprocessorExtensionName::All,
        ),
        SpecCode::Call(Variant::PreprocessorExtensionNameSpecific, args) => {
            if args.len() == 1 {
                match eval_owned(args[0]) {
                    Some(n) => Some(SpecPreprocessorExtensionName::Specific(n)),
                    None => None,
                }
            } else {
                None
            }
        },
        _ => None,
    }
}

/// Evaluating the constructor expression of an extension name gives it back.
pub proof fn lemma_preprocessor_extension_name_round_trip(name: SpecPreprocessorExtensionName)
    ensures
        eval_preprocessor_extension_name(preprocessor_extension_name_code(name)) == Some(name),
{
    reveal(eval_preprocessor_extension_name);
}

/// The extension directive that a constructor expression builds, if it builds one.
#[verifier::opaque]
pub open spec fn eval_preprocessor_extension(c: SpecCode) -> Option<SpecPreprocessorExtension> {
    match c {
        SpecCode::Record(Record::PreprocessorExtension, fields) => {
            if fields.len() == 2 && fields[0].0 == Field::Name && fields[1].0 == Field::Behavior {
                match (
                    eval_preprocessor_extension_name(fields[0].1),
                    eval_optional_preprocessor_extension_behavior(fields[1].1),
                ) {
                    (Some(name), Some(behavior)) => Some(
                        SpecPreprocessorExtension { name, behavior },
                    ),
                    _ => None,
                }
            } else {
                None
            }
        },
        _ => None,
    }
}

/// Evaluating the constructor expression of an extension directive gives it back.
pub proof fn lemma_preprocessor_extension_round_trip(pe: SpecPreprocessorExtension)
    ensures
        eval_preprocessor_extension(preprocessor_extension_code(pe)) == Some(pe),
{
    reveal(eval_preprocessor_extension);
    let fields = preprocessor_extension_code(pe)->Record_1;
    assert(fields.len() == 2);
    lemma_preprocessor_extension_name_round_trip(pe.name);
    lemma_optional_preprocessor_extension_behavior_round_trip(pe.behavior);
}

/// The preprocessor directive that a constructor expression builds, if it builds one.
#[verifier::opaque]
pub open spec fn eval_preprocessor(c: SpecCode) -> Option<SpecPreprocessor> {
    match c {
        SpecCode::Call(Variant::PreprocessorVersion, args) => {
            if args.len() == 1 {
                match eval_preprocessor_version(args[0]) {
                    Some(pv) => Some(SpecPreprocessor::Version(pv)),
                    None => None,
                }
            } else {
                None
            }
        },
        SpecCode::Call(Variant::PreprocessorExtension, args) => {
            if args.len() == 1 {
                match eval_preprocessor_extension(args[0]) {
                    Some(pe) => Some(SpecPreprocessor::Extension(pe)),
                    None => None,
                }
            } else {
                None
            }
        },
        _ => None,
    }
}

/// Evaluating the constructor expression of a preprocessor directive gives it back.
pub proof fn lemma_preprocessor_round_trip(pp: SpecPreprocessor)
    ensures
        eval_preprocessor(preprocessor_code(pp)) == Some(pp),
{
    reveal(eval_preprocessor);
    match pp {
        SpecPreprocessor::Version(pv) => {
            lemma_preprocessor_version_round_trip(pv);
        },
        SpecPreprocessor::Extension(pe) => {
            lemma_preprocessor_extension_round_trip(pe);
        },
    }
}

} // verus!
