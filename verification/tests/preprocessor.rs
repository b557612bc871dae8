// Preprocessor directives, case by case.

use glsl_quasiquote::code::Code;
use glsl_quasiquote::syntax::{
    Preprocessor, PreprocessorExtension, PreprocessorExtensionBehavior, PreprocessorExtensionName,
    PreprocessorVersion, PreprocessorVersionProfile,
};
use glsl_quasiquote::tokenizer::preprocessor::{
    tokenize_preprocessor, tokenize_preprocessor_extension,
    tokenize_preprocessor_extension_behavior, tokenize_preprocessor_extension_name,
    tokenize_preprocessor_version, tokenize_preprocessor_version_profile,
};

/// The text of a token stream, for comparison.
fn spelled(source: &str) -> String {
    let stream: proc_macro2::TokenStream = source.parse().unwrap();
    stream.to_string()
}

/// The text of the tokens of a constructor expression.
fn spelled_code(code: &Code) -> String {
    code.to_token_stream().to_string()
}

#[test]
fn preprocessor_version_profile_cases() {
    assert_eq!(
        spelled_code(&tokenize_preprocessor_version_profile(
            &PreprocessorVersionProfile::Core,
        )),
        spelled(
            "glsl::syntax::PreprocessorVersionProfile::Core",
        )
    );
    assert_eq!(
        spelled_code(&tokenize_preprocessor_version_profile(
            &PreprocessorVersionProfile::Compatibility,
        )),
        spelled(
            "glsl::syntax::PreprocessorVersionProfile::Compatibility",
        )
    );
    assert_eq!(
        spelled_code(&tokenize_preprocessor_version_profile(
            &PreprocessorVersionProfile::ES,
        )),
        spelled(
            "glsl::syntax::PreprocessorVersionProfile::ES",
        )
    );
}

#[test]
fn preprocessor_extension_behavior_cases() {
    assert_eq!(
        spelled_code(&tokenize_preprocessor_extension_behavior(
            &PreprocessorExtensionBehavior::Require,
        )),
        spelled(
            "glsl::syntax::PreprocessorExtensionBehavior::Require",
        )
    );
    assert_eq!(
        spelled_code(&tokenize_preprocessor_extension_behavior(
            &PreprocessorExtensionBehavior::Enable,
        )),
        spelled(
            "glsl::syntax::PreprocessorExtensionBehavior::Enable",
        )
    );
    assert_eq!(
        spelled_code(&tokenize_preprocessor_extension_behavior(
            &PreprocessorExtensionBehavior::Warn,
        )),
        spelled(
            "glsl::syntax::PreprocessorExtensionBehavior::Warn",
        )
    );
    assert_eq!(
        spelled_code(&tokenize_preprocessor_extension_behavior(
            &PreprocessorExtensionBehavior::Disable,
        )),
        spelled(
            "glsl::syntax::PreprocessorExtensionBehavior::Disable",
        )
    );
}

#[test]
fn preprocessor_version_cases() {
    assert_eq!(
        spelled_code(&tokenize_preprocessor_version(
            &PreprocessorVersion { version: 1, profile: None },
        )),
        spelled(
            "glsl::syntax::PreprocessorVersion { version: 1u16, profile: None }",
        )
    );
    assert_eq!(
        spelled_code(&tokenize_preprocessor_version(
            &PreprocessorVersion { version: 1, profile: Some(PreprocessorVersionProfile::Core) },
        )),
        spelled(
            "glsl::syntax::PreprocessorVersion { version: 1u16, profile: Some(\
             glsl::syntax::PreprocessorVersionProfile::Core) }",
        )
    );
}

#[test]
fn preprocessor_extension_name_cases() {
    assert_eq!(
        spelled_code(&tokenize_preprocessor_extension_name(
            &PreprocessorExtensionName::All,
        )),
        spelled(
            "glsl::syntax::PreprocessorExtensionName::All",
        )
    );
    assert_eq!(
        spelled_code(&tokenize_preprocessor_extension_name(
            &PreprocessorExtensionName::Specific("n1".to_string()),
        )),
        spelled(
            "glsl::syntax::PreprocessorExtensionName::Specific(String::from(\"n1\"))",
        )
    );
}

#[test]
fn preprocessor_extension_cases() {
    assert_eq!(
        spelled_code(&tokenize_preprocessor_extension(
            &PreprocessorExtension { name: PreprocessorExtensionName::All, behavior: None },
        )),
        spelled(
            "glsl::syntax::PreprocessorExtension { name: \
             glsl::syntax::PreprocessorExtensionName::All, behavior: None }",
        )
    );
    assert_eq!(
        spelled_code(&tokenize_preprocessor_extension(
            &PreprocessorExtension {
                name: PreprocessorExtensionName::All,
                behavior: Some(PreprocessorExtensionBehavior::Enable),
            },
        )),
        spelled(
            "glsl::syntax::PreprocessorExtension { name: \
             glsl::syntax::PreprocessorExtensionName::All, behavior: Some(\
             glsl::syntax::PreprocessorExtensionBehavior::Enable) }",
        )
    );
}

#[test]
fn preprocessor_cases() {
    assert_eq!(
        spelled_code(&tokenize_preprocessor(
            &Preprocessor::Version(PreprocessorVersion { version: 1, profile: None }),
        )),
        spelled(
            "glsl::syntax::Preprocessor::Version(glsl::syntax::PreprocessorVersion { version: \
             1u16, profile: None })",
        )
    );
    assert_eq!(
        spelled_code(&tokenize_preprocessor(
            &Preprocessor::Extension(
                PreprocessorExtension { name: PreprocessorExtensionName::All, behavior: None },
            ),
        )),
        spelled(
            "glsl::syntax::Preprocessor::Extension(glsl::syntax::PreprocessorExtension { name: \
             glsl::syntax::PreprocessorExtensionName::All, behavior: None })",
        )
    );
}
