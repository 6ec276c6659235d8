use proc_macro2::TokenStream;
use tuikk::base_err_ext::{extend_base_err, ExtendError};

fn tokens(s: &str) -> TokenStream {
    s.parse::<TokenStream>().unwrap()
}

fn names(v: &[&str]) -> Vec<String> {
    v.iter().map(|s| s.to_string()).collect()
}

#[test]
fn adds_base_variant_and_derives() {
    let out = extend_base_err(
        tokens(""),
        tokens("pub enum DockerErr { #[error(\"not found: {0}\")] NotFound(String), }"),
    )
    .ok()
    .unwrap();
    assert!(out.variants.contains(&"Base".to_string()));
    assert!(out.derive_error);
    assert!(out.derive_debug);
    assert!(out.base_path.contains("crate::tuikk_core::errors::BaseErr"));
    assert_eq!(out.variants, names(&["NotFound", "Base"]));
}

#[test]
fn does_not_duplicate_existing_derives() {
    let out = extend_base_err(
        tokens(""),
        tokens("#[derive(Debug, thiserror::Error)] enum E { #[error(\"x\")] X }"),
    )
    .ok()
    .unwrap();
    assert!(!out.derive_debug);
    assert!(!out.derive_error);
}

#[test]
fn custom_base_path() {
    let out = extend_base_err(tokens("crate::errors::MyBase"), tokens("enum E {}")).ok().unwrap();
    assert!(out.base_path.contains("crate :: errors :: MyBase"));
}

#[test]
fn rejects_duplicate_base() {
    assert!(extend_base_err(tokens(""), tokens("enum E { Base(u8) }")).is_err());
}

#[test]
fn rejects_non_enum() {
    let err = extend_base_err(tokens(""), tokens("struct S;")).err().unwrap();
    assert!(err.message().contains("can only be applied to enums"));
}

#[test]
fn keeps_original_syntax_error() {
    let err = extend_base_err(tokens(""), tokens("enum E { A B }")).err().unwrap();
    assert!(!err.message().contains("can only be applied to enums"));
    assert!(matches!(err, ExtendError::Unreadable(_)));
}

#[test]
fn extend_keeps_some_derives_and_adds_others() {
    let out = extend_base_err(tokens(""), tokens("#[derive(Clone, core::fmt::Debug)] enum E {}"))
        .ok()
        .unwrap();
    assert!(!out.derive_debug);
    assert!(out.derive_error);
    assert_eq!(out.variants, names(&["Base"]));
}

#[test]
fn extend_looks_only_at_plain_derive_attributes() {
    // `#[::derive(..)]` and `#[serde(..)]` are not the `derive` attribute.
    let out = extend_base_err(
        tokens(""),
        tokens("#[serde(Debug)] #[doc = \"x\"] #[derive(Clone)] enum E { A }"),
    )
    .ok()
    .unwrap();
    assert!(out.derive_debug);
    assert!(out.derive_error);
}

#[test]
fn extend_refusal_messages() {
    let err = extend_base_err(tokens(""), tokens("enum E { A, Base }")).err().unwrap();
    assert!(matches!(err, ExtendError::DuplicateBase(_)));
    assert_eq!(
        err.message(),
        "variant `Base` is generated by #[extend_base_err]; rename or remove it"
    );
    let err = extend_base_err(tokens(""), tokens("fn f() {}")).err().unwrap();
    assert!(matches!(err, ExtendError::NotAnEnum(_)));
    assert_eq!(err.message(), "#[extend_base_err] can only be applied to enums");
}

#[test]
fn extend_rejects_argument_that_is_not_a_path() {
    let err = extend_base_err(tokens("\"text\""), tokens("enum E {}")).err().unwrap();
    assert!(matches!(err, ExtendError::BadPath(_)));
}

#[test]
fn extend_reports_unreadable_derive_after_base_check() {
    let err = extend_base_err(tokens(""), tokens("#[derive(Debug = 1)] enum E { A }")).err().unwrap();
    assert!(matches!(err, ExtendError::MalformedDerive(_)));
    assert!(!err.message().is_empty());
    let err = extend_base_err(tokens(""), tokens("#[derive(Debug = 1)] enum E { Base }")).err().unwrap();
    assert!(matches!(err, ExtendError::DuplicateBase(_)));
}

#[test]
fn extend_refuses_its_own_output() {
    let out = extend_base_err(tokens(""), tokens("#[derive(Clone)] enum E { A, B(u8) }"))
        .ok()
        .unwrap();
    assert_eq!(out.variants, names(&["A", "B", "Base"]));
    let again = format!(
        "#[derive(Clone)] enum E {{ A, B(u8), {}({}) }}",
        out.variants[2], out.base_path
    );
    let err = extend_base_err(tokens(""), tokens(&again)).err().unwrap();
    assert!(matches!(err, ExtendError::DuplicateBase(_)));
    let err = extend_base_err(tokens("crate::errors::MyBase"), tokens(&again)).err().unwrap();
    assert!(matches!(err, ExtendError::DuplicateBase(_)));
}

#[test]
fn extend_empty_argument_takes_default_path() {
    let out = extend_base_err(TokenStream::new(), tokens("enum E { A }")).ok().unwrap();
    assert_eq!(out.base_path, "crate::tuikk_core::errors::BaseErr");
    assert!(!matches!(
        extend_base_err(TokenStream::new(), tokens("struct S;")),
        Err(ExtendError::BadPath(_))
    ));
}
