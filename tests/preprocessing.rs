use casl::config::{ConfigError, Mapping, PreprocessorConfig};
use casl::preprocessor::{preprocess, ITextPreprocessor, Preprocessor, RedirectConfig, SimpleMapper};

fn mapping(search: &str, replace: &str) -> Mapping {
    Mapping { search: search.to_string(), replace: replace.to_string(), name: None }
}

#[test]
fn first_matching_rule_wins() {
    let m = SimpleMapper::from_mappings(&vec![mapping("a", "X"), mapping("b", "Y")]).unwrap();
    assert_eq!(m.process("ab"), "Xb");
}

#[test]
fn later_rule_applies_when_earlier_do_not_match() {
    let m = SimpleMapper::from_mappings(&vec![mapping("z", "X"), mapping("b", "Y")]).unwrap();
    assert_eq!(m.process("abb"), "aYY");
}

#[test]
fn no_match_leaves_text() {
    let m = SimpleMapper::from_mappings(&vec![mapping("z", "X")]).unwrap();
    assert_eq!(m.process("abc"), "abc");
}

#[test]
fn remap_is_case_exact() {
    let m = SimpleMapper::from_mappings(&vec![mapping("a", "X")]).unwrap();
    assert_eq!(m.process("AAa"), "AAX");
}

#[test]
fn remap_expands_groups() {
    let m = SimpleMapper::from_mappings(&vec![mapping("(\\w+) please", "do $1")]).unwrap();
    assert_eq!(m.process("jump please"), "do jump");
}

#[test]
fn invalid_search_pattern_is_reported() {
    let r = SimpleMapper::from_mappings(&vec![mapping("a", "X"), mapping("(", "Y")]);
    assert_eq!(r.err(), Some(1));
    let conf = PreprocessorConfig::Remap { mappings: vec![mapping("(", "Y")] };
    assert_eq!(conf.preprocessor().err(), Some(ConfigError::InvalidPattern { index: 0 }));
}

#[test]
fn redirect_needs_loading() {
    let conf = PreprocessorConfig::Redirect { path: "x.json".to_string() };
    assert_eq!(conf.preprocessor().err(), Some(ConfigError::Unresolved));
}

#[test]
fn chain_applies_in_order() {
    let first = PreprocessorConfig::Remap { mappings: vec![mapping("one", "two")] };
    let second = PreprocessorConfig::Remap { mappings: vec![mapping("two", "three")] };
    let inner = PreprocessorConfig::Remap { mappings: vec![mapping("three", "four")] };
    let redirect = RedirectConfig::from_parts("more.json".to_string(), inner.preprocessor().unwrap());
    assert_eq!(redirect.process("three"), "four");
    let pres: Vec<Preprocessor> = vec![
        first.preprocessor().unwrap(),
        second.preprocessor().unwrap(),
        Preprocessor::Redirect(redirect),
    ];
    assert_eq!(preprocess(&pres, "one"), "four");
    assert_eq!(preprocess(&pres, "zero"), "zero");
}
