use loginit::config::LevelInner;
use loginit::filter::{resolve_filter, severity_from_name, EffectiveFilter};

#[test]
fn severity_name_parsing_ignores_case() {
    assert_eq!(severity_from_name("warn"), Some(LevelInner::Warn));
    assert_eq!(severity_from_name("WARN"), Some(LevelInner::Warn));
    assert_eq!(severity_from_name("Trace"), Some(LevelInner::Trace));
    assert_eq!(severity_from_name("dEbUg"), Some(LevelInner::Debug));
    assert_eq!(severity_from_name("info"), Some(LevelInner::Info));
    assert_eq!(severity_from_name("error"), Some(LevelInner::Error));
}

#[test]
fn severity_name_parsing_rejects_other_strings() {
    assert_eq!(severity_from_name("off"), None);
    assert_eq!(severity_from_name(""), None);
    assert_eq!(severity_from_name("warn "), None);
    assert_eq!(severity_from_name("warning"), None);
}

#[test]
fn configured_level_takes_precedence_over_environment() {
    let env = String::from("debug");
    let f = resolve_filter(Some(LevelInner::Warn), Some(&env));
    assert_eq!(f, EffectiveFilter::Level(LevelInner::Warn));
}

#[test]
fn environment_expression_is_kept_rendered() {
    let env = String::from("debug");
    let f = resolve_filter(None, Some(&env));
    assert_eq!(f, EffectiveFilter::Expr(String::from("debug")));
}

#[test]
fn environment_expression_is_normalized() {
    // The parsed filter is kept in its rendered, lower-case form.
    let env = String::from("WARN");
    let f = resolve_filter(None, Some(&env));
    assert_eq!(f, EffectiveFilter::Expr(String::from("warn")));
}

#[test]
fn invalid_environment_expression_falls_back_to_info() {
    let env = String::from("foo=bar=baz");
    let f = resolve_filter(None, Some(&env));
    assert_eq!(f, EffectiveFilter::Level(LevelInner::Info));
}

#[test]
fn non_ascii_environment_expression_falls_back_to_info() {
    // A non-ASCII expression is never handed to the directive parser (whose
    // trimming can misalign byte indices on multibyte text); it falls back
    // to the Info default like any other invalid expression.
    let env = String::from(" aé=x");
    let f = resolve_filter(None, Some(&env));
    assert_eq!(f, EffectiveFilter::Level(LevelInner::Info));
    let umlaut = String::from("wärn");
    let g = resolve_filter(None, Some(&umlaut));
    assert_eq!(g, EffectiveFilter::Level(LevelInner::Info));
}

#[test]
fn absent_level_and_environment_fall_back_to_info() {
    let f = resolve_filter(None, None);
    assert_eq!(f, EffectiveFilter::Level(LevelInner::Info));
}

#[test]
fn ceiling_of_a_severity_filter_is_that_severity() {
    assert_eq!(EffectiveFilter::Level(LevelInner::Warn).ceiling(), Some(LevelInner::Warn));
}

#[test]
fn ceiling_of_an_expression_parses_its_severity_name() {
    assert_eq!(EffectiveFilter::Expr(String::from("info")).ceiling(), Some(LevelInner::Info));
    assert_eq!(EffectiveFilter::Expr(String::from("mycrate=debug")).ceiling(), None);
}
