use std::collections::HashSet;

use espocrm_rs::FilterType;
use espocrm_rs::Order;
use espocrm_rs::Value;
use espocrm_rs::Where;

fn all_filter_types() -> Vec<FilterType> {
    vec![
        FilterType::Equals,
        FilterType::NotEquals,
        FilterType::GreaterThan,
        FilterType::LessThan,
        FilterType::GreaterThanOrEquals,
        FilterType::LessThanOrEquals,
        FilterType::IsNull,
        FilterType::IsNotNull,
        FilterType::IsTrue,
        FilterType::IsFalse,
        FilterType::LinkedWith,
        FilterType::NotLinkedWith,
        FilterType::IsLinked,
        FilterType::IsNotLinked,
        FilterType::In,
        FilterType::NotIn,
        FilterType::Contains,
        FilterType::NotContains,
        FilterType::StartsWith,
        FilterType::EndsWith,
        FilterType::Like,
        FilterType::NotLike,
        FilterType::Or,
        FilterType::AndToday,
        FilterType::Past,
        FilterType::Future,
        FilterType::LastSevenDays,
        FilterType::CurrentMonth,
        FilterType::LastMonth,
        FilterType::NextMonth,
        FilterType::CurrentQuarter,
        FilterType::LastQuarter,
        FilterType::CurrentYear,
        FilterType::LastYear,
        FilterType::CurrentFiscalYear,
        FilterType::LastFiscalYear,
        FilterType::CurrentFiscalQuarter,
        FilterType::LastFiscalQuarter,
        FilterType::LastXDays,
        FilterType::NextXDays,
        FilterType::OlderThanXDays,
        FilterType::AfterXDays,
        FilterType::Between,
        FilterType::ArrayAnyOf,
        FilterType::ArrayNoneOf,
        FilterType::ArrayAllOf,
        FilterType::ArrayIsEmpty,
        FilterType::ArrayIsNotEmpty,
    ]
}

fn lower_camel_case(name: &str) -> String {
    let mut chars = name.chars();
    match chars.next() {
        Some(first) => first.to_ascii_lowercase().to_string() + chars.as_str(),
        None => String::new(),
    }
}

#[test]
fn filter_tokens_are_lower_camel_case_of_names() {
    for t in all_filter_types() {
        let name = format!("{:?}", t);
        assert_eq!(lower_camel_case(&name), t.token().to_string());
    }
}

#[test]
fn filter_tokens_have_no_collisions() {
    let types = all_filter_types();
    let tokens: HashSet<&str> = types.iter().map(|t| t.token()).collect();
    assert_eq!(types.len(), tokens.len());
}

#[test]
fn filter_token_samples() {
    assert_eq!("isNotNull", FilterType::IsNotNull.token());
    assert_eq!("arrayAnyOf", FilterType::ArrayAnyOf.token());
    assert_eq!("in", FilterType::In.token());
    assert_eq!("currentFiscalQuarter", FilterType::CurrentFiscalQuarter.token());
}

#[test]
fn order_tokens() {
    assert_eq!("asc", Order::Asc.token());
    assert_eq!("desc", Order::Desc.token());
}

#[test]
fn value_eq_compares_variant_tags_only() {
    assert!(Value::str("a").eq(&Value::str("b")));
    assert!(Value::string("a".to_string()).eq(&Value::String(None)));
    assert!(Value::integer(1).eq(&Value::integer(2)));
    assert!(Value::bool(true).eq(&Value::bool(false)));
    assert!(Value::array(vec![]).eq(&Value::Array(None)));
    assert!(!Value::str("1").eq(&Value::integer(1)));
    assert!(!Value::bool(true).eq(&Value::integer(1)));
    assert!(!Value::array(vec![]).eq(&Value::str("")));
}

#[test]
fn value_constructors() {
    assert_eq!(Value::String(Some("a".to_string())), Value::str("a"));
    assert_eq!(Value::String(Some("a".to_string())), Value::string("a".to_string()));
    assert_eq!(Value::Integer(Some(3)), Value::integer(3));
    assert_eq!(Value::Boolean(Some(false)), Value::bool(false));
    assert_eq!(
        Value::Array(Some(vec![Value::Integer(Some(1))])),
        Value::array(vec![Value::integer(1)])
    );
}

#[test]
fn where_new_builds_the_condition() {
    let w = Where::new(FilterType::Equals, "name", Some(Value::str("x")));
    assert_eq!(FilterType::Equals, w.filter_type);
    assert_eq!("name".to_string(), w.attribute);
    assert_eq!(Some(Value::str("x")), w.value);
}
