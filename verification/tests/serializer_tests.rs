use std::collections::HashSet;

use espocrm_rs::serialize;
use espocrm_rs::FilterType;
use espocrm_rs::Order;
use espocrm_rs::Params;
use espocrm_rs::Value;
use espocrm_rs::Where;

fn assert_eq_unsorted_vec(a: &Vec<&str>, b: &Vec<&str>) -> bool {
    let a: HashSet<_> = a.iter().collect();
    let b: HashSet<_> = b.iter().collect();

    a == b
}

#[test]
fn serialize_basic() {
    let params = Params::new().set_offset(0).set_order(Order::Desc).build();

    let serialized = serialize(params).unwrap();
    let serialized_split: Vec<_> = serialized.split("&").collect();

    let correct = vec!["order=desc", "offset=0"];
    assert!(assert_eq_unsorted_vec(&serialized_split, &correct))
}

#[test]
fn serialize_without_where_value() {
    let params = Params::new()
        .set_offset(0)
        .set_where(vec![Where {
            filter_type: FilterType::IsTrue,
            attribute: "exampleBoolean".to_string(),
            value: None,
        }])
        .build();

    let serialized = serialize(params).unwrap();

    assert_eq!(
        "offset=0&where%5B0%5D%5Btype%5D=isTrue&where%5B0%5D%5Battribute%5D=exampleBoolean"
            .to_string(),
        serialized
    );
}

#[test]
fn serialize_with_where_string_value() {
    let params = Params::new()
        .set_offset(0)
        .set_where(vec![Where {
            filter_type: FilterType::IsTrue,
            attribute: "exampleBoolean".to_string(),
            value: Some(Value::str("a")),
        }])
        .build();

    let serialized = serialize(params).unwrap();

    assert_eq!("offset=0&where%5B0%5D%5Btype%5D=isTrue&where%5B0%5D%5Battribute%5D=exampleBoolean&where%5B0%5D%5Bvalue%5D=a".to_string(), serialized);
}

#[test]
fn serialize_with_where_array_value() {
    let params = Params::new()
        .set_offset(0)
        .set_where(vec![Where {
            filter_type: FilterType::IsTrue,
            attribute: "exampleBoolean".to_string(),
            value: Some(Value::Array(Some(vec![
                Value::str("a"),
                Value::str("b"),
                Value::str("c"),
            ]))),
        }])
        .build();

    let serialized = serialize(params).unwrap();

    assert_eq!("offset=0&where%5B0%5D%5Btype%5D=isTrue&where%5B0%5D%5Battribute%5D=exampleBoolean&where%5B0%5D%5Bvalue%5D%5B0%5D=a&where%5B0%5D%5Bvalue%5D%5B1%5D=b&where%5B0%5D%5Bvalue%5D%5B2%5D=c".to_string(), serialized);
}

#[test]
fn serialize_empty_params_gives_empty_string() {
    assert_eq!("".to_string(), serialize(Params::new()).unwrap());
    assert_eq!("".to_string(), serialize(Params::default()).unwrap());
}

#[test]
fn serialize_field_order() {
    let params = Params::new()
        .set_offset(7)
        .set_max_size(20)
        .set_select("name,id")
        .set_primary_filter("starred")
        .set_bool_filter_list(vec!["onlyMy".to_string(), "followed".to_string()])
        .set_order(Order::Asc)
        .set_order_by("name")
        .build();

    let serialized = serialize(params).unwrap();
    assert_eq!(
        "select=name%2Cid&orderBy=name&order=asc&offset=7&boolFilterList%5B0%5D=onlyMy&boolFilterList%5B1%5D=followed&maxSize=20&primaryFilter=starred",
        serialized
    );
}

#[test]
fn serialize_encodes_spaces_as_percent_twenty() {
    let params = Params::new().set_select("a b").build();
    assert_eq!("select=a%20b".to_string(), serialize(params).unwrap());
}

#[test]
fn serialize_negative_and_extreme_integers() {
    let params = Params::new().set_offset(-5).set_max_size(i64::MAX).build();
    assert_eq!(
        "offset=-5&maxSize=9223372036854775807".to_string(),
        serialize(params).unwrap()
    );

    let params = Params::new().set_offset(i64::MIN).build();
    assert_eq!(
        "offset=-9223372036854775808".to_string(),
        serialize(params).unwrap()
    );
}

#[test]
fn serialize_scalar_where_values() {
    let params = Params::new()
        .set_where(vec![
            Where::new(FilterType::Equals, "age", Some(Value::integer(42))),
            Where::new(FilterType::IsTrue, "active", Some(Value::bool(true))),
            Where::new(FilterType::IsFalse, "archived", Some(Value::bool(false))),
        ])
        .build();

    let serialized = serialize(params).unwrap();
    assert_eq!(
        "where%5B0%5D%5Btype%5D=equals&where%5B0%5D%5Battribute%5D=age&where%5B0%5D%5Bvalue%5D=42\
         &where%5B1%5D%5Btype%5D=isTrue&where%5B1%5D%5Battribute%5D=active&where%5B1%5D%5Bvalue%5D=true\
         &where%5B2%5D%5Btype%5D=isFalse&where%5B2%5D%5Battribute%5D=archived&where%5B2%5D%5Bvalue%5D=false"
            .replace(" ", ""),
        serialized
    );
}

#[test]
fn serialize_nested_array_value() {
    let params = Params::new()
        .set_where(vec![Where::new(
            FilterType::In,
            "pairs",
            Some(Value::array(vec![
                Value::array(vec![Value::str("a"), Value::str("b")]),
                Value::str("c"),
            ])),
        )])
        .build();

    let serialized = serialize(params).unwrap();
    assert_eq!(
        "where%5B0%5D%5Btype%5D=in&where%5B0%5D%5Battribute%5D=pairs\
         &where%5B0%5D%5Bvalue%5D%5B0%5D%5B0%5D=a&where%5B0%5D%5Bvalue%5D%5B0%5D%5B1%5D=b\
         &where%5B0%5D%5Bvalue%5D%5B1%5D=c"
            .replace(" ", ""),
        serialized
    );
}

#[test]
fn serialize_percent_encodes_values() {
    let params = Params::new()
        .set_where(vec![Where::new(
            FilterType::Equals,
            "name",
            Some(Value::str("a&b=c/d")),
        )])
        .build();

    let serialized = serialize(params).unwrap();
    assert_eq!(
        "where%5B0%5D%5Btype%5D=equals&where%5B0%5D%5Battribute%5D=name\
         &where%5B0%5D%5Bvalue%5D=a%26b%3Dc%2Fd"
            .replace(" ", ""),
        serialized
    );
}

#[test]
fn params_well_formedness_check() {
    let good = Params::new()
        .set_where(vec![Where::new(
            FilterType::Equals,
            "name",
            Some(Value::str("a")),
        )])
        .build();
    assert!(good.is_well_formed());

    let bad = Params::new()
        .set_where(vec![Where {
            filter_type: FilterType::Equals,
            attribute: "name".to_string(),
            value: Some(Value::String(None)),
        }])
        .build();
    assert!(!bad.is_well_formed());

    let bad_nested = Params::new()
        .set_where(vec![Where {
            filter_type: FilterType::In,
            attribute: "name".to_string(),
            value: Some(Value::Array(Some(vec![Value::Integer(None)]))),
        }])
        .build();
    assert!(!bad_nested.is_well_formed());
}

#[test]
fn serialize_is_deterministic() {
    let build = || {
        Params::new()
            .set_offset(3)
            .set_where(vec![Where::new(
                FilterType::Contains,
                "name",
                Some(Value::str("b c")),
            )])
            .build()
    };
    assert_eq!(serialize(build()).unwrap(), serialize(build()).unwrap());
}
