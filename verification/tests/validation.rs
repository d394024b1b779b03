use lixiv_backend::fields::FieldMap;
use lixiv_backend::instance::NodeInstance;
use lixiv_backend::json::{JsonType, JsonValue};
use lixiv_backend::kind::{KindDefinition, KindRegistry};
use lixiv_backend::validate::{check_field, validate_instance, ValidationError};

fn number(n: i64) -> JsonValue {
    JsonValue::Number(serde_json::Number::from(n))
}

fn text(s: &str) -> JsonValue {
    JsonValue::String(s.to_string())
}

fn catalog() -> KindRegistry {
    let mut registry = KindRegistry::new();
    let food = KindDefinition::new("Food", None)
        .with_field("name", JsonType::String)
        .with_field("kcal", JsonType::Number);
    assert_eq!(registry.register_kind(food), Ok(()));
    registry
}

#[test]
fn shape_of_each_value() {
    assert_eq!(JsonType::of(&JsonValue::Null), JsonType::Null);
    assert_eq!(JsonType::of(&JsonValue::Bool(false)), JsonType::Bool);
    assert_eq!(JsonType::of(&number(22)), JsonType::Number);
    assert_eq!(JsonType::of(&text("22")), JsonType::String);
    assert_eq!(JsonType::of(&JsonValue::Array(vec![])), JsonType::Array);
    assert_eq!(JsonType::of(&JsonValue::Object(serde_json::Map::new())), JsonType::Object);
}

#[test]
fn shape_is_not_coerced() {
    // a string of digits is a string, a number is a number whatever its value
    assert_eq!(JsonType::of(&text("22")), JsonType::String);
    assert_eq!(JsonType::of(&text("")), JsonType::String);
    assert_eq!(JsonType::of(&text("null")), JsonType::String);
    assert_eq!(JsonType::of(&number(0)), JsonType::Number);
    assert_eq!(JsonType::of(&number(-7)), JsonType::Number);
    let half = serde_json::Number::from_f64(0.5).unwrap();
    assert_eq!(JsonType::of(&JsonValue::Number(half)), JsonType::Number);
    let big = serde_json::Number::from(u64::MAX);
    assert_eq!(JsonType::of(&JsonValue::Number(big)), JsonType::Number);
    assert_eq!(JsonType::of(&JsonValue::Bool(true)), JsonType::Bool);
    let nested = vec![serde_json::Value::Null, serde_json::Value::Bool(true)];
    assert_eq!(JsonType::of(&JsonValue::Array(nested)), JsonType::Array);
}

#[test]
fn instance_with_only_its_name_validates() {
    let registry = catalog();
    let tomatoes = NodeInstance::new("Food", "Tomatoes");
    assert_eq!(validate_instance(&registry, &tomatoes), Ok(()));
}

#[test]
fn instance_with_all_declared_fields_validates() {
    let registry = catalog();
    let mut tomatoes = NodeInstance::new("Food", "Tomatoes");
    tomatoes.insert("kcal", number(22));
    assert_eq!(validate_instance(&registry, &tomatoes), Ok(()));
}

#[test]
fn instance_without_fields_validates() {
    let registry = catalog();
    let bare = NodeInstance::from_parts("Food", FieldMap::new());
    assert_eq!(validate_instance(&registry, &bare), Ok(()));
}

#[test]
fn undeclared_field_is_unknown() {
    let registry = catalog();
    let mut tomatoes = NodeInstance::new("Food", "Tomatoes");
    tomatoes.insert("price", number(3));
    assert_eq!(
        validate_instance(&registry, &tomatoes),
        Err(ValidationError::UnknownField("price".to_string()))
    );
}

#[test]
fn string_where_number_is_declared_is_wrong_type() {
    let registry = catalog();
    let mut data = FieldMap::new();
    data.insert("kcal".to_string(), text("22"));
    let tomatoes = NodeInstance::from_parts("Food", data);
    assert_eq!(
        validate_instance(&registry, &tomatoes),
        Err(ValidationError::WrongType {
            field: "kcal".to_string(),
            expected: JsonType::Number,
            actual: JsonType::String,
        })
    );
}

#[test]
fn wrong_type_after_a_good_name() {
    let registry = catalog();
    let mut tomatoes = NodeInstance::new("Food", "Tomatoes");
    tomatoes.insert("kcal", text("22"));
    assert_eq!(
        validate_instance(&registry, &tomatoes),
        Err(ValidationError::WrongType {
            field: "kcal".to_string(),
            expected: JsonType::Number,
            actual: JsonType::String,
        })
    );
}

#[test]
fn number_where_string_is_declared_is_wrong_type() {
    let registry = catalog();
    let mut tomatoes = NodeInstance::new("Food", "Tomatoes");
    tomatoes.insert("name", number(1));
    assert_eq!(
        validate_instance(&registry, &tomatoes),
        Err(ValidationError::WrongType {
            field: "name".to_string(),
            expected: JsonType::String,
            actual: JsonType::Number,
        })
    );
}

#[test]
fn null_is_a_type_of_its_own() {
    let registry = catalog();
    let mut tomatoes = NodeInstance::new("Food", "Tomatoes");
    tomatoes.insert("kcal", JsonValue::Null);
    assert_eq!(
        validate_instance(&registry, &tomatoes),
        Err(ValidationError::WrongType {
            field: "kcal".to_string(),
            expected: JsonType::Number,
            actual: JsonType::Null,
        })
    );
}

#[test]
fn numbers_are_not_range_checked() {
    let registry = catalog();
    for n in [
        serde_json::Number::from(i64::MIN),
        serde_json::Number::from(u64::MAX),
        serde_json::Number::from_f64(-0.25).unwrap(),
        serde_json::Number::from_f64(1.0e300).unwrap(),
    ] {
        let mut tomatoes = NodeInstance::new("Food", "Tomatoes");
        tomatoes.insert("kcal", JsonValue::Number(n));
        assert_eq!(validate_instance(&registry, &tomatoes), Ok(()));
    }
}

#[test]
fn unregistered_kind_is_unknown() {
    let registry = catalog();
    let stone = NodeInstance::new("Mineral", "Quartz");
    assert_eq!(
        validate_instance(&registry, &stone),
        Err(ValidationError::UnknownKind("Mineral".to_string()))
    );
}

#[test]
fn unknown_kind_whatever_the_data() {
    let registry = catalog();
    let bare = NodeInstance::from_parts("Mineral", FieldMap::new());
    assert_eq!(
        validate_instance(&registry, &bare),
        Err(ValidationError::UnknownKind("Mineral".to_string()))
    );
    let mut odd = NodeInstance::new("Mineral", "Quartz");
    odd.insert("kcal", text("22"));
    odd.insert("price", JsonValue::Null);
    assert_eq!(
        validate_instance(&registry, &odd),
        Err(ValidationError::UnknownKind("Mineral".to_string()))
    );
}

#[test]
fn unknown_kind_in_an_empty_catalog() {
    let registry = KindRegistry::new();
    let tomatoes = NodeInstance::new("Food", "Tomatoes");
    assert_eq!(
        validate_instance(&registry, &tomatoes),
        Err(ValidationError::UnknownKind("Food".to_string()))
    );
}

#[test]
fn first_fault_in_field_order_is_reported() {
    let registry = catalog();
    let mut a = NodeInstance::new("Food", "Tomatoes");
    a.insert("price", number(3));
    a.insert("kcal", text("22"));
    assert_eq!(
        validate_instance(&registry, &a),
        Err(ValidationError::UnknownField("price".to_string()))
    );
    let mut b = NodeInstance::new("Food", "Tomatoes");
    b.insert("kcal", text("22"));
    b.insert("price", number(3));
    assert_eq!(
        validate_instance(&registry, &b),
        Err(ValidationError::WrongType {
            field: "kcal".to_string(),
            expected: JsonType::Number,
            actual: JsonType::String,
        })
    );
}

#[test]
fn overwriting_a_field_keeps_its_place_in_the_order() {
    let registry = catalog();
    let mut a = NodeInstance::new("Food", "Tomatoes");
    a.insert("kcal", number(22));
    a.insert("price", number(3));
    // kcal stays ahead of price, so its fault is the one reported
    a.insert("kcal", JsonValue::Bool(true));
    assert_eq!(
        validate_instance(&registry, &a),
        Err(ValidationError::WrongType {
            field: "kcal".to_string(),
            expected: JsonType::Number,
            actual: JsonType::Bool,
        })
    );
}

#[test]
fn fixing_the_field_makes_the_instance_valid() {
    let registry = catalog();
    let mut tomatoes = NodeInstance::new("Food", "Tomatoes");
    tomatoes.insert("kcal", text("22"));
    assert!(validate_instance(&registry, &tomatoes).is_err());
    tomatoes.insert("kcal", number(22));
    assert_eq!(validate_instance(&registry, &tomatoes), Ok(()));
}

#[test]
fn parent_fields_are_not_inherited() {
    let mut registry = KindRegistry::new();
    let food = KindDefinition::new("Food", None).with_field("name", JsonType::String);
    let nutrition = KindDefinition::new("Nutrition", Some("Food")).with_field("kcal", JsonType::Number);
    assert_eq!(registry.register_kind(food), Ok(()));
    assert_eq!(registry.register_kind(nutrition), Ok(()));
    let mut kcal = NodeInstance::new("Nutrition", "TomatoKcal");
    kcal.insert("kcal", number(22));
    assert_eq!(
        validate_instance(&registry, &kcal),
        Err(ValidationError::UnknownField("name".to_string()))
    );
}

#[test]
fn field_names_are_compared_exactly() {
    let registry = catalog();
    let mut data = FieldMap::new();
    data.insert("Name".to_string(), text("Tomatoes"));
    let inst = NodeInstance::from_parts("Food", data);
    assert_eq!(
        validate_instance(&registry, &inst),
        Err(ValidationError::UnknownField("Name".to_string()))
    );
}

#[test]
fn cloned_instance_validates_alike() {
    let registry = catalog();
    let mut good = NodeInstance::new("Food", "Tomatoes");
    good.insert("kcal", number(22));
    assert_eq!(validate_instance(&registry, &good.clone()), validate_instance(&registry, &good));
    let mut bad = NodeInstance::new("Food", "Tomatoes");
    bad.insert("price", number(3));
    assert_eq!(validate_instance(&registry, &bad.clone()), validate_instance(&registry, &bad));
}

#[test]
fn single_field_check() {
    let food = KindDefinition::new("Food", None)
        .with_field("name", JsonType::String)
        .with_field("tags", JsonType::Array);
    assert_eq!(check_field(&food, "name", &text("Tomatoes")), Ok(()));
    assert_eq!(check_field(&food, "tags", &JsonValue::Array(vec![])), Ok(()));
    assert_eq!(
        check_field(&food, "price", &number(3)),
        Err(ValidationError::UnknownField("price".to_string()))
    );
    assert_eq!(
        check_field(&food, "tags", &JsonValue::Object(serde_json::Map::new())),
        Err(ValidationError::WrongType {
            field: "tags".to_string(),
            expected: JsonType::Array,
            actual: JsonType::Object,
        })
    );
}

#[test]
fn cloned_validation_error_is_equal() {
    let errors = [
        ValidationError::UnknownKind("Food".to_string()),
        ValidationError::UnknownField("Food".to_string()),
        ValidationError::WrongType {
            field: "kcal".to_string(),
            expected: JsonType::Number,
            actual: JsonType::String,
        },
    ];
    for (i, e) in errors.iter().enumerate() {
        assert_eq!(&e.clone(), e);
        for (j, other) in errors.iter().enumerate() {
            assert_eq!(i == j, e == other);
        }
    }
}
