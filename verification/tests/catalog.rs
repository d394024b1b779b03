use lixiv_backend::json::JsonType;
use lixiv_backend::kind::{KindDefinition, KindRegistry, RegistryError};

fn food() -> KindDefinition {
    KindDefinition::new("Food", None).with_field("name", JsonType::String)
}

#[test]
fn new_catalog_is_empty() {
    let registry = KindRegistry::new();
    assert!(registry.get("Food").is_none());
    assert!(registry.get("").is_none());
}

#[test]
fn registered_kind_is_found_by_name() {
    let mut registry = KindRegistry::new();
    assert_eq!(registry.register_kind(food()), Ok(()));
    let found = registry.get("Food").expect("Food is registered");
    assert_eq!(found, &food());
    assert_eq!(found.name(), "Food");
    assert_eq!(found.parent(), None);
    assert_eq!(found.field_type("name"), Some(JsonType::String));
    assert_eq!(found.field_type("kcal"), None);
}

#[test]
fn lookup_of_a_missing_kind_is_none() {
    let mut registry = KindRegistry::new();
    assert_eq!(registry.register_kind(food()), Ok(()));
    assert!(registry.get("food").is_none());
    assert!(registry.get("Foo").is_none());
    assert!(registry.get("Food ").is_none());
}

#[test]
fn child_registers_after_its_parent() {
    let mut registry = KindRegistry::new();
    assert_eq!(registry.register_kind(food()), Ok(()));
    let ingredient = KindDefinition::new("Ingredient", Some("Food"));
    assert_eq!(registry.register_kind(ingredient), Ok(()));
    let nutrition = KindDefinition::new("Nutrition", Some("Ingredient"));
    assert_eq!(registry.register_kind(nutrition), Ok(()));
    assert_eq!(registry.get("Nutrition").unwrap().parent(), Some("Ingredient"));
}

#[test]
fn unknown_parent_is_refused() {
    let mut registry = KindRegistry::new();
    let ingredient = KindDefinition::new("Ingredient", Some("Food"));
    assert_eq!(
        registry.register_kind(ingredient),
        Err(RegistryError::UnknownParent("Food".to_string()))
    );
    assert!(registry.get("Ingredient").is_none());
}

#[test]
fn child_before_parent_is_refused_then_accepted() {
    let mut registry = KindRegistry::new();
    let ingredient = KindDefinition::new("Ingredient", Some("Food"));
    assert_eq!(
        registry.register_kind(ingredient.clone()),
        Err(RegistryError::UnknownParent("Food".to_string()))
    );
    assert_eq!(registry.register_kind(food()), Ok(()));
    assert_eq!(registry.register_kind(ingredient), Ok(()));
}

#[test]
fn kind_cannot_be_its_own_parent() {
    let mut registry = KindRegistry::new();
    let odd = KindDefinition::new("Loop", Some("Loop"));
    assert_eq!(
        registry.register_kind(odd),
        Err(RegistryError::UnknownParent("Loop".to_string()))
    );
    assert!(registry.get("Loop").is_none());
}

#[test]
fn identical_second_registration_is_a_duplicate() {
    let mut registry = KindRegistry::new();
    assert_eq!(registry.register_kind(food()), Ok(()));
    assert_eq!(
        registry.register_kind(food()),
        Err(RegistryError::DuplicateKind("Food".to_string()))
    );
}

#[test]
fn different_second_registration_is_a_duplicate() {
    let mut registry = KindRegistry::new();
    assert_eq!(registry.register_kind(food()), Ok(()));
    let other = KindDefinition::new("Food", None).with_field("kcal", JsonType::Number);
    assert_eq!(
        registry.register_kind(other),
        Err(RegistryError::DuplicateKind("Food".to_string()))
    );
    // the first definition stays
    let kept = registry.get("Food").unwrap();
    assert_eq!(kept.field_type("name"), Some(JsonType::String));
    assert_eq!(kept.field_type("kcal"), None);
}

#[test]
fn duplicate_with_a_registered_parent_is_a_duplicate() {
    let mut registry = KindRegistry::new();
    assert_eq!(registry.register_kind(food()), Ok(()));
    let ingredient = KindDefinition::new("Ingredient", Some("Food"));
    assert_eq!(registry.register_kind(ingredient.clone()), Ok(()));
    assert_eq!(
        registry.register_kind(ingredient),
        Err(RegistryError::DuplicateKind("Ingredient".to_string()))
    );
}

#[test]
fn unknown_parent_is_reported_before_duplicate_name() {
    let mut registry = KindRegistry::new();
    assert_eq!(registry.register_kind(food()), Ok(()));
    let again = KindDefinition::new("Food", Some("Dish"));
    assert_eq!(
        registry.register_kind(again),
        Err(RegistryError::UnknownParent("Dish".to_string()))
    );
}

#[test]
fn refused_registration_changes_nothing() {
    let mut registry = KindRegistry::new();
    assert_eq!(registry.register_kind(food()), Ok(()));
    let orphan = KindDefinition::new("Sauce", Some("Condiment"));
    assert!(registry.register_kind(orphan).is_err());
    assert!(registry.get("Sauce").is_none());
    assert!(registry.get("Condiment").is_none());
    assert_eq!(registry.get("Food"), Some(&food()));
}

#[test]
fn definition_builder_sets_and_overwrites_fields() {
    let def = KindDefinition::new("Nutrition", Some("Ingredient"))
        .with_field("kcal", JsonType::String)
        .with_field("unit", JsonType::String)
        .with_field("kcal", JsonType::Number);
    assert_eq!(def.name(), "Nutrition");
    assert_eq!(def.parent(), Some("Ingredient"));
    assert_eq!(def.field_type("kcal"), Some(JsonType::Number));
    assert_eq!(def.field_type("unit"), Some(JsonType::String));
    assert_eq!(def.field_type("name"), None);
}

#[test]
fn definition_without_fields_declares_none() {
    let def = KindDefinition::new("Empty", None);
    assert_eq!(def.field_type("name"), None);
    assert_eq!(def.field_type(""), None);
}

#[test]
fn cloned_definition_is_equal() {
    let def = food().with_field("kcal", JsonType::Number);
    let copy = def.clone();
    assert_eq!(copy, def);
    assert_eq!(copy.field_type("kcal"), Some(JsonType::Number));
}

#[test]
fn cloned_catalog_holds_the_same_kinds() {
    let mut registry = KindRegistry::new();
    assert_eq!(registry.register_kind(food()), Ok(()));
    let mut copy = registry.clone();
    assert_eq!(copy.get("Food"), Some(&food()));
    // the copy grows on its own
    assert_eq!(copy.register_kind(KindDefinition::new("Ingredient", Some("Food"))), Ok(()));
    assert!(registry.get("Ingredient").is_none());
}

#[test]
fn cloned_registry_error_is_equal() {
    let dup = RegistryError::DuplicateKind("Food".to_string());
    let orphan = RegistryError::UnknownParent("Food".to_string());
    assert_eq!(dup.clone(), dup);
    assert_eq!(orphan.clone(), orphan);
    assert_ne!(dup, orphan);
}
