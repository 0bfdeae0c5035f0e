use sensocto::channel::validate_attribute_id;
use sensocto::error::SensoctoError;

#[test]
fn accepts_well_formed_ids() {
    for id in [
        "a",
        "A",
        "z9",
        "temp-1",
        "heart_rate",
        "Sensor-Value_42",
        "abcdefghijklmnopqrstuvwxyzABCDEFGHIJKLMNOPQRSTUVWXYZ0123456789_-",
    ] {
        assert!(id.len() <= 64);
        assert!(validate_attribute_id(id).is_ok(), "{id}");
    }
    let exactly_64 = "a".repeat(64);
    assert!(validate_attribute_id(&exactly_64).is_ok());
}

#[test]
fn rejects_empty_and_too_long() {
    let r = validate_attribute_id("");
    assert!(matches!(r, Err(SensoctoError::InvalidAttributeId(m))
        if m == "Attribute ID must be 1-64 characters"));
    let too_long = "a".repeat(65);
    let r = validate_attribute_id(&too_long);
    assert!(matches!(r, Err(SensoctoError::InvalidAttributeId(m))
        if m == "Attribute ID must be 1-64 characters"));
}

#[test]
fn rejects_bad_first_character() {
    for id in ["1abc", "-abc", "_abc", "9", " a", "ärm"] {
        let r = validate_attribute_id(id);
        assert!(matches!(r, Err(SensoctoError::InvalidAttributeId(m))
            if m == "Attribute ID must start with a letter"), "{id}");
    }
}

#[test]
fn rejects_disallowed_characters() {
    for id in ["a b", "a.b", "a/b", "temp!", "aö", "a,b"] {
        let r = validate_attribute_id(id);
        assert!(matches!(r, Err(SensoctoError::InvalidAttributeId(m))
            if m == "Attribute ID must contain only alphanumeric characters, underscores, or hyphens"),
            "{id}");
    }
}
