use wrldbldr_domain::error::{DiceParseError, DomainError};

#[test]
fn test_validation_error() {
    let err = DomainError::validation("name cannot be empty");
    assert!(matches!(err, DomainError::Validation(_)));
    assert_eq!(err.to_text(), "Validation failed: name cannot be empty");
}

#[test]
fn test_not_found_error() {
    let err = DomainError::not_found("Character", "123e4567-e89b-12d3-a456-426614174000");
    assert!(matches!(err, DomainError::NotFound { .. }));
    assert!(err.to_text().contains("Character"));
    assert!(err.to_text().contains("123e4567"));
}

#[test]
fn test_constraint_error() {
    let err = DomainError::constraint("character already in party");
    assert!(matches!(err, DomainError::Constraint(_)));
    assert_eq!(
        err.to_text(),
        "Constraint violation: character already in party"
    );
}

#[test]
fn test_from_dice_parse_error() {
    let dice_err = DiceParseError::Empty;
    let domain_err: DomainError = dice_err.into();
    assert!(matches!(domain_err, DomainError::Parse(_)));
    assert!(domain_err.to_text().contains("Empty dice formula"));
}

#[test]
fn test_container_full_error() {
    let err = DomainError::container_full(5, 5);
    assert!(matches!(err, DomainError::ContainerFull { .. }));
    assert_eq!(err.to_text(), "Container full: 5/5 items");
}

#[test]
fn error_texts_of_every_variant() {
    assert_eq!(DomainError::invalid_id("abc").to_text(), "Invalid ID format: abc");
    assert_eq!(DomainError::parse("bad").to_text(), "Parse error: bad");
    assert_eq!(
        DomainError::invalid_state_transition("dead").to_text(),
        "Invalid state transition: dead"
    );
    assert_eq!(
        DomainError::not_found("Character", "42").to_text(),
        "Entity not found: Character with id 42"
    );
    assert_eq!(DomainError::container_full(12, 340).to_text(), "Container full: 12/340 items");
    assert_eq!(DiceParseError::Empty.message(), "Empty dice formula");
}
