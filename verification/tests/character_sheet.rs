use wrldbldr_domain::character_sheet::{
    AllocationSystem, CharacterSheetSchema, CreationStep, FieldDefinition, FieldLayout,
    FieldValidation, ResourceColor, SchemaFieldType, SchemaSection, SectionType,
};

#[test]
fn schema_holds_sections_and_fields() {
    let schema = CharacterSheetSchema {
        system_id: "dnd5e".to_string(),
        system_name: "D&D 5th Edition".to_string(),
        sections: vec![SchemaSection {
            id: "abilities".to_string(),
            label: "Ability Scores".to_string(),
            section_type: SectionType::AbilityScores,
            fields: vec![FieldDefinition {
                id: "STR".to_string(),
                label: "Strength".to_string(),
                field_type: SchemaFieldType::AbilityScore { min: Some(1), max: Some(30) },
                editable: true,
                required: true,
                derived_from: None,
                validation: Some(FieldValidation {
                    min: Some(1),
                    max: Some(30),
                    pattern: None,
                    error_message: Some("Must be between 1 and 30".to_string()),
                }),
                layout: FieldLayout::default(),
                description: Some("Physical power and carrying capacity".to_string()),
                placeholder: None,
            }],
            collapsible: false,
            collapsed_default: false,
            description: None,
        }],
        creation_steps: vec![CreationStep {
            id: "stats".to_string(),
            label: "Stats".to_string(),
            description: "Assign scores".to_string(),
            section_ids: vec!["abilities".to_string()],
            order: 1,
            required: true,
            allocation: Some(AllocationSystem::StandardArray {
                values: vec![15, 14, 13, 12, 10, 8],
                target_fields: vec!["STR".to_string()],
                unique_assignment: true,
            }),
        }],
    };
    assert_eq!(schema.sections[0].fields[0].label, "Strength");
    assert_eq!(schema.sections[0].section_type, SectionType::AbilityScores);
    assert_eq!(schema.clone(), schema);
    let layout = FieldLayout::default();
    assert_eq!(layout.width, None);
    assert!(!layout.new_row);
    assert_eq!(ResourceColor::default(), ResourceColor::Red);
}
