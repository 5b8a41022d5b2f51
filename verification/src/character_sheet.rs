//! Character sheet schemas: how the engine describes, section by section and
//! field by field, what a game system's character sheet shows and how a
//! character is created.

use std::collections::HashMap;
use vstd::prelude::*;

verus! {

/// Complete schema for rendering a character sheet.
///
/// Sent by the engine to describe what fields/sections a character sheet
/// should display for a given game system.
#[derive(Debug, Clone, PartialEq)]
pub struct CharacterSheetSchema {
    /// Game system ID (e.g., "dnd5e", "pf2e", "blades")
    pub system_id: String,
    /// Human-readable system name
    pub system_name: String,
    /// Ordered list of sections to display
    pub sections: Vec<SchemaSection>,
    /// Character creation steps (if applicable)
    pub creation_steps: Vec<CreationStep>,
}

/// A section of the character sheet (e.g., "Ability Scores", "Skills", "Combat").
#[derive(Debug, Clone, PartialEq)]
pub struct SchemaSection {
    /// Unique section identifier
    pub id: String,
    /// Display label for the section header
    pub label: String,
    /// Type of section (affects layout)
    pub section_type: SectionType,
    /// Fields within this section
    pub fields: Vec<FieldDefinition>,
    /// Whether this section is collapsible
    pub collapsible: bool,
    /// Whether collapsed by default
    pub collapsed_default: bool,
    /// Help text for the section
    pub description: Option<String>,
}

/// Type of section, affects rendering layout.
#[derive(Debug, Clone, Copy, PartialEq, Eq, Structural)]
pub enum SectionType {
    /// Ability scores / attributes (grid layout)
    AbilityScores,
    /// Skills (list with checkboxes for proficiency)
    Skills,
    /// Combat stats (AC, HP, speed, etc.)
    Combat,
    /// Spellcasting section
    Spellcasting,
    /// Resources (stress, fate points, etc.)
    Resources,
    /// Inventory/equipment
    Inventory,
    /// Character info (name, background, etc.)
    Identity,
    /// Features and abilities
    Features,
    /// Progress clocks (Blades in the Dark)
    Clocks,
    /// Moves (PbtA)
    Moves,
    /// Active modifiers/conditions
    Modifiers,
    /// Experience/advancement tracking
    Advancement,
    /// Free-form section
    Custom,
    /// Unknown for forward compatibility
    Unknown,
}

// =============================================================================
// Field Definitions
// =============================================================================

/// Definition of a single field in the character sheet.
#[derive(Debug, Clone, PartialEq)]
pub struct FieldDefinition {
    /// Unique field identifier (matches stat/property name)
    pub id: String,
    /// Display label
    pub label: String,
    /// Field data type and rendering hints
    pub field_type: SchemaFieldType,
    /// Whether this field can be edited by players
    pub editable: bool,
    /// Whether this field is required
    pub required: bool,
    /// If this is a calculated field, the formula reference
    pub derived_from: Option<DerivedField>,
    /// Validation rules
    pub validation: Option<FieldValidation>,
    /// Layout hints
    pub layout: FieldLayout,
    /// Help text / tooltip
    pub description: Option<String>,
    /// Placeholder text for empty fields
    pub placeholder: Option<String>,
}


/// Type of field data and how to render it.
#[derive(Debug, Clone, PartialEq)]
pub enum SchemaFieldType {
    /// Plain text input
    Text {
        multiline: bool,
        max_length: Option<usize>,
    },
    /// Integer number
    Integer {
        min: Option<i32>,
        max: Option<i32>,
        /// If true, display as +/- modifier
        show_modifier: bool,
    },
    /// D&D-style ability score with modifier display
    AbilityScore {
        min: Option<i32>,
        max: Option<i32>,
    },
    /// Skill with proficiency level
    Skill {
        /// The ability this skill is based on
        ability: String,
        /// Available proficiency levels
        proficiency_levels: Vec<ProficiencyOption>,
    },
    /// Saving throw
    SavingThrow {
        /// The ability for this save
        ability: String,
    },
    /// Boolean checkbox
    Boolean {
        /// Label for checked state
        checked_label: Option<String>,
        /// Label for unchecked state
        unchecked_label: Option<String>,
    },
    /// Selection from options
    Select {
        options: Vec<SchemaSelectOption>,
        allow_custom: bool,
    },
    /// Multiple selection
    MultiSelect {
        options: Vec<SchemaSelectOption>,
        max_selections: Option<usize>,
    },
    /// HP / resource bar
    ResourceBar {
        /// ID of the max value field
        max_field: String,
        /// Color theme
        color: ResourceColor,
    },
    /// Dice pool (Blades, WoD)
    DicePool {
        /// Maximum dice in pool
        max_dice: u8,
        /// Die type (d6, d10, etc.)
        die_type: u8,
    },
    /// Ladder rating (FATE)
    LadderRating {
        /// Minimum rating value
        min: i32,
        /// Maximum rating value
        max: i32,
        /// Rating labels
        labels: Vec<LadderLabel>,
    },
    /// Percentile skill (CoC)
    PercentileSkill {
        /// Whether to show half/fifth values
        show_derived: bool,
    },
    /// Progress clock (Blades)
    Clock {
        /// Number of segments
        segments: u8,
    },
    /// Harm/condition track
    ConditionTrack {
        /// Levels of the track
        levels: Vec<ConditionLevel>,
    },
    /// Reference to another entity (class, race, etc.)
    EntityRef {
        /// Type of entity being referenced
        entity_type: EntityRefType,
    },
    /// Tags/keywords list
    Tags,
    /// XP progress bar showing current XP vs next level threshold
    XpProgress {
        /// Field ID for current XP
        current_field: String,
        /// Field ID for XP needed for next level (derived)
        next_level_field: String,
    },
    /// List of active stat modifiers (conditions, effects, etc.)
    ModifierList {
        /// Which stat this modifier list is for (None = all modifiers)
        filter_stat: Option<String>,
    },
    /// Unknown for forward compatibility
    Unknown,
}

/// Option for select fields.
#[derive(Debug, Clone, PartialEq)]
pub struct SchemaSelectOption {
    /// Internal value
    pub value: String,
    /// Display label
    pub label: String,
    /// Optional description
    pub description: Option<String>,
}

/// Proficiency option for skills.
#[derive(Debug, Clone, PartialEq)]
pub struct ProficiencyOption {
    /// Internal value
    pub value: String,
    /// Display label
    pub label: String,
    /// Multiplier for proficiency bonus: the bits of a single-precision number
    pub multiplier: u32,
}

/// Label for ladder ratings.
#[derive(Debug, Clone, PartialEq)]
pub struct LadderLabel {
    pub value: i32,
    pub label: String,
}

/// Level in a condition/harm track.
#[derive(Debug, Clone, PartialEq)]
pub struct ConditionLevel {
    pub level: u8,
    pub label: String,
    pub effect: Option<String>,
}

/// Color theme for resource bars.
#[derive(Debug, Clone, Copy, PartialEq, Eq, Structural)]
pub enum ResourceColor {
    Red,
    Blue,
    Green,
    Purple,
    Orange,
    Gray,
}

impl Default for ResourceColor {
    fn default() -> (c: Self)
        ensures
            c == ResourceColor::Red,
    {
        ResourceColor::Red
    }
}

/// Type of entity reference.
#[derive(Debug, Clone, Copy, PartialEq, Eq, Structural)]
pub enum EntityRefType {
    Class,
    Race,
    Background,
    Playbook,
    Archetype,
    Occupation,
    Custom,
}

// =============================================================================
// Derived Fields
// =============================================================================

/// Specification for a calculated/derived field.
#[derive(Debug, Clone, PartialEq)]
pub struct DerivedField {
    /// Type of derivation
    pub derivation_type: DerivationType,
    /// Fields this depends on
    pub dependencies: Vec<String>,
    /// Optional display format
    pub display_format: Option<String>,
}

/// How a field is derived.
#[derive(Debug, Clone, Copy, PartialEq, Eq, Structural)]
pub enum DerivationType {
    /// D&D-style ability modifier: floor((score - 10) / 2)
    AbilityModifier,
    /// Proficiency bonus from level
    ProficiencyBonus,
    /// Skill modifier (ability + proficiency)
    SkillModifier,
    /// Save modifier (ability + proficiency if proficient)
    SaveModifier,
    /// Spell save DC (8 + prof + stat mod)
    SpellSaveDc,
    /// Spell attack (prof + stat mod)
    SpellAttack,
    /// Sum of dependent fields
    Sum,
    /// Maximum of dependent fields
    Max,
    /// Half of dependent field (rounded down)
    HalfDown,
    /// Fifth of dependent field (CoC)
    Fifth,
    /// Custom formula (evaluated server-side)
    Custom,
}

// =============================================================================
// Validation
// =============================================================================

/// Validation rules for a field.
#[derive(Debug, Clone, PartialEq)]
pub struct FieldValidation {
    /// Minimum value (for numeric)
    pub min: Option<i32>,
    /// Maximum value (for numeric)
    pub max: Option<i32>,
    /// Regex pattern (for text)
    pub pattern: Option<String>,
    /// Error message for validation failure
    pub error_message: Option<String>,
}

// =============================================================================
// Layout
// =============================================================================

/// Layout hints for field rendering.
#[derive(Debug, Clone, PartialEq)]
pub struct FieldLayout {
    /// Width of field (1-12 grid columns)
    pub width: Option<u8>,
    /// Whether to start a new row before this field
    pub new_row: bool,
    /// CSS class to apply
    pub css_class: Option<String>,
    /// Display order (lower = first)
    pub order: Option<i32>,
}

impl Default for FieldLayout {
    fn default() -> (l: Self)
        ensures
            l == (FieldLayout { width: None, new_row: false, css_class: None, order: None }),
    {
        FieldLayout { width: None, new_row: false, css_class: None, order: None }
    }
}

// =============================================================================
// Character Creation
// =============================================================================

/// A step in the character creation process.
#[derive(Debug, Clone, PartialEq)]
pub struct CreationStep {
    /// Step identifier
    pub id: String,
    /// Step display name
    pub label: String,
    /// Step description
    pub description: String,
    /// Sections included in this step
    pub section_ids: Vec<String>,
    /// Order of this step
    pub order: u8,
    /// Whether this step is required
    pub required: bool,
    /// Allocation system for this step (if applicable)
    pub allocation: Option<AllocationSystem>,
}

// =============================================================================
// Allocation Systems
// =============================================================================

/// Allocation system for distributing points/values during character creation.
///
/// Different TTRPGs use different allocation mechanics for stats:
/// - D&D 5e: Point Buy, Standard Array, or Rolling
/// - PF2e: Ancestry/Background/Class boosts
/// - CoC 7e: Rolling or Point Pool
/// - FATE: Skill Pyramid
/// - Blades: Dot Pool
/// - PbtA: Stat Arrays per playbook
#[derive(Debug, Clone, PartialEq)]
pub enum AllocationSystem {
    /// Point buy system (D&D 5e style)
    /// Players spend points to buy stat values
    PointBuy {
        /// Total points available to spend
        total_points: u32,
        /// Minimum stat value allowed
        min_value: i32,
        /// Maximum stat value allowed (before racial bonuses)
        max_value: i32,
        /// Default starting value for each stat
        base_value: i32,
        /// Cost table: value -> point cost
        cost_table: Vec<PointCost>,
        /// Fields this applies to
        target_fields: Vec<String>,
    },

    /// Standard array selection (D&D 5e style)
    /// Players assign predetermined values to stats
    StandardArray {
        /// The array of values to assign
        values: Vec<i32>,
        /// Fields to assign values to
        target_fields: Vec<String>,
        /// Whether each value can only be used once
        unique_assignment: bool,
    },

    /// Dice rolling for stats
    /// Players roll dice to determine stat values
    DiceRoll {
        /// Dice formula (e.g., "4d6kh3" for 4d6 keep highest 3)
        formula: String,
        /// Human-readable description
        description: String,
        /// Number of rolls to generate
        roll_count: u8,
        /// Fields to assign rolled values to
        target_fields: Vec<String>,
        /// Whether to allow rerolling
        allow_reroll: bool,
        /// Minimum total for all stats (reroll if below)
        minimum_total: Option<i32>,
    },

    /// Boost/Flaw system (PF2e style)
    /// Players apply boosts (+2) and flaws (-2) from various sources
    BoostFlaw {
        /// Boost sources (ancestry, background, class, free)
        boost_sources: Vec<BoostSource>,
        /// Whether flaws are optional
        optional_flaws: bool,
        /// Target fields for boosts
        target_fields: Vec<String>,
        /// Base value for all stats
        base_value: i32,
        /// Maximum value after boosts (at creation)
        max_value: i32,
    },

    /// Skill pyramid (FATE style)
    /// Skills must form a pyramid shape (more at lower tiers)
    Pyramid {
        /// Maximum skill level (apex of pyramid)
        apex: i32,
        /// Minimum skill level
        base: i32,
        /// Target skill fields
        target_fields: Vec<String>,
        /// Labels for each level
        level_labels: Vec<LadderLabel>,
    },

    /// Dot pool allocation (Blades in the Dark, World of Darkness)
    /// Players distribute dots among actions/skills
    DotPool {
        /// Total dots to distribute
        total_dots: u8,
        /// Maximum dots per field
        max_per_field: u8,
        /// Categories of fields with separate pools
        categories: Vec<DotPoolCategory>,
        /// Starting dots (e.g., from playbook)
        starting_dots: Vec<StartingDot>,
    },

    /// Fixed array selection per playbook/archetype (PbtA style)
    /// Players choose one of several predetermined stat arrays
    StatArray {
        /// Available arrays to choose from
        arrays: Vec<StatArrayOption>,
        /// Target stat fields
        target_fields: Vec<String>,
    },

    /// Percentile pool allocation (CoC 7e style)
    /// Players distribute a pool of percentage points
    PercentilePool {
        /// Total points in the pool
        total_points: u32,
        /// Minimum value per skill
        min_per_field: u8,
        /// Maximum value per skill (at creation)
        max_per_field: u8,
        /// Categories with separate pools
        categories: Vec<PercentileCategory>,
    },

    /// Free allocation with total constraint
    /// Players distribute points freely up to a total
    FreeAllocation {
        /// Total points to distribute
        total_points: u32,
        /// Minimum per field
        min_per_field: i32,
        /// Maximum per field
        max_per_field: i32,
        /// Target fields
        target_fields: Vec<String>,
    },
}

/// Point cost entry for point buy systems.
#[derive(Debug, Clone, PartialEq)]
pub struct PointCost {
    /// The stat value
    pub value: i32,
    /// Point cost to achieve this value
    pub cost: u32,
}

/// Source of ability boosts for PF2e-style systems.
#[derive(Debug, Clone, PartialEq)]
pub struct BoostSource {
    /// Source identifier (e.g., "ancestry", "background", "class")
    pub id: String,
    /// Display name
    pub label: String,
    /// Number of free boosts (any stat)
    pub free_boosts: u8,
    /// Fixed boosts (specific stats)
    pub fixed_boosts: Vec<String>,
    /// Number of flaws to apply
    pub flaws: u8,
    /// Fixed flaws (specific stats)
    pub fixed_flaws: Vec<String>,
    /// Whether this source has been applied
    pub applied: bool,
}

/// Category for dot pool allocation.
#[derive(Debug, Clone, PartialEq)]
pub struct DotPoolCategory {
    /// Category identifier
    pub id: String,
    /// Display name
    pub label: String,
    /// Dots available for this category
    pub dots: u8,
    /// Fields in this category
    pub fields: Vec<String>,
}

/// Starting dots from playbook or archetype.
#[derive(Debug, Clone, PartialEq)]
pub struct StartingDot {
    /// Field to receive starting dots
    pub field: String,
    /// Number of starting dots
    pub dots: u8,
    /// Source (playbook name, etc.)
    pub source: String,
}

/// Stat array option for PbtA-style selection.
#[derive(Debug, Clone, PartialEq)]
pub struct StatArrayOption {
    /// Option identifier
    pub id: String,
    /// Description (e.g., "Tough but not very bright")
    pub description: Option<String>,
    /// Values for each target field (in order)
    pub values: Vec<i32>,
}

/// Category for percentile pool allocation.
#[derive(Debug, Clone, PartialEq)]
pub struct PercentileCategory {
    /// Category identifier (e.g., "occupation", "personal")
    pub id: String,
    /// Display name
    pub label: String,
    /// Points available in this pool
    pub points: u32,
    /// Fields this pool can be applied to
    pub fields: Vec<String>,
    /// Formula for calculating points (e.g., "EDU * 4")
    pub formula: Option<String>,
}

// =============================================================================
// Character Data Exchange
// =============================================================================

/// Character sheet response with schema and values for rendering.
///
/// Combines the schema with the character's current values.
#[derive(Debug, Clone, PartialEq)]
pub struct CharacterSheetResponse {
    /// Character ID
    pub character_id: String,
    /// Character name
    pub name: String,
    /// The schema to use for rendering
    pub schema: CharacterSheetSchema,
    /// Current field values (field_id -> value)
    pub values: HashMap<String, serde_json::Value>,
    /// Calculated/derived values (field_id -> calculated value)
    pub calculated: HashMap<String, serde_json::Value>,
}

/// Update to a character sheet field.
#[derive(Debug, Clone, PartialEq)]
pub struct FieldUpdate {
    /// Field ID being updated
    pub field_id: String,
    /// New value
    pub value: serde_json::Value,
}

/// Response after updating a field.
#[derive(Debug, Clone, PartialEq)]
pub struct FieldUpdateResponse {
    /// Whether the update was successful
    pub success: bool,
    /// Updated calculated values (if any derived fields changed)
    pub updated_calculated: HashMap<String, serde_json::Value>,
    /// Validation errors (if any)
    pub errors: Vec<ValidationError>,
}

/// Validation error for a field.
#[derive(Debug, Clone, PartialEq)]
pub struct ValidationError {
    /// Field ID with the error
    pub field_id: String,
    /// Error message
    pub message: String,
}

} // verus!
