//! Skill categories across game systems.

use crate::ids::{SkillId, WorldId};
use crate::text::opt_text;
use crate::value_objects::RuleSystemVariant;
use vstd::prelude::*;

verus! {

/// Category of a skill (D20, D100 and narrative styles).
#[derive(Debug, Clone, Copy, PartialEq, Eq, Structural, Hash)]
pub enum SkillCategory {
    Physical,
    Mental,
    Social,
    Interpersonal,
    Investigation,
    Academic,
    Practical,
    Combat,
    Approach,
    Aspect,
    Other,
    Custom,
}

impl SkillCategory {
    /// Human-readable name.
    pub fn display_name(&self) -> (r: &'static str)
        ensures
            r == match self {
                SkillCategory::Physical => "Physical",
                SkillCategory::Mental => "Mental",
                SkillCategory::Social => "Social",
                SkillCategory::Interpersonal => "Interpersonal",
                SkillCategory::Investigation => "Investigation",
                SkillCategory::Academic => "Academic",
                SkillCategory::Practical => "Practical",
                SkillCategory::Combat => "Combat",
                SkillCategory::Approach => "Approach",
                SkillCategory::Aspect => "Aspect",
                SkillCategory::Other => "Other",
                SkillCategory::Custom => "Custom",
            },
    {
        match self {
            SkillCategory::Physical => "Physical",
            SkillCategory::Mental => "Mental",
            SkillCategory::Social => "Social",
            SkillCategory::Interpersonal => "Interpersonal",
            SkillCategory::Investigation => "Investigation",
            SkillCategory::Academic => "Academic",
            SkillCategory::Practical => "Practical",
            SkillCategory::Combat => "Combat",
            SkillCategory::Approach => "Approach",
            SkillCategory::Aspect => "Aspect",
            SkillCategory::Other => "Other",
            SkillCategory::Custom => "Custom",
        }
    }
}


/// A skill that characters can use in challenges.
#[derive(Debug, Clone)]
pub struct Skill {
    pub id: SkillId,
    pub world_id: WorldId,
    pub name: String,
    pub description: String,
    /// Category for grouping in the UI.
    pub category: SkillCategory,
    /// The attribute the skill derives from (such as "DEX").
    pub base_attribute: Option<String>,
    /// Created by the game master rather than taken from a preset.
    pub is_custom: bool,
    /// Hidden from players.
    pub is_hidden: bool,
    /// Display order within the category.
    pub order: u32,
}

impl Skill {
    /// A preset skill with a fresh id, no description or base attribute,
    /// visible, at order 0.
    pub fn new(world_id: WorldId, name: &str, category: SkillCategory) -> (s: Self)
        ensures
            s.world_id == world_id,
            s.name@ == name@,
            s.description@ == Seq::<char>::empty(),
            s.category == category,
            s.base_attribute is None,
            !s.is_custom,
            !s.is_hidden,
            s.order == 0,
    {
        Skill {
            id: SkillId::new(),
            world_id,
            name: name.to_string(),
            description: String::new(),
            category,
            base_attribute: None,
            is_custom: false,
            is_hidden: false,
            order: 0,
        }
    }

    /// Like `new`, but a custom skill.
    pub fn custom(world_id: WorldId, name: &str, category: SkillCategory) -> (s: Self)
        ensures
            s.world_id == world_id,
            s.name@ == name@,
            s.description@ == Seq::<char>::empty(),
            s.category == category,
            s.base_attribute is None,
            s.is_custom,
            !s.is_hidden,
            s.order == 0,
    {
        let mut skill = Self::new(world_id, name, category);
        skill.is_custom = true;
        skill
    }

    pub fn with_description(self, description: &str) -> (s: Self)
        ensures
            s.description@ == description@,
            s == (Skill { description: s.description, ..self }),
    {
        Skill { description: description.to_string(), ..self }
    }

    pub fn with_base_attribute(self, attribute: &str) -> (s: Self)
        ensures
            s.base_attribute matches Some(a) && a@ == attribute@,
            s == (Skill { base_attribute: s.base_attribute, ..self }),
    {
        Skill { base_attribute: Some(attribute.to_string()), ..self }
    }

    pub fn with_order(self, order: u32) -> (s: Self)
        ensures
            s == (Skill { order, ..self }),
    {
        Skill { order, ..self }
    }
}


/// What a preset table says of a skill: its name, category, base attribute,
/// description and order.
pub open spec fn skill_row(s: Skill) -> (Seq<char>, SkillCategory, Option<Seq<char>>, Seq<char>, u32) {
    (s.name@, s.category, opt_text(s.base_attribute), s.description@, s.order)
}

/// Every skill belongs to the world and is a visible preset skill.
pub open spec fn preset_skills_of(skills: Seq<Skill>, world_id: WorldId) -> bool {
    forall|i: int|
        0 <= i < skills.len() ==> (#[trigger] skills[i]).world_id == world_id && !skills[i].is_custom
            && !skills[i].is_hidden
}

/// The preset skills of D&D 5th edition.
pub open spec fn dnd5e_skills_table() -> Seq<(Seq<char>, SkillCategory, Option<Seq<char>>, Seq<char>, u32)> {
    seq![
        ("Athletics"@, SkillCategory::Physical, Some("STR"@), "Climbing, swimming, jumping, and physical exertion"@, 1u32),
        ("Acrobatics"@, SkillCategory::Physical, Some("DEX"@), "Balance, tumbling, and aerial maneuvers"@, 2u32),
        ("Sleight of Hand"@, SkillCategory::Physical, Some("DEX"@), "Pickpocketing, concealing objects, manual trickery"@, 3u32),
        ("Stealth"@, SkillCategory::Physical, Some("DEX"@), "Moving silently and hiding"@, 4u32),
        ("Arcana"@, SkillCategory::Mental, Some("INT"@), "Knowledge of spells, magic items, and magical traditions"@, 5u32),
        ("History"@, SkillCategory::Mental, Some("INT"@), "Knowledge of historical events, people, and legends"@, 6u32),
        ("Investigation"@, SkillCategory::Mental, Some("INT"@), "Deduction, searching for clues, making inferences"@, 7u32),
        ("Nature"@, SkillCategory::Mental, Some("INT"@), "Knowledge of terrain, plants, animals, and weather"@, 8u32),
        ("Religion"@, SkillCategory::Mental, Some("INT"@), "Knowledge of deities, rites, and religious traditions"@, 9u32),
        ("Animal Handling"@, SkillCategory::Social, Some("WIS"@), "Calming, training, and directing animals"@, 10u32),
        ("Insight"@, SkillCategory::Social, Some("WIS"@), "Reading body language, detecting lies, understanding motivations"@, 11u32),
        ("Medicine"@, SkillCategory::Mental, Some("WIS"@), "Diagnosing illnesses, stabilizing the dying, treating wounds"@, 12u32),
        ("Perception"@, SkillCategory::Mental, Some("WIS"@), "Noticing threats, spotting hidden objects, general awareness"@, 13u32),
        ("Survival"@, SkillCategory::Physical, Some("WIS"@), "Tracking, foraging, navigating wilderness"@, 14u32),
        ("Deception"@, SkillCategory::Social, Some("CHA"@), "Lying, misleading, disguising intentions"@, 15u32),
        ("Intimidation"@, SkillCategory::Social, Some("CHA"@), "Threatening, coercing, inspiring fear"@, 16u32),
        ("Performance"@, SkillCategory::Social, Some("CHA"@), "Acting, music, storytelling, entertainment"@, 17u32),
        ("Persuasion"@, SkillCategory::Social, Some("CHA"@), "Convincing, negotiating, influencing through tact"@, 18u32),
    ]
}

#[verifier::rlimit(50)]
fn dnd5e_skills(world_id: WorldId) -> (r: Vec<Skill>)
    ensures
        r@.map_values(|s: Skill| skill_row(s)) == dnd5e_skills_table(),
        preset_skills_of(r@, world_id),
{
    let v = vec![
        Skill::new(world_id, "Athletics", SkillCategory::Physical).with_base_attribute("STR").with_description("Climbing, swimming, jumping, and physical exertion").with_order(1),
        Skill::new(world_id, "Acrobatics", SkillCategory::Physical).with_base_attribute("DEX").with_description("Balance, tumbling, and aerial maneuvers").with_order(2),
        Skill::new(world_id, "Sleight of Hand", SkillCategory::Physical).with_base_attribute("DEX").with_description("Pickpocketing, concealing objects, manual trickery").with_order(3),
        Skill::new(world_id, "Stealth", SkillCategory::Physical).with_base_attribute("DEX").with_description("Moving silently and hiding").with_order(4),
        Skill::new(world_id, "Arcana", SkillCategory::Mental).with_base_attribute("INT").with_description("Knowledge of spells, magic items, and magical traditions").with_order(5),
        Skill::new(world_id, "History", SkillCategory::Mental).with_base_attribute("INT").with_description("Knowledge of historical events, people, and legends").with_order(6),
        Skill::new(world_id, "Investigation", SkillCategory::Mental).with_base_attribute("INT").with_description("Deduction, searching for clues, making inferences").with_order(7),
        Skill::new(world_id, "Nature", SkillCategory::Mental).with_base_attribute("INT").with_description("Knowledge of terrain, plants, animals, and weather").with_order(8),
        Skill::new(world_id, "Religion", SkillCategory::Mental).with_base_attribute("INT").with_description("Knowledge of deities, rites, and religious traditions").with_order(9),
        Skill::new(world_id, "Animal Handling", SkillCategory::Social).with_base_attribute("WIS").with_description("Calming, training, and directing animals").with_order(10),
        Skill::new(world_id, "Insight", SkillCategory::Social).with_base_attribute("WIS").with_description("Reading body language, detecting lies, understanding motivations").with_order(11),
        Skill::new(world_id, "Medicine", SkillCategory::Mental).with_base_attribute("WIS").with_description("Diagnosing illnesses, stabilizing the dying, treating wounds").with_order(12),
        Skill::new(world_id, "Perception", SkillCategory::Mental).with_base_attribute("WIS").with_description("Noticing threats, spotting hidden objects, general awareness").with_order(13),
        Skill::new(world_id, "Survival", SkillCategory::Physical).with_base_attribute("WIS").with_description("Tracking, foraging, navigating wilderness").with_order(14),
        Skill::new(world_id, "Deception", SkillCategory::Social).with_base_attribute("CHA").with_description("Lying, misleading, disguising intentions").with_order(15),
        Skill::new(world_id, "Intimidation", SkillCategory::Social).with_base_attribute("CHA").with_description("Threatening, coercing, inspiring fear").with_order(16),
        Skill::new(world_id, "Performance", SkillCategory::Social).with_base_attribute("CHA").with_description("Acting, music, storytelling, entertainment").with_order(17),
        Skill::new(world_id, "Persuasion", SkillCategory::Social).with_base_attribute("CHA").with_description("Convincing, negotiating, influencing through tact").with_order(18),
    ];
    assert(v@.map_values(|s: Skill| skill_row(s)) =~= dnd5e_skills_table());
    v
}

/// The preset skills of Pathfinder 2nd edition.
pub open spec fn pathfinder2e_skills_table() -> Seq<(Seq<char>, SkillCategory, Option<Seq<char>>, Seq<char>, u32)> {
    seq![
        ("Acrobatics"@, SkillCategory::Physical, Some("DEX"@), Seq::empty(), 1u32),
        ("Arcana"@, SkillCategory::Mental, Some("INT"@), Seq::empty(), 2u32),
        ("Athletics"@, SkillCategory::Physical, Some("STR"@), Seq::empty(), 3u32),
        ("Crafting"@, SkillCategory::Mental, Some("INT"@), Seq::empty(), 4u32),
        ("Deception"@, SkillCategory::Social, Some("CHA"@), Seq::empty(), 5u32),
        ("Diplomacy"@, SkillCategory::Social, Some("CHA"@), Seq::empty(), 6u32),
        ("Intimidation"@, SkillCategory::Social, Some("CHA"@), Seq::empty(), 7u32),
        ("Medicine"@, SkillCategory::Mental, Some("WIS"@), Seq::empty(), 8u32),
        ("Nature"@, SkillCategory::Mental, Some("WIS"@), Seq::empty(), 9u32),
        ("Occultism"@, SkillCategory::Mental, Some("INT"@), Seq::empty(), 10u32),
        ("Performance"@, SkillCategory::Social, Some("CHA"@), Seq::empty(), 11u32),
        ("Religion"@, SkillCategory::Mental, Some("WIS"@), Seq::empty(), 12u32),
        ("Society"@, SkillCategory::Mental, Some("INT"@), Seq::empty(), 13u32),
        ("Stealth"@, SkillCategory::Physical, Some("DEX"@), Seq::empty(), 14u32),
        ("Survival"@, SkillCategory::Physical, Some("WIS"@), Seq::empty(), 15u32),
        ("Thievery"@, SkillCategory::Physical, Some("DEX"@), Seq::empty(), 16u32),
    ]
}

#[verifier::rlimit(50)]
fn pathfinder2e_skills(world_id: WorldId) -> (r: Vec<Skill>)
    ensures
        r@.map_values(|s: Skill| skill_row(s)) == pathfinder2e_skills_table(),
        preset_skills_of(r@, world_id),
{
    let v = vec![
        Skill::new(world_id, "Acrobatics", SkillCategory::Physical).with_base_attribute("DEX").with_order(1),
        Skill::new(world_id, "Arcana", SkillCategory::Mental).with_base_attribute("INT").with_order(2),
        Skill::new(world_id, "Athletics", SkillCategory::Physical).with_base_attribute("STR").with_order(3),
        Skill::new(world_id, "Crafting", SkillCategory::Mental).with_base_attribute("INT").with_order(4),
        Skill::new(world_id, "Deception", SkillCategory::Social).with_base_attribute("CHA").with_order(5),
        Skill::new(world_id, "Diplomacy", SkillCategory::Social).with_base_attribute("CHA").with_order(6),
        Skill::new(world_id, "Intimidation", SkillCategory::Social).with_base_attribute("CHA").with_order(7),
        Skill::new(world_id, "Medicine", SkillCategory::Mental).with_base_attribute("WIS").with_order(8),
        Skill::new(world_id, "Nature", SkillCategory::Mental).with_base_attribute("WIS").with_order(9),
        Skill::new(world_id, "Occultism", SkillCategory::Mental).with_base_attribute("INT").with_order(10),
        Skill::new(world_id, "Performance", SkillCategory::Social).with_base_attribute("CHA").with_order(11),
        Skill::new(world_id, "Religion", SkillCategory::Mental).with_base_attribute("WIS").with_order(12),
        Skill::new(world_id, "Society", SkillCategory::Mental).with_base_attribute("INT").with_order(13),
        Skill::new(world_id, "Stealth", SkillCategory::Physical).with_base_attribute("DEX").with_order(14),
        Skill::new(world_id, "Survival", SkillCategory::Physical).with_base_attribute("WIS").with_order(15),
        Skill::new(world_id, "Thievery", SkillCategory::Physical).with_base_attribute("DEX").with_order(16),
    ];
    assert(v@.map_values(|s: Skill| skill_row(s)) =~= pathfinder2e_skills_table());
    v
}

/// The preset skills of a generic d20 system.
pub open spec fn generic_d20_skills_table() -> Seq<(Seq<char>, SkillCategory, Option<Seq<char>>, Seq<char>, u32)> {
    seq![
        ("Athletics"@, SkillCategory::Physical, Some("STR"@), Seq::empty(), 1u32),
        ("Agility"@, SkillCategory::Physical, Some("DEX"@), Seq::empty(), 2u32),
        ("Endurance"@, SkillCategory::Physical, Some("CON"@), Seq::empty(), 3u32),
        ("Knowledge"@, SkillCategory::Mental, Some("INT"@), Seq::empty(), 4u32),
        ("Awareness"@, SkillCategory::Mental, Some("WIS"@), Seq::empty(), 5u32),
        ("Influence"@, SkillCategory::Social, Some("CHA"@), Seq::empty(), 6u32),
    ]
}

#[verifier::rlimit(50)]
fn generic_d20_skills(world_id: WorldId) -> (r: Vec<Skill>)
    ensures
        r@.map_values(|s: Skill| skill_row(s)) == generic_d20_skills_table(),
        preset_skills_of(r@, world_id),
{
    let v = vec![
        Skill::new(world_id, "Athletics", SkillCategory::Physical).with_base_attribute("STR").with_order(1),
        Skill::new(world_id, "Agility", SkillCategory::Physical).with_base_attribute("DEX").with_order(2),
        Skill::new(world_id, "Endurance", SkillCategory::Physical).with_base_attribute("CON").with_order(3),
        Skill::new(world_id, "Knowledge", SkillCategory::Mental).with_base_attribute("INT").with_order(4),
        Skill::new(world_id, "Awareness", SkillCategory::Mental).with_base_attribute("WIS").with_order(5),
        Skill::new(world_id, "Influence", SkillCategory::Social).with_base_attribute("CHA").with_order(6),
    ];
    assert(v@.map_values(|s: Skill| skill_row(s)) =~= generic_d20_skills_table());
    v
}

/// The preset skills of Call of Cthulhu 7th edition.
pub open spec fn coc7e_skills_table() -> Seq<(Seq<char>, SkillCategory, Option<Seq<char>>, Seq<char>, u32)> {
    seq![
        ("Charm"@, SkillCategory::Interpersonal, None, "Physical attraction, seduction, flattery"@, 1u32),
        ("Fast Talk"@, SkillCategory::Interpersonal, None, "Con, deceive, lie, misdirect"@, 2u32),
        ("Intimidate"@, SkillCategory::Interpersonal, None, "Threats, physical coercion"@, 3u32),
        ("Persuade"@, SkillCategory::Interpersonal, None, "Reasoned argument, debate"@, 4u32),
        ("Psychology"@, SkillCategory::Interpersonal, None, "Understand motives, see through lies"@, 5u32),
        ("Library Use"@, SkillCategory::Investigation, None, "Navigate libraries, find information in documents"@, 6u32),
        ("Spot Hidden"@, SkillCategory::Investigation, None, "Spot concealed objects, notice things"@, 7u32),
        ("Listen"@, SkillCategory::Investigation, None, "Hear sounds, eavesdrop"@, 8u32),
        ("Track"@, SkillCategory::Investigation, None, "Follow tracks, signs of passage"@, 9u32),
        ("Accounting"@, SkillCategory::Academic, None, Seq::empty(), 10u32),
        ("Anthropology"@, SkillCategory::Academic, None, Seq::empty(), 11u32),
        ("Archaeology"@, SkillCategory::Academic, None, Seq::empty(), 12u32),
        ("History"@, SkillCategory::Academic, None, Seq::empty(), 13u32),
        ("Law"@, SkillCategory::Academic, None, Seq::empty(), 14u32),
        ("Medicine"@, SkillCategory::Academic, None, Seq::empty(), 15u32),
        ("Natural World"@, SkillCategory::Academic, None, Seq::empty(), 16u32),
        ("Occult"@, SkillCategory::Academic, None, "Knowledge of the Mythos and supernatural"@, 17u32),
        ("Science"@, SkillCategory::Academic, None, Seq::empty(), 18u32),
        ("Art/Craft"@, SkillCategory::Practical, None, Seq::empty(), 19u32),
        ("Disguise"@, SkillCategory::Practical, None, Seq::empty(), 20u32),
        ("Drive Auto"@, SkillCategory::Practical, None, Seq::empty(), 21u32),
        ("Electrical Repair"@, SkillCategory::Practical, None, Seq::empty(), 22u32),
        ("First Aid"@, SkillCategory::Practical, None, Seq::empty(), 23u32),
        ("Locksmith"@, SkillCategory::Practical, None, Seq::empty(), 24u32),
        ("Mechanical Repair"@, SkillCategory::Practical, None, Seq::empty(), 25u32),
        ("Navigate"@, SkillCategory::Practical, None, Seq::empty(), 26u32),
        ("Sleight of Hand"@, SkillCategory::Practical, None, Seq::empty(), 27u32),
        ("Stealth"@, SkillCategory::Practical, None, Seq::empty(), 28u32),
        ("Dodge"@, SkillCategory::Combat, None, Seq::empty(), 29u32),
        ("Fighting (Brawl)"@, SkillCategory::Combat, None, Seq::empty(), 30u32),
        ("Firearms (Handgun)"@, SkillCategory::Combat, None, Seq::empty(), 31u32),
        ("Firearms (Rifle/Shotgun)"@, SkillCategory::Combat, None, Seq::empty(), 32u32),
        ("Throw"@, SkillCategory::Combat, None, Seq::empty(), 33u32),
    ]
}

#[verifier::rlimit(50)]
fn coc7e_skills(world_id: WorldId) -> (r: Vec<Skill>)
    ensures
        r@.map_values(|s: Skill| skill_row(s)) == coc7e_skills_table(),
        preset_skills_of(r@, world_id),
{
    let v = vec![
        Skill::new(world_id, "Charm", SkillCategory::Interpersonal).with_description("Physical attraction, seduction, flattery").with_order(1),
        Skill::new(world_id, "Fast Talk", SkillCategory::Interpersonal).with_description("Con, deceive, lie, misdirect").with_order(2),
        Skill::new(world_id, "Intimidate", SkillCategory::Interpersonal).with_description("Threats, physical coercion").with_order(3),
        Skill::new(world_id, "Persuade", SkillCategory::Interpersonal).with_description("Reasoned argument, debate").with_order(4),
        Skill::new(world_id, "Psychology", SkillCategory::Interpersonal).with_description("Understand motives, see through lies").with_order(5),
        Skill::new(world_id, "Library Use", SkillCategory::Investigation).with_description("Navigate libraries, find information in documents").with_order(6),
        Skill::new(world_id, "Spot Hidden", SkillCategory::Investigation).with_description("Spot concealed objects, notice things").with_order(7),
        Skill::new(world_id, "Listen", SkillCategory::Investigation).with_description("Hear sounds, eavesdrop").with_order(8),
        Skill::new(world_id, "Track", SkillCategory::Investigation).with_description("Follow tracks, signs of passage").with_order(9),
        Skill::new(world_id, "Accounting", SkillCategory::Academic).with_order(10),
        Skill::new(world_id, "Anthropology", SkillCategory::Academic).with_order(11),
        Skill::new(world_id, "Archaeology", SkillCategory::Academic).with_order(12),
        Skill::new(world_id, "History", SkillCategory::Academic).with_order(13),
        Skill::new(world_id, "Law", SkillCategory::Academic).with_order(14),
        Skill::new(world_id, "Medicine", SkillCategory::Academic).with_order(15),
        Skill::new(world_id, "Natural World", SkillCategory::Academic).with_order(16),
        Skill::new(world_id, "Occult", SkillCategory::Academic).with_description("Knowledge of the Mythos and supernatural").with_order(17),
        Skill::new(world_id, "Science", SkillCategory::Academic).with_order(18),
        Skill::new(world_id, "Art/Craft", SkillCategory::Practical).with_order(19),
        Skill::new(world_id, "Disguise", SkillCategory::Practical).with_order(20),
        Skill::new(world_id, "Drive Auto", SkillCategory::Practical).with_order(21),
        Skill::new(world_id, "Electrical Repair", SkillCategory::Practical).with_order(22),
        Skill::new(world_id, "First Aid", SkillCategory::Practical).with_order(23),
        Skill::new(world_id, "Locksmith", SkillCategory::Practical).with_order(24),
        Skill::new(world_id, "Mechanical Repair", SkillCategory::Practical).with_order(25),
        Skill::new(world_id, "Navigate", SkillCategory::Practical).with_order(26),
        Skill::new(world_id, "Sleight of Hand", SkillCategory::Practical).with_order(27),
        Skill::new(world_id, "Stealth", SkillCategory::Practical).with_order(28),
        Skill::new(world_id, "Dodge", SkillCategory::Combat).with_order(29),
        Skill::new(world_id, "Fighting (Brawl)", SkillCategory::Combat).with_order(30),
        Skill::new(world_id, "Firearms (Handgun)", SkillCategory::Combat).with_order(31),
        Skill::new(world_id, "Firearms (Rifle/Shotgun)", SkillCategory::Combat).with_order(32),
        Skill::new(world_id, "Throw", SkillCategory::Combat).with_order(33),
    ];
    assert(v@.map_values(|s: Skill| skill_row(s)) =~= coc7e_skills_table());
    v
}

/// The preset skills of RuneQuest.
pub open spec fn runequest_skills_table() -> Seq<(Seq<char>, SkillCategory, Option<Seq<char>>, Seq<char>, u32)> {
    seq![
        ("Athletics"@, SkillCategory::Physical, None, Seq::empty(), 1u32),
        ("Brawn"@, SkillCategory::Physical, None, Seq::empty(), 2u32),
        ("Endurance"@, SkillCategory::Physical, None, Seq::empty(), 3u32),
        ("Evade"@, SkillCategory::Combat, None, Seq::empty(), 4u32),
        ("Perception"@, SkillCategory::Mental, None, Seq::empty(), 5u32),
        ("Stealth"@, SkillCategory::Physical, None, Seq::empty(), 6u32),
        ("Willpower"@, SkillCategory::Mental, None, Seq::empty(), 7u32),
        ("Deceit"@, SkillCategory::Social, None, Seq::empty(), 8u32),
        ("Influence"@, SkillCategory::Social, None, Seq::empty(), 9u32),
        ("Insight"@, SkillCategory::Social, None, Seq::empty(), 10u32),
        ("Locale"@, SkillCategory::Mental, None, Seq::empty(), 11u32),
        ("Customs"@, SkillCategory::Mental, None, Seq::empty(), 12u32),
        ("First Aid"@, SkillCategory::Practical, None, Seq::empty(), 13u32),
        ("Craft"@, SkillCategory::Practical, None, Seq::empty(), 14u32),
    ]
}

#[verifier::rlimit(50)]
fn runequest_skills(world_id: WorldId) -> (r: Vec<Skill>)
    ensures
        r@.map_values(|s: Skill| skill_row(s)) == runequest_skills_table(),
        preset_skills_of(r@, world_id),
{
    let v = vec![
        Skill::new(world_id, "Athletics", SkillCategory::Physical).with_order(1),
        Skill::new(world_id, "Brawn", SkillCategory::Physical).with_order(2),
        Skill::new(world_id, "Endurance", SkillCategory::Physical).with_order(3),
        Skill::new(world_id, "Evade", SkillCategory::Combat).with_order(4),
        Skill::new(world_id, "Perception", SkillCategory::Mental).with_order(5),
        Skill::new(world_id, "Stealth", SkillCategory::Physical).with_order(6),
        Skill::new(world_id, "Willpower", SkillCategory::Mental).with_order(7),
        Skill::new(world_id, "Deceit", SkillCategory::Social).with_order(8),
        Skill::new(world_id, "Influence", SkillCategory::Social).with_order(9),
        Skill::new(world_id, "Insight", SkillCategory::Social).with_order(10),
        Skill::new(world_id, "Locale", SkillCategory::Mental).with_order(11),
        Skill::new(world_id, "Customs", SkillCategory::Mental).with_order(12),
        Skill::new(world_id, "First Aid", SkillCategory::Practical).with_order(13),
        Skill::new(world_id, "Craft", SkillCategory::Practical).with_order(14),
    ];
    assert(v@.map_values(|s: Skill| skill_row(s)) =~= runequest_skills_table());
    v
}

/// The preset skills of a generic d100 system.
pub open spec fn generic_d100_skills_table() -> Seq<(Seq<char>, SkillCategory, Option<Seq<char>>, Seq<char>, u32)> {
    seq![
        ("Athletics"@, SkillCategory::Physical, None, Seq::empty(), 1u32),
        ("Perception"@, SkillCategory::Mental, None, Seq::empty(), 2u32),
        ("Stealth"@, SkillCategory::Physical, None, Seq::empty(), 3u32),
        ("Investigation"@, SkillCategory::Mental, None, Seq::empty(), 4u32),
        ("Persuasion"@, SkillCategory::Social, None, Seq::empty(), 5u32),
        ("Deception"@, SkillCategory::Social, None, Seq::empty(), 6u32),
        ("Combat"@, SkillCategory::Combat, None, Seq::empty(), 7u32),
        ("First Aid"@, SkillCategory::Practical, None, Seq::empty(), 8u32),
    ]
}

#[verifier::rlimit(50)]
fn generic_d100_skills(world_id: WorldId) -> (r: Vec<Skill>)
    ensures
        r@.map_values(|s: Skill| skill_row(s)) == generic_d100_skills_table(),
        preset_skills_of(r@, world_id),
{
    let v = vec![
        Skill::new(world_id, "Athletics", SkillCategory::Physical).with_order(1),
        Skill::new(world_id, "Perception", SkillCategory::Mental).with_order(2),
        Skill::new(world_id, "Stealth", SkillCategory::Physical).with_order(3),
        Skill::new(world_id, "Investigation", SkillCategory::Mental).with_order(4),
        Skill::new(world_id, "Persuasion", SkillCategory::Social).with_order(5),
        Skill::new(world_id, "Deception", SkillCategory::Social).with_order(6),
        Skill::new(world_id, "Combat", SkillCategory::Combat).with_order(7),
        Skill::new(world_id, "First Aid", SkillCategory::Practical).with_order(8),
    ];
    assert(v@.map_values(|s: Skill| skill_row(s)) =~= generic_d100_skills_table());
    v
}

/// The preset skills of Kids on Bikes.
pub open spec fn kids_on_bikes_skills_table() -> Seq<(Seq<char>, SkillCategory, Option<Seq<char>>, Seq<char>, u32)> {
    seq![
        ("Brains"@, SkillCategory::Approach, None, "Book smarts, problem solving, trivia"@, 1u32),
        ("Brawn"@, SkillCategory::Approach, None, "Physical strength, endurance, toughness"@, 2u32),
        ("Fight"@, SkillCategory::Approach, None, "Combat ability, self-defense"@, 3u32),
        ("Flight"@, SkillCategory::Approach, None, "Running away, escaping, hiding"@, 4u32),
        ("Charm"@, SkillCategory::Approach, None, "Social graces, persuasion, likability"@, 5u32),
        ("Grit"@, SkillCategory::Approach, None, "Willpower, courage, determination"@, 6u32),
    ]
}

#[verifier::rlimit(50)]
fn kids_on_bikes_skills(world_id: WorldId) -> (r: Vec<Skill>)
    ensures
        r@.map_values(|s: Skill| skill_row(s)) == kids_on_bikes_skills_table(),
        preset_skills_of(r@, world_id),
{
    let v = vec![
        Skill::new(world_id, "Brains", SkillCategory::Approach).with_description("Book smarts, problem solving, trivia").with_order(1),
        Skill::new(world_id, "Brawn", SkillCategory::Approach).with_description("Physical strength, endurance, toughness").with_order(2),
        Skill::new(world_id, "Fight", SkillCategory::Approach).with_description("Combat ability, self-defense").with_order(3),
        Skill::new(world_id, "Flight", SkillCategory::Approach).with_description("Running away, escaping, hiding").with_order(4),
        Skill::new(world_id, "Charm", SkillCategory::Approach).with_description("Social graces, persuasion, likability").with_order(5),
        Skill::new(world_id, "Grit", SkillCategory::Approach).with_description("Willpower, courage, determination").with_order(6),
    ];
    assert(v@.map_values(|s: Skill| skill_row(s)) =~= kids_on_bikes_skills_table());
    v
}

/// The preset skills of Fate Core.
pub open spec fn fate_core_skills_table() -> Seq<(Seq<char>, SkillCategory, Option<Seq<char>>, Seq<char>, u32)> {
    seq![
        ("Athletics"@, SkillCategory::Physical, None, "Running, jumping, climbing, general physical activity"@, 1u32),
        ("Burglary"@, SkillCategory::Practical, None, "Bypassing security, lockpicking, sleight of hand"@, 2u32),
        ("Contacts"@, SkillCategory::Social, None, "Knowing people, gathering information through networks"@, 3u32),
        ("Crafts"@, SkillCategory::Practical, None, "Making and breaking things"@, 4u32),
        ("Deceive"@, SkillCategory::Social, None, "Lying, misdirection, creating false impressions"@, 5u32),
        ("Drive"@, SkillCategory::Practical, None, "Operating vehicles"@, 6u32),
        ("Empathy"@, SkillCategory::Social, None, "Reading people's emotions and intentions"@, 7u32),
        ("Fight"@, SkillCategory::Combat, None, "Close quarters combat"@, 8u32),
        ("Investigate"@, SkillCategory::Mental, None, "Finding clues, solving mysteries"@, 9u32),
        ("Lore"@, SkillCategory::Mental, None, "Specialized knowledge"@, 10u32),
        ("Notice"@, SkillCategory::Mental, None, "Spotting things, general awareness"@, 11u32),
        ("Physique"@, SkillCategory::Physical, None, "Raw strength, endurance"@, 12u32),
        ("Provoke"@, SkillCategory::Social, None, "Intimidation, getting emotional reactions"@, 13u32),
        ("Rapport"@, SkillCategory::Social, None, "Building trust, making friends"@, 14u32),
        ("Resources"@, SkillCategory::Practical, None, "Wealth and material assets"@, 15u32),
        ("Shoot"@, SkillCategory::Combat, None, "Ranged attacks"@, 16u32),
        ("Stealth"@, SkillCategory::Physical, None, "Staying unseen, tailing people"@, 17u32),
        ("Will"@, SkillCategory::Mental, None, "Mental fortitude, resisting influence"@, 18u32),
    ]
}

#[verifier::rlimit(50)]
fn fate_core_skills(world_id: WorldId) -> (r: Vec<Skill>)
    ensures
        r@.map_values(|s: Skill| skill_row(s)) == fate_core_skills_table(),
        preset_skills_of(r@, world_id),
{
    let v = vec![
        Skill::new(world_id, "Athletics", SkillCategory::Physical).with_description("Running, jumping, climbing, general physical activity").with_order(1),
        Skill::new(world_id, "Burglary", SkillCategory::Practical).with_description("Bypassing security, lockpicking, sleight of hand").with_order(2),
        Skill::new(world_id, "Contacts", SkillCategory::Social).with_description("Knowing people, gathering information through networks").with_order(3),
        Skill::new(world_id, "Crafts", SkillCategory::Practical).with_description("Making and breaking things").with_order(4),
        Skill::new(world_id, "Deceive", SkillCategory::Social).with_description("Lying, misdirection, creating false impressions").with_order(5),
        Skill::new(world_id, "Drive", SkillCategory::Practical).with_description("Operating vehicles").with_order(6),
        Skill::new(world_id, "Empathy", SkillCategory::Social).with_description("Reading people's emotions and intentions").with_order(7),
        Skill::new(world_id, "Fight", SkillCategory::Combat).with_description("Close quarters combat").with_order(8),
        Skill::new(world_id, "Investigate", SkillCategory::Mental).with_description("Finding clues, solving mysteries").with_order(9),
        Skill::new(world_id, "Lore", SkillCategory::Mental).with_description("Specialized knowledge").with_order(10),
        Skill::new(world_id, "Notice", SkillCategory::Mental).with_description("Spotting things, general awareness").with_order(11),
        Skill::new(world_id, "Physique", SkillCategory::Physical).with_description("Raw strength, endurance").with_order(12),
        Skill::new(world_id, "Provoke", SkillCategory::Social).with_description("Intimidation, getting emotional reactions").with_order(13),
        Skill::new(world_id, "Rapport", SkillCategory::Social).with_description("Building trust, making friends").with_order(14),
        Skill::new(world_id, "Resources", SkillCategory::Practical).with_description("Wealth and material assets").with_order(15),
        Skill::new(world_id, "Shoot", SkillCategory::Combat).with_description("Ranged attacks").with_order(16),
        Skill::new(world_id, "Stealth", SkillCategory::Physical).with_description("Staying unseen, tailing people").with_order(17),
        Skill::new(world_id, "Will", SkillCategory::Mental).with_description("Mental fortitude, resisting influence").with_order(18),
    ];
    assert(v@.map_values(|s: Skill| skill_row(s)) =~= fate_core_skills_table());
    v
}

/// The preset skills of Powered by the Apocalypse games.
pub open spec fn pbta_skills_table() -> Seq<(Seq<char>, SkillCategory, Option<Seq<char>>, Seq<char>, u32)> {
    seq![
        ("Act Under Pressure"@, SkillCategory::Approach, Some("Cool"@), "Stay calm, keep your head when things go south"@, 1u32),
        ("Help/Interfere"@, SkillCategory::Approach, Some("Bond"@), "Aid or hinder another character's action"@, 2u32),
        ("Go Aggro"@, SkillCategory::Approach, Some("Hard"@), "Threaten violence to get what you want"@, 3u32),
        ("Seize by Force"@, SkillCategory::Approach, Some("Hard"@), "Take something through direct violence"@, 4u32),
        ("Read a Sitch"@, SkillCategory::Approach, Some("Sharp"@), "Assess a dangerous situation"@, 5u32),
        ("Read a Person"@, SkillCategory::Approach, Some("Sharp"@), "Figure out what someone is really about"@, 6u32),
        ("Manipulate"@, SkillCategory::Approach, Some("Hot"@), "Get someone to do what you want"@, 7u32),
        ("Seduce"@, SkillCategory::Approach, Some("Hot"@), "Use attraction to influence"@, 8u32),
        ("Open Your Brain"@, SkillCategory::Approach, Some("Weird"@), "Tap into the psychic maelstrom"@, 9u32),
    ]
}

#[verifier::rlimit(50)]
fn pbta_skills(world_id: WorldId) -> (r: Vec<Skill>)
    ensures
        r@.map_values(|s: Skill| skill_row(s)) == pbta_skills_table(),
        preset_skills_of(r@, world_id),
{
    let v = vec![
        Skill::new(world_id, "Act Under Pressure", SkillCategory::Approach).with_base_attribute("Cool").with_description("Stay calm, keep your head when things go south").with_order(1),
        Skill::new(world_id, "Help/Interfere", SkillCategory::Approach).with_base_attribute("Bond").with_description("Aid or hinder another character's action").with_order(2),
        Skill::new(world_id, "Go Aggro", SkillCategory::Approach).with_base_attribute("Hard").with_description("Threaten violence to get what you want").with_order(3),
        Skill::new(world_id, "Seize by Force", SkillCategory::Approach).with_base_attribute("Hard").with_description("Take something through direct violence").with_order(4),
        Skill::new(world_id, "Read a Sitch", SkillCategory::Approach).with_base_attribute("Sharp").with_description("Assess a dangerous situation").with_order(5),
        Skill::new(world_id, "Read a Person", SkillCategory::Approach).with_base_attribute("Sharp").with_description("Figure out what someone is really about").with_order(6),
        Skill::new(world_id, "Manipulate", SkillCategory::Approach).with_base_attribute("Hot").with_description("Get someone to do what you want").with_order(7),
        Skill::new(world_id, "Seduce", SkillCategory::Approach).with_base_attribute("Hot").with_description("Use attraction to influence").with_order(8),
        Skill::new(world_id, "Open Your Brain", SkillCategory::Approach).with_base_attribute("Weird").with_description("Tap into the psychic maelstrom").with_order(9),
    ];
    assert(v@.map_values(|s: Skill| skill_row(s)) =~= pbta_skills_table());
    v
}

/// The preset skills of a rule system; a custom system has none.
pub open spec fn preset_table(variant: RuleSystemVariant) -> Seq<(Seq<char>, SkillCategory, Option<Seq<char>>, Seq<char>, u32)> {
    match variant {
        RuleSystemVariant::Dnd5e => dnd5e_skills_table(),
        RuleSystemVariant::Pathfinder2e => pathfinder2e_skills_table(),
        RuleSystemVariant::GenericD20 => generic_d20_skills_table(),
        RuleSystemVariant::CallOfCthulhu7e => coc7e_skills_table(),
        RuleSystemVariant::RuneQuest => runequest_skills_table(),
        RuleSystemVariant::GenericD100 => generic_d100_skills_table(),
        RuleSystemVariant::KidsOnBikes => kids_on_bikes_skills_table(),
        RuleSystemVariant::FateCore => fate_core_skills_table(),
        RuleSystemVariant::PoweredByApocalypse => pbta_skills_table(),
        RuleSystemVariant::Custom(_) => Seq::empty(),
    }
}

/// The preset skills of a rule system, all belonging to the world; a custom
/// system has none.
pub fn default_skills_for_variant(world_id: WorldId, variant: &RuleSystemVariant) -> (r: Vec<Skill>)
    ensures
        r@.map_values(|s: Skill| skill_row(s)) == preset_table(*variant),
        preset_skills_of(r@, world_id),
{
    match variant {
        RuleSystemVariant::Dnd5e => dnd5e_skills(world_id),
        RuleSystemVariant::Pathfinder2e => pathfinder2e_skills(world_id),
        RuleSystemVariant::GenericD20 => generic_d20_skills(world_id),
        RuleSystemVariant::CallOfCthulhu7e => coc7e_skills(world_id),
        RuleSystemVariant::RuneQuest => runequest_skills(world_id),
        RuleSystemVariant::GenericD100 => generic_d100_skills(world_id),
        RuleSystemVariant::KidsOnBikes => kids_on_bikes_skills(world_id),
        RuleSystemVariant::FateCore => fate_core_skills(world_id),
        RuleSystemVariant::PoweredByApocalypse => pbta_skills(world_id),
        RuleSystemVariant::Custom(_) => {
            let v: Vec<Skill> = Vec::new();
            assert(v@.map_values(|s: Skill| skill_row(s)) =~= Seq::empty());
            v
        },
    }
}

} // verus!
