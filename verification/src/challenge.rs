//! Challenges: skill checks and other rolls, their difficulty, the outcomes
//! they lead to, and the trigger conditions that suggest them.

use crate::error::DomainError;
use crate::ids::{uuid_text, ChallengeId, LocationId, RegionId, SceneId, WorldId};
use crate::resolution::{
    ladder_value, DifficultyDescriptor, DifficultyLadder, EffectLevel,
    NarrativeResolutionConfig, NarrativeResolutionStyle, NarrativeThresholds, Position,
    PositionEffectConfig,
};
use crate::text::{
    decimal, is_ascii_text, is_digit, lemma_decimal_digits, lemma_parse_decimal, lemma_trimmed_unchanged, trim_end, trim_start,
    all_white, append_str, char_utf8_len, chars_of, contains_chars, int_text, is_blank,
    is_substring, longer_than_three_bytes, lowercase, parse_u32_chars, parse_u32_spec,
    slice_chars, split_words, to_lowercase, to_uppercase, trim_bounds, trim_str, trimmed,
    i32_text, texts, u32_text, uppercase, usize_text, utf8_len, views, words,
};
use vstd::prelude::*;

verus! {

// =============================================================================
// Challenge type and outcome type
// =============================================================================

/// Types of challenges.
#[derive(Debug, Clone, Copy, PartialEq, Eq, Structural)]
pub enum ChallengeType {
    /// Standard skill check against difficulty.
    SkillCheck,
    /// Raw attribute/ability check (no skill proficiency).
    AbilityCheck,
    /// Reactive defense check.
    SavingThrow,
    /// Contest against another entity's skill.
    OpposedCheck,
    /// Multi-roll challenge requiring accumulated successes.
    ComplexChallenge,
    /// Unknown type for forward compatibility.
    Unknown,
}

impl Default for ChallengeType {
    fn default() -> (t: Self)
        ensures
            t == ChallengeType::SkillCheck,
    {
        ChallengeType::SkillCheck
    }
}

impl ChallengeType {
    /// Human-readable name.
    pub fn display_name(&self) -> (s: &'static str)
        ensures
            s == match self {
                ChallengeType::SkillCheck => "Skill Check",
                ChallengeType::AbilityCheck => "Ability Check",
                ChallengeType::SavingThrow => "Saving Throw",
                ChallengeType::OpposedCheck => "Opposed Check",
                ChallengeType::ComplexChallenge => "Complex Challenge",
                ChallengeType::Unknown => "Unknown",
            },
    {
        match self {
            ChallengeType::SkillCheck => "Skill Check",
            ChallengeType::AbilityCheck => "Ability Check",
            ChallengeType::SavingThrow => "Saving Throw",
            ChallengeType::OpposedCheck => "Opposed Check",
            ChallengeType::ComplexChallenge => "Complex Challenge",
            ChallengeType::Unknown => "Unknown",
        }
    }
}

/// Type of outcome achieved in a challenge resolution.
#[derive(Debug, Clone, Copy, PartialEq, Eq, Structural)]
pub enum OutcomeType {
    CriticalSuccess,
    Success,
    Partial,
    Failure,
    CriticalFailure,
}

impl OutcomeType {
    /// Human-readable name.
    pub fn display_name(&self) -> (s: &'static str)
        ensures
            s == match self {
                OutcomeType::CriticalSuccess => "Critical Success!",
                OutcomeType::Success => "Success",
                OutcomeType::Partial => "Partial Success",
                OutcomeType::Failure => "Failure",
                OutcomeType::CriticalFailure => "Critical Failure!",
            },
    {
        match self {
            OutcomeType::CriticalSuccess => "Critical Success!",
            OutcomeType::Success => "Success",
            OutcomeType::Partial => "Partial Success",
            OutcomeType::Failure => "Failure",
            OutcomeType::CriticalFailure => "Critical Failure!",
        }
    }

    /// Whether this outcome counts as a success (critical, full or partial).
    pub fn is_success(&self) -> (b: bool)
        ensures
            b == (*self == OutcomeType::CriticalSuccess || *self == OutcomeType::Success || *self
                == OutcomeType::Partial),
    {
        match self {
            OutcomeType::CriticalSuccess | OutcomeType::Success | OutcomeType::Partial => true,
            _ => false,
        }
    }

    /// Snake-case protocol name (the text form of an outcome type).
    pub fn to_text(&self) -> (s: &'static str)
        ensures
            s == match self {
                OutcomeType::CriticalSuccess => "critical_success",
                OutcomeType::Success => "success",
                OutcomeType::Partial => "partial",
                OutcomeType::Failure => "failure",
                OutcomeType::CriticalFailure => "critical_failure",
            },
    {
        match self {
            OutcomeType::CriticalSuccess => "critical_success",
            OutcomeType::Success => "success",
            OutcomeType::Partial => "partial",
            OutcomeType::Failure => "failure",
            OutcomeType::CriticalFailure => "critical_failure",
        }
    }
}

// =============================================================================
// Difficulty
// =============================================================================

/// Challenge difficulty representation.
#[derive(Debug, Clone, PartialEq, Eq)]
pub enum Difficulty {
    /// D20-style: roll + modifier >= DC.
    DC(u32),
    /// D100-style: roll <= percentage target.
    Percentage(u32),
    /// Narrative systems: descriptive difficulty.
    Descriptor(DifficultyDescriptor),
    /// Opposed roll: compare to opponent's roll.
    Opposed,
    /// Custom difficulty with notes.
    Custom(String),
}

impl Default for Difficulty {
    fn default() -> (d: Self)
        ensures
            d == Difficulty::DC(10),
    {
        Difficulty::DC(10)
    }
}

/// What `Difficulty::parse` gives for the text `s`: `DC n` when the trimmed
/// text, upper-cased, starts with `DC` and the rest (after the first two
/// bytes, trimmed) is a `u32`; `n%` when the trimmed text ends with `%` and
/// the part before it, trimmed, is a `u32`; otherwise the trimmed text as a
/// custom difficulty.
pub open spec fn parse_difficulty(s: Seq<char>) -> Difficulty {
    let t = trimmed(s);
    let up = uppercase(t);
    let dc_rest = after_two_bytes(t);
    if up.len() >= 2 && up[0] == 'D' && up[1] == 'C' && dc_rest is Some && parse_u32_spec(
        trimmed(dc_rest->0),
    ) is Some {
        Difficulty::DC(parse_u32_spec(trimmed(dc_rest->0))->0)
    } else if t.len() > 0 && t.last() == '%' && parse_u32_spec(trimmed(t.drop_last())) is Some {
        Difficulty::Percentage(parse_u32_spec(trimmed(t.drop_last()))->0)
    } else {
        Difficulty::Custom(arbitrary())
    }
}

/// The characters after the first two UTF-8 bytes of `t`, when byte 2 falls
/// on a character boundary.
pub open spec fn after_two_bytes(t: Seq<char>) -> Option<Seq<char>> {
    if t.len() >= 1 && char_utf8_len(t[0]) == 2 {
        Some(t.skip(1))
    } else if t.len() >= 2 && char_utf8_len(t[0]) == 1 && char_utf8_len(t[1]) == 1 {
        Some(t.skip(2))
    } else {
        None
    }
}

fn utf8_width(c: char) -> (n: u32)
    ensures
        n == char_utf8_len(c),
{
    let u = c as u32;
    if u < 0x80 {
        1
    } else if u < 0x800 {
        2
    } else if u < 0x10000 {
        3
    } else {
        4
    }
}

/// Parses the trimmed `v[from..to]` as a `u32`.
fn parse_trimmed_u32(v: &Vec<char>, from: usize, to: usize) -> (r: Option<u32>)
    requires
        from <= to <= v.len(),
    ensures
        r == parse_u32_spec(trimmed(v@.subrange(from as int, to as int))),
{
    let part = slice_chars(v, from, to);
    let (a, b) = trim_bounds(&part);
    let t = slice_chars(&part, a, b);
    parse_u32_chars(&t)
}

impl Difficulty {
    /// DC difficulty for D20 systems; the DC must be at least 1.
    pub fn dc(value: u32) -> (d: Self)
        requires
            value >= 1,
        ensures
            d == Difficulty::DC(value),
    {
        Difficulty::DC(value)
    }

    /// Percentage difficulty for D100 systems; the target must be 1 to 100.
    pub fn percentage(value: u32) -> (d: Self)
        requires
            1 <= value <= 100,
        ensures
            d == Difficulty::Percentage(value),
    {
        Difficulty::Percentage(value)
    }

    /// Human-readable text of this difficulty.
    pub open spec fn spec_display(&self) -> Seq<char> {
        match self {
            Difficulty::DC(dc) => "DC "@ + int_text(*dc as int),
            Difficulty::Percentage(p) => int_text(*p as int) + "%"@,
            Difficulty::Descriptor(d) => d.spec_display_name()@,
            Difficulty::Opposed => "Opposed"@,
            Difficulty::Custom(s) => s@,
        }
    }

    /// Human-readable text of this difficulty.
    pub fn display(&self) -> (s: String)
        ensures
            s@ == self.spec_display(),
    {
        match self {
            Difficulty::DC(dc) => {
                let mut s = String::new();
                append_str(&mut s, "DC ");
                let n = u32_text(*dc);
                append_str(&mut s, n.as_str());
                s
            },
            Difficulty::Percentage(p) => {
                let mut s = u32_text(*p);
                append_str(&mut s, "%");
                s
            },
            Difficulty::Descriptor(d) => d.display_name().to_owned(),
            Difficulty::Opposed => "Opposed".to_owned(),
            Difficulty::Custom(c) => c.clone(),
        }
    }

    /// D20 preset: DC 10.
    pub fn d20_easy() -> (d: Self)
        ensures
            d == Difficulty::DC(10),
    {
        Difficulty::DC(10)
    }

    /// D20 preset: DC 15.
    pub fn d20_medium() -> (d: Self)
        ensures
            d == Difficulty::DC(15),
    {
        Difficulty::DC(15)
    }

    /// D20 preset: DC 20.
    pub fn d20_hard() -> (d: Self)
        ensures
            d == Difficulty::DC(20),
    {
        Difficulty::DC(20)
    }

    /// D20 preset: DC 25.
    pub fn d20_very_hard() -> (d: Self)
        ensures
            d == Difficulty::DC(25),
    {
        Difficulty::DC(25)
    }

    /// D100 preset: 100%.
    pub fn d100_regular() -> (d: Self)
        ensures
            d == Difficulty::Percentage(100),
    {
        Difficulty::Percentage(100)
    }

    /// D100 preset: 50%.
    pub fn d100_hard() -> (d: Self)
        ensures
            d == Difficulty::Percentage(50),
    {
        Difficulty::Percentage(50)
    }

    /// D100 preset: 20%.
    pub fn d100_extreme() -> (d: Self)
        ensures
            d == Difficulty::Percentage(20),
    {
        Difficulty::Percentage(20)
    }

    /// Suggested dice formula and hint text for this kind of difficulty.
    pub fn dice_suggestion(&self) -> (r: (&'static str, &'static str))
        ensures
            r == match self {
                Difficulty::DC(_) => ("1d20", "Roll 1d20 and add your skill modifier"),
                Difficulty::Percentage(_) => (
                    "1d100",
                    "Roll percentile dice (1d100), lower is better",
                ),
                Difficulty::Descriptor(_) => ("2d6", "Roll 2d6 and add your modifier"),
                Difficulty::Opposed => ("1d20", "Opposed roll - both parties roll and compare"),
                Difficulty::Custom(_) => ("1d20", "Custom difficulty - follow DM instructions"),
            },
    {
        match self {
            Difficulty::DC(_) => ("1d20", "Roll 1d20 and add your skill modifier"),
            Difficulty::Percentage(_) => ("1d100", "Roll percentile dice (1d100), lower is better"),
            Difficulty::Descriptor(_) => ("2d6", "Roll 2d6 and add your modifier"),
            Difficulty::Opposed => ("1d20", "Opposed roll - both parties roll and compare"),
            Difficulty::Custom(_) => ("1d20", "Custom difficulty - follow DM instructions"),
        }
    }

    /// Parses `DC 15`/`DC15` (any case) as a DC, `45%` as a percentage and
    /// anything else as a custom difficulty holding the trimmed text.
    pub fn parse(s: &str) -> (d: Self)
        ensures
            d is Custom ==> parse_difficulty(s@) is Custom,
            !(d is Custom) ==> d == parse_difficulty(s@),
            d matches Difficulty::Custom(c) ==> c@ == trimmed(s@),
    {
        let t = trim_str(s);
        let v = chars_of(t.as_str());
        let up = to_uppercase(t.as_str());
        let uv = chars_of(up.as_str());
        if uv.len() >= 2 && uv[0] == 'D' && uv[1] == 'C' {
            let mut start: Option<usize> = None;
            if v.len() >= 1 && utf8_width(v[0]) == 2 {
                start = Some(1);
            } else if v.len() >= 2 && utf8_width(v[0]) == 1 && utf8_width(v[1]) == 1 {
                start = Some(2);
            }
            proof {
                match start {
                    Some(k) => {
                        assert(after_two_bytes(v@) == Some(v@.skip(k as int)));
                        assert(v@.skip(k as int) =~= v@.subrange(k as int, v@.len() as int));
                    },
                    None => {},
                }
            }
            if let Some(k) = start {
                if let Some(n) = parse_trimmed_u32(&v, k, v.len()) {
                    return Difficulty::DC(n);
                }
            }
        }
        if v.len() > 0 && v[v.len() - 1] == '%' {
            assert(v@.drop_last() =~= v@.subrange(0, v.len() - 1));
            if let Some(n) = parse_trimmed_u32(&v, 0, v.len() - 1) {
                return Difficulty::Percentage(n);
            }
        }
        Difficulty::Custom(t)
    }
}


// =============================================================================
// Outcomes
// =============================================================================

/// A single outcome with narrative text and triggered effects.
#[derive(Debug, Clone, Default, PartialEq)]
pub struct Outcome {
    /// Narrative description shown to players.
    pub description: String,
    /// Effects that trigger when this outcome occurs.
    pub triggers: Vec<OutcomeTrigger>,
}

impl Outcome {
    /// An outcome with the given description and no triggers.
    pub fn new(description: &str) -> (o: Self)
        ensures
            o.description@ == description@,
            o.triggers@.len() == 0,
    {
        Outcome { description: description.to_owned(), triggers: Vec::new() }
    }

    /// This outcome with one more trigger at the end.
    pub fn with_trigger(self, trigger: OutcomeTrigger) -> (o: Self)
        ensures
            o.description == self.description,
            o.triggers@ == self.triggers@.push(trigger),
    {
        let mut o = self;
        o.triggers.push(trigger);
        o
    }
}

/// Outcomes for a challenge.
#[derive(Debug, Clone, Default, PartialEq)]
pub struct ChallengeOutcomes {
    pub success: Outcome,
    pub failure: Outcome,
    /// For narrative systems or "meet DC exactly" results.
    pub partial: Option<Outcome>,
    /// Natural 20 or roll of 01 on d100.
    pub critical_success: Option<Outcome>,
    /// Natural 1 or fumble roll.
    pub critical_failure: Option<Outcome>,
}

impl ChallengeOutcomes {
    /// Success and failure texts, with no partial or critical outcomes.
    pub fn simple(success: &str, failure: &str) -> (o: Self)
        ensures
            o.success.description@ == success@,
            o.success.triggers@.len() == 0,
            o.failure.description@ == failure@,
            o.failure.triggers@.len() == 0,
            o.partial is None,
            o.critical_success is None,
            o.critical_failure is None,
    {
        ChallengeOutcomes {
            success: Outcome::new(success),
            failure: Outcome::new(failure),
            partial: None,
            critical_success: None,
            critical_failure: None,
        }
    }

    /// These outcomes with a partial outcome of the given text.
    pub fn with_partial(self, partial: &str) -> (o: Self)
        ensures
            o.success == self.success,
            o.failure == self.failure,
            o.partial matches Some(p) && p.description@ == partial@ && p.triggers@.len() == 0,
            o.critical_success == self.critical_success,
            o.critical_failure == self.critical_failure,
    {
        let mut o = self;
        o.partial = Some(Outcome::new(partial));
        o
    }

    /// These outcomes with a critical-success outcome of the given text.
    pub fn with_critical_success(self, critical: &str) -> (o: Self)
        ensures
            o.success == self.success,
            o.failure == self.failure,
            o.partial == self.partial,
            o.critical_success matches Some(p) && p.description@ == critical@ && p.triggers@.len()
                == 0,
            o.critical_failure == self.critical_failure,
    {
        let mut o = self;
        o.critical_success = Some(Outcome::new(critical));
        o
    }

    /// These outcomes with a critical-failure outcome of the given text.
    pub fn with_critical_failure(self, critical: &str) -> (o: Self)
        ensures
            o.success == self.success,
            o.failure == self.failure,
            o.partial == self.partial,
            o.critical_success == self.critical_success,
            o.critical_failure matches Some(p) && p.description@ == critical@ && p.triggers@.len()
                == 0,
    {
        let mut o = self;
        o.critical_failure = Some(Outcome::new(critical));
        o
    }
}

/// Effects triggered by challenge outcomes.
#[derive(Debug, Clone, PartialEq)]
pub enum OutcomeTrigger {
    /// Reveal hidden information to the player (optionally kept in the journal).
    RevealInformation { info: String, persist: bool },
    /// Enable another challenge.
    EnableChallenge { challenge_id: ChallengeId },
    /// Disable a challenge.
    DisableChallenge { challenge_id: ChallengeId },
    /// Modify a character stat (HP, Sanity, etc.).
    ModifyCharacterStat { stat: String, modifier: i32 },
    /// Trigger a scene transition.
    TriggerScene { scene_id: SceneId },
    /// Add an item to inventory.
    GiveItem { item_name: String, item_description: Option<String> },
    /// Custom trigger with free-text description.
    Custom { description: String },
}

impl OutcomeTrigger {
    /// The text form of this trigger.
    pub open spec fn spec_text(&self) -> Seq<char> {
        match self {
            OutcomeTrigger::RevealInformation { info, persist } => if *persist {
                "Reveal (persistent): "@ + info@
            } else {
                "Reveal: "@ + info@
            },
            OutcomeTrigger::EnableChallenge { challenge_id } => "Enable challenge: "@ + uuid_text(
                challenge_id.spec_value(),
            ),
            OutcomeTrigger::DisableChallenge { challenge_id } => "Disable challenge: "@
                + uuid_text(challenge_id.spec_value()),
            OutcomeTrigger::ModifyCharacterStat { stat, modifier } => if *modifier >= 0 {
                "Modify "@ + stat@ + ": +"@ + int_text(*modifier as int)
            } else {
                "Modify "@ + stat@ + ": "@ + int_text(*modifier as int)
            },
            OutcomeTrigger::TriggerScene { scene_id } => "Trigger scene: "@ + uuid_text(
                scene_id.spec_value(),
            ),
            OutcomeTrigger::GiveItem { item_name, item_description } => match item_description {
                Some(desc) => "Give item: "@ + item_name@ + " ("@ + desc@ + ")"@,
                None => "Give item: "@ + item_name@,
            },
            OutcomeTrigger::Custom { description } => "Custom: "@ + description@,
        }
    }

    /// The text form of this trigger (e.g. `Modify STR: +2`).
    pub fn to_text(&self) -> (s: String)
        ensures
            s@ == self.spec_text(),
    {
        let mut s = String::new();
        match self {
            OutcomeTrigger::RevealInformation { info, persist } => {
                if *persist {
                    append_str(&mut s, "Reveal (persistent): ");
                } else {
                    append_str(&mut s, "Reveal: ");
                }
                append_str(&mut s, info.as_str());
            },
            OutcomeTrigger::EnableChallenge { challenge_id } => {
                append_str(&mut s, "Enable challenge: ");
                let t = challenge_id.to_text();
                append_str(&mut s, t.as_str());
            },
            OutcomeTrigger::DisableChallenge { challenge_id } => {
                append_str(&mut s, "Disable challenge: ");
                let t = challenge_id.to_text();
                append_str(&mut s, t.as_str());
            },
            OutcomeTrigger::ModifyCharacterStat { stat, modifier } => {
                append_str(&mut s, "Modify ");
                append_str(&mut s, stat.as_str());
                if *modifier >= 0 {
                    append_str(&mut s, ": +");
                } else {
                    append_str(&mut s, ": ");
                }
                let n = i32_text(*modifier);
                append_str(&mut s, n.as_str());
            },
            OutcomeTrigger::TriggerScene { scene_id } => {
                append_str(&mut s, "Trigger scene: ");
                let t = scene_id.to_text();
                append_str(&mut s, t.as_str());
            },
            OutcomeTrigger::GiveItem { item_name, item_description } => {
                append_str(&mut s, "Give item: ");
                append_str(&mut s, item_name.as_str());
                match item_description {
                    Some(desc) => {
                        append_str(&mut s, " (");
                        append_str(&mut s, desc.as_str());
                        append_str(&mut s, ")");
                    },
                    None => {},
                }
            },
            OutcomeTrigger::Custom { description } => {
                append_str(&mut s, "Custom: ");
                append_str(&mut s, description.as_str());
            },
        }
        assert(s@ =~= self.spec_text());
        s
    }

    /// Type name of this trigger, for display purposes.
    pub fn trigger_type_name(&self) -> (s: &'static str)
        ensures
            s == match self {
                OutcomeTrigger::RevealInformation { .. } => "reveal_information",
                OutcomeTrigger::EnableChallenge { .. } => "enable_challenge",
                OutcomeTrigger::DisableChallenge { .. } => "disable_challenge",
                OutcomeTrigger::ModifyCharacterStat { .. } => "modify_stat",
                OutcomeTrigger::TriggerScene { .. } => "trigger_scene",
                OutcomeTrigger::GiveItem { .. } => "give_item",
                OutcomeTrigger::Custom { .. } => "custom",
            },
    {
        match self {
            OutcomeTrigger::RevealInformation { .. } => "reveal_information",
            OutcomeTrigger::EnableChallenge { .. } => "enable_challenge",
            OutcomeTrigger::DisableChallenge { .. } => "disable_challenge",
            OutcomeTrigger::ModifyCharacterStat { .. } => "modify_stat",
            OutcomeTrigger::TriggerScene { .. } => "trigger_scene",
            OutcomeTrigger::GiveItem { .. } => "give_item",
            OutcomeTrigger::Custom { .. } => "custom",
        }
    }

    /// Why this trigger is invalid, if it is: a text field that must hold
    /// something is empty or whitespace only.
    pub open spec fn spec_invalid_reason(&self) -> Option<Seq<char>> {
        match self {
            OutcomeTrigger::RevealInformation { info, .. } => if all_white(info@) {
                Some("RevealInformation trigger requires non-empty info"@)
            } else {
                None
            },
            OutcomeTrigger::GiveItem { item_name, .. } => if all_white(item_name@) {
                Some("GiveItem trigger requires non-empty item_name"@)
            } else {
                None
            },
            OutcomeTrigger::ModifyCharacterStat { stat, .. } => if all_white(stat@) {
                Some("ModifyCharacterStat trigger requires non-empty stat name"@)
            } else {
                None
            },
            OutcomeTrigger::Custom { description } => if all_white(description@) {
                Some("Custom trigger requires non-empty description"@)
            } else {
                None
            },
            _ => None,
        }
    }

    /// Checks this trigger; the error is a validation error with the reason.
    pub fn validate(&self) -> (r: Result<(), DomainError>)
        ensures
            r is Ok <==> self.spec_invalid_reason() is None,
            r matches Err(e) ==> e matches DomainError::Validation(m) && Some(m@)
                == self.spec_invalid_reason(),
    {
        match self {
            OutcomeTrigger::RevealInformation { info, .. } => {
                if is_blank(info.as_str()) {
                    return Err(
                        DomainError::validation("RevealInformation trigger requires non-empty info"),
                    );
                }
            },
            OutcomeTrigger::GiveItem { item_name, .. } => {
                if is_blank(item_name.as_str()) {
                    return Err(
                        DomainError::validation("GiveItem trigger requires non-empty item_name"),
                    );
                }
            },
            OutcomeTrigger::ModifyCharacterStat { stat, .. } => {
                if is_blank(stat.as_str()) {
                    return Err(
                        DomainError::validation(
                            "ModifyCharacterStat trigger requires non-empty stat name",
                        ),
                    );
                }
            },
            OutcomeTrigger::Custom { description } => {
                if is_blank(description.as_str()) {
                    return Err(
                        DomainError::validation("Custom trigger requires non-empty description"),
                    );
                }
            },
            _ => {},
        }
        Ok(())
    }

    /// Challenge ids this trigger refers to.
    pub open spec fn spec_referenced_ids(&self) -> Seq<ChallengeId> {
        match self {
            OutcomeTrigger::EnableChallenge { challenge_id } => seq![*challenge_id],
            OutcomeTrigger::DisableChallenge { challenge_id } => seq![*challenge_id],
            _ => Seq::empty(),
        }
    }

    /// Challenge ids this trigger refers to.
    pub fn referenced_challenge_ids(&self) -> (ids: Vec<ChallengeId>)
        ensures
            ids@ == self.spec_referenced_ids(),
    {
        let mut ids: Vec<ChallengeId> = Vec::new();
        match self {
            OutcomeTrigger::EnableChallenge { challenge_id } => ids.push(*challenge_id),
            OutcomeTrigger::DisableChallenge { challenge_id } => ids.push(*challenge_id),
            _ => {},
        }
        assert(ids@ =~= self.spec_referenced_ids());
        ids
    }

    /// Reveal information, not kept in the journal.
    pub fn reveal_information(info: &str) -> (t: Self)
        ensures
            t matches OutcomeTrigger::RevealInformation { info: i, persist } && i@ == info@
                && !persist,
    {
        OutcomeTrigger::RevealInformation { info: info.to_owned(), persist: false }
    }

    /// Reveal information and keep it in the journal.
    pub fn reveal_persistent(info: &str) -> (t: Self)
        ensures
            t matches OutcomeTrigger::RevealInformation { info: i, persist } && i@ == info@
                && persist,
    {
        OutcomeTrigger::RevealInformation { info: info.to_owned(), persist: true }
    }

    /// Enable a challenge.
    pub fn enable(challenge_id: ChallengeId) -> (t: Self)
        ensures
            t == (OutcomeTrigger::EnableChallenge { challenge_id }),
    {
        OutcomeTrigger::EnableChallenge { challenge_id }
    }

    /// Disable a challenge.
    pub fn disable(challenge_id: ChallengeId) -> (t: Self)
        ensures
            t == (OutcomeTrigger::DisableChallenge { challenge_id }),
    {
        OutcomeTrigger::DisableChallenge { challenge_id }
    }

    /// Modify a stat by the given amount.
    pub fn modify_stat(stat: &str, modifier: i32) -> (t: Self)
        ensures
            t matches OutcomeTrigger::ModifyCharacterStat { stat: s, modifier: m } && s@ == stat@
                && m == modifier,
    {
        OutcomeTrigger::ModifyCharacterStat { stat: stat.to_owned(), modifier }
    }

    /// Move to a scene.
    pub fn scene(scene_id: SceneId) -> (t: Self)
        ensures
            t == (OutcomeTrigger::TriggerScene { scene_id }),
    {
        OutcomeTrigger::TriggerScene { scene_id }
    }
}


// =============================================================================
// Trigger conditions
// =============================================================================

/// Every keyword is empty or whitespace only.
pub open spec fn all_keywords_blank(ks: Seq<String>) -> bool {
    forall|i: int| 0 <= i < ks.len() ==> all_white(#[trigger] ks[i]@)
}

/// Why a keyword list is invalid for a trigger of the given kind, if it is.
pub open spec fn keyword_list_problem(ks: Seq<String>, kind: Seq<char>) -> Option<Seq<char>> {
    if ks.len() == 0 {
        Some(kind + " trigger requires at least one keyword"@)
    } else if all_keywords_blank(ks) {
        Some(kind + " trigger keywords cannot all be empty"@)
    } else {
        None
    }
}

/// Some keyword, lower-cased, occurs in the (lower-cased) action or context.
pub open spec fn keyword_hit(ks: Seq<String>, action: Seq<char>, context: Seq<char>) -> bool {
    exists|i: int|
        0 <= i < ks.len() && (is_substring(action, lowercase(#[trigger] ks[i]@)) || is_substring(
            context,
            lowercase(ks[i]@),
        ))
}

/// Some word longer than three bytes occurs in the action or context.
pub open spec fn word_hit(ws: Seq<Seq<char>>, action: Seq<char>, context: Seq<char>) -> bool {
    exists|i: int|
        0 <= i < ws.len() && utf8_len(#[trigger] ws[i]) > 3 && (is_substring(action, ws[i])
            || is_substring(context, ws[i]))
}

fn all_blank(ks: &Vec<String>) -> (b: bool)
    ensures
        b == all_keywords_blank(ks@),
{
    for i in 0..ks.len()
        invariant
            forall|j: int| 0 <= j < i ==> all_white(#[trigger] ks@[j]@),
    {
        if !is_blank(ks[i].as_str()) {
            return false;
        }
    }
    true
}

fn check_keywords(ks: &Vec<String>, kind: &str) -> (r: Result<(), DomainError>)
    ensures
        r is Ok <==> keyword_list_problem(ks@, kind@) is None,
        r matches Err(e) ==> e matches DomainError::Validation(m) && Some(m@)
            == keyword_list_problem(ks@, kind@),
{
    if ks.len() == 0 {
        let mut m = kind.to_owned();
        append_str(&mut m, " trigger requires at least one keyword");
        return Err(DomainError::Validation(m));
    }
    if all_blank(ks) {
        let mut m = kind.to_owned();
        append_str(&mut m, " trigger keywords cannot all be empty");
        return Err(DomainError::Validation(m));
    }
    Ok(())
}

fn any_keyword_hit(ks: &Vec<String>, action: &Vec<char>, context: &Vec<char>) -> (b: bool)
    ensures
        b == keyword_hit(ks@, action@, context@),
{
    for i in 0..ks.len()
        invariant
            forall|j: int|
                0 <= j < i ==> !(is_substring(action@, lowercase(#[trigger] ks@[j]@))
                    || is_substring(context@, lowercase(ks@[j]@))),
    {
        let k = to_lowercase(ks[i].as_str());
        let kv = chars_of(k.as_str());
        if contains_chars(action, &kv) || contains_chars(context, &kv) {
            return true;
        }
    }
    false
}

fn any_word_hit(desc_lower: &str, action: &Vec<char>, context: &Vec<char>) -> (b: bool)
    ensures
        b == word_hit(words(desc_lower@), action@, context@),
{
    let dv = chars_of(desc_lower);
    let ws = split_words(&dv);
    proof {
        assert(views(ws@).len() == ws@.len());
    }
    for i in 0..ws.len()
        invariant
            views(ws@) == words(desc_lower@),
            forall|j: int|
                0 <= j < i ==> !(utf8_len(#[trigger] words(desc_lower@)[j]) > 3 && (is_substring(
                    action@,
                    words(desc_lower@)[j],
                ) || is_substring(context@, words(desc_lower@)[j]))),
    {
        assert(views(ws@)[i as int] == ws@[i as int]@);
        if longer_than_three_bytes(&ws[i]) && (contains_chars(action, &ws[i]) || contains_chars(
            context,
            &ws[i],
        )) {
            return true;
        }
    }
    false
}

/// Types of trigger conditions.
#[derive(Debug, Clone, PartialEq)]
pub enum TriggerType {
    /// Player interacts with a specific object.
    ObjectInteraction { keywords: Vec<String> },
    /// Player enters a specific area/location.
    EnterArea { area_keywords: Vec<String> },
    /// Player discusses a specific topic.
    DialogueTopic { topic_keywords: Vec<String> },
    /// Another challenge completed (None = either, Some(true) = success only,
    /// Some(false) = failure only).
    ChallengeComplete { challenge_id: ChallengeId, requires_success: Option<bool> },
    /// Time-based trigger (after N turns/exchanges).
    TimeBased { turns: u32 },
    /// NPC present in scene.
    NpcPresent { npc_keywords: Vec<String> },
    /// Free-text condition for LLM interpretation.
    Custom { description: String },
}

impl TriggerType {
    /// Why this trigger type is invalid, if it is.
    pub open spec fn spec_invalid_reason(&self) -> Option<Seq<char>> {
        match self {
            TriggerType::ObjectInteraction { keywords } => keyword_list_problem(
                keywords@,
                "ObjectInteraction"@,
            ),
            TriggerType::EnterArea { area_keywords } => keyword_list_problem(
                area_keywords@,
                "EnterArea"@,
            ),
            TriggerType::DialogueTopic { topic_keywords } => keyword_list_problem(
                topic_keywords@,
                "DialogueTopic"@,
            ),
            TriggerType::NpcPresent { npc_keywords } => keyword_list_problem(
                npc_keywords@,
                "NpcPresent"@,
            ),
            TriggerType::Custom { description } => if all_white(description@) {
                Some("Custom trigger requires non-empty description"@)
            } else {
                None
            },
            _ => None,
        }
    }

    /// Checks this trigger type: keyword lists must hold at least one keyword
    /// that is not blank, and a custom description must not be blank.
    pub fn validate(&self) -> (r: Result<(), DomainError>)
        ensures
            r is Ok <==> self.spec_invalid_reason() is None,
            r matches Err(e) ==> e matches DomainError::Validation(m) && Some(m@)
                == self.spec_invalid_reason(),
    {
        match self {
            TriggerType::ObjectInteraction { keywords } => check_keywords(
                keywords,
                "ObjectInteraction",
            ),
            TriggerType::EnterArea { area_keywords } => check_keywords(area_keywords, "EnterArea"),
            TriggerType::DialogueTopic { topic_keywords } => check_keywords(
                topic_keywords,
                "DialogueTopic",
            ),
            TriggerType::NpcPresent { npc_keywords } => check_keywords(npc_keywords, "NpcPresent"),
            TriggerType::Custom { description } => {
                if is_blank(description.as_str()) {
                    Err(DomainError::validation("Custom trigger requires non-empty description"))
                } else {
                    Ok(())
                }
            },
            _ => Ok(()),
        }
    }

    /// Challenge ids this trigger type refers to.
    pub open spec fn spec_referenced_ids(&self) -> Seq<ChallengeId> {
        match self {
            TriggerType::ChallengeComplete { challenge_id, .. } => seq![*challenge_id],
            _ => Seq::empty(),
        }
    }

    /// Challenge ids this trigger type refers to.
    pub fn referenced_challenge_ids(&self) -> (ids: Vec<ChallengeId>)
        ensures
            ids@ == self.spec_referenced_ids(),
    {
        let mut ids: Vec<ChallengeId> = Vec::new();
        match self {
            TriggerType::ChallengeComplete { challenge_id, .. } => ids.push(*challenge_id),
            _ => {},
        }
        assert(ids@ =~= self.spec_referenced_ids());
        ids
    }

    /// Whether this trigger type matches an action and context that are
    /// already lower-cased: a keyword (lower-cased) occurs in either, or, for
    /// a custom description, one of its lower-cased words longer than three
    /// bytes does. Triggers that need outside state never match.
    pub open spec fn spec_matches_lowercased(&self, action: Seq<char>, context: Seq<char>) -> bool {
        match self {
            TriggerType::ObjectInteraction { keywords } => keyword_hit(keywords@, action, context),
            TriggerType::EnterArea { area_keywords } => keyword_hit(
                area_keywords@,
                action,
                context,
            ),
            TriggerType::DialogueTopic { topic_keywords } => keyword_hit(
                topic_keywords@,
                action,
                context,
            ),
            TriggerType::Custom { description } => word_hit(
                words(lowercase(description@)),
                action,
                context,
            ),
            _ => false,
        }
    }

    /// Matching against an action and context that are already lower-cased.
    pub fn matches_lowercased(&self, action_lower: &str, context_lower: &str) -> (b: bool)
        ensures
            b == self.spec_matches_lowercased(action_lower@, context_lower@),
    {
        let av = chars_of(action_lower);
        let cv = chars_of(context_lower);
        match self {
            TriggerType::ObjectInteraction { keywords } => any_keyword_hit(keywords, &av, &cv),
            TriggerType::EnterArea { area_keywords } => any_keyword_hit(area_keywords, &av, &cv),
            TriggerType::DialogueTopic { topic_keywords } => any_keyword_hit(
                topic_keywords,
                &av,
                &cv,
            ),
            TriggerType::Custom { description } => {
                let d = to_lowercase(description.as_str());
                any_word_hit(d.as_str(), &av, &cv)
            },
            _ => false,
        }
    }

    /// Whether this trigger type matches the given action/context, compared
    /// without regard to case.
    pub fn matches(&self, action: &str, context: &str) -> (b: bool)
        ensures
            b == self.spec_matches_lowercased(lowercase(action@), lowercase(context@)),
    {
        let a = to_lowercase(action);
        let c = to_lowercase(context);
        self.matches_lowercased(a.as_str(), c.as_str())
    }

    /// Object-interaction trigger with the given keywords.
    pub fn object<const N: usize>(keywords: [&str; N]) -> (t: Self)
        ensures
            t matches TriggerType::ObjectInteraction { keywords: k } && strings_match(k@, keywords@),
    {
        TriggerType::ObjectInteraction { keywords: owned_strings(&keywords) }
    }

    /// Enter-area trigger with the given keywords.
    pub fn area<const N: usize>(keywords: [&str; N]) -> (t: Self)
        ensures
            t matches TriggerType::EnterArea { area_keywords: k } && strings_match(k@, keywords@),
    {
        TriggerType::EnterArea { area_keywords: owned_strings(&keywords) }
    }

    /// Dialogue-topic trigger with the given keywords.
    pub fn topic<const N: usize>(keywords: [&str; N]) -> (t: Self)
        ensures
            t matches TriggerType::DialogueTopic { topic_keywords: k } && strings_match(
                k@,
                keywords@,
            ),
    {
        TriggerType::DialogueTopic { topic_keywords: owned_strings(&keywords) }
    }

    /// Completion of another challenge, whatever its result.
    pub fn after_challenge(challenge_id: ChallengeId) -> (t: Self)
        ensures
            t == (TriggerType::ChallengeComplete { challenge_id, requires_success: None }),
    {
        TriggerType::ChallengeComplete { challenge_id, requires_success: None }
    }

    /// Successful completion of another challenge.
    pub fn after_challenge_success(challenge_id: ChallengeId) -> (t: Self)
        ensures
            t == (TriggerType::ChallengeComplete { challenge_id, requires_success: Some(true) }),
    {
        TriggerType::ChallengeComplete { challenge_id, requires_success: Some(true) }
    }

    /// Free-text condition.
    pub fn custom(description: &str) -> (t: Self)
        ensures
            t matches TriggerType::Custom { description: d } && d@ == description@,
    {
        TriggerType::Custom { description: description.to_owned() }
    }
}

/// `owned` holds the same texts as `given`, in order.
pub open spec fn strings_match(owned: Seq<String>, given: Seq<&str>) -> bool {
    owned.len() == given.len() && forall|i: int| 0 <= i < owned.len() ==> #[trigger] owned[i]@
        == given[i]@
}

fn owned_strings<const N: usize>(given: &[&str; N]) -> (v: Vec<String>)
    ensures
        strings_match(v@, given@),
{
    let mut v: Vec<String> = Vec::new();
    for i in 0..N
        invariant
            N == given@.len(),
            v@.len() == i,
            forall|j: int| 0 <= j < i ==> #[trigger] v@[j]@ == given@[j]@,
    {
        v.push(given[i].to_owned());
    }
    v
}

/// Condition that triggers the LLM to suggest a challenge.
#[derive(Debug, Clone, PartialEq)]
pub struct TriggerCondition {
    pub condition_type: TriggerType,
    /// Human-readable description for DM reference.
    pub description: String,
    /// Whether this condition must hold (AND) rather than count towards any (OR).
    pub required: bool,
}

impl TriggerCondition {
    /// An optional condition of the given type.
    pub fn new(condition_type: TriggerType, description: &str) -> (c: Self)
        ensures
            c.condition_type == condition_type,
            c.description@ == description@,
            !c.required,
    {
        TriggerCondition { condition_type, description: description.to_owned(), required: false }
    }

    /// This condition, marked as required.
    pub fn required_condition(self) -> (c: Self)
        ensures
            c.condition_type == self.condition_type,
            c.description == self.description,
            c.required,
    {
        let mut c = self;
        c.required = true;
        c
    }

    /// Whether this condition matches the given action/context.
    pub fn matches(&self, action: &str, context: &str) -> (b: bool)
        ensures
            b == self.condition_type.spec_matches_lowercased(
                lowercase(action@),
                lowercase(context@),
            ),
    {
        self.condition_type.matches(action, context)
    }

    /// Checks this condition's trigger type.
    pub fn validate(&self) -> (r: Result<(), DomainError>)
        ensures
            r is Ok <==> self.condition_type.spec_invalid_reason() is None,
            r matches Err(e) ==> e matches DomainError::Validation(m) && Some(m@)
                == self.condition_type.spec_invalid_reason(),
    {
        self.condition_type.validate()
    }

    /// Challenge ids this condition refers to.
    pub fn referenced_challenge_ids(&self) -> (ids: Vec<ChallengeId>)
        ensures
            ids@ == self.condition_type.spec_referenced_ids(),
    {
        self.condition_type.referenced_challenge_ids()
    }
}


// =============================================================================
// Roll evaluation rules
// =============================================================================

/// The configuration a caller handed in, if any.
pub open spec fn config_of(c: Option<&NarrativeResolutionConfig>) -> Option<NarrativeResolutionConfig> {
    match c {
        Some(c) => Some(*c),
        None => None,
    }
}

/// The dice a caller handed in; none means an empty pool.
pub open spec fn dice_of(d: Option<&[i32]>) -> Seq<i32> {
    match d {
        Some(d) => d@,
        None => Seq::empty(),
    }
}

/// PbtA thresholds used when no configuration is given: 10+ full success,
/// 7+ partial success, no criticals.
pub open spec fn default_thresholds() -> NarrativeThresholds {
    NarrativeThresholds {
        critical_success: None,
        full_success: 10,
        partial_success: 7,
        critical_failure: None,
    }
}

/// The value `i` fits in an `i32`.
pub open spec fn fits_i32(i: int) -> bool {
    i32::MIN <= i <= i32::MAX
}

/// PbtA-style result for `total` (critical thresholds only count when the
/// matching critical outcome exists).
pub open spec fn pbta_outcome(
    total: int,
    t: NarrativeThresholds,
    has_critical_success: bool,
    has_critical_failure: bool,
) -> OutcomeType {
    if t.critical_success matches Some(c) && total >= c && has_critical_success {
        OutcomeType::CriticalSuccess
    } else if t.critical_failure matches Some(c) && total <= c && has_critical_failure {
        OutcomeType::CriticalFailure
    } else if total >= t.full_success {
        OutcomeType::Success
    } else if total >= t.partial_success {
        OutcomeType::Partial
    } else {
        OutcomeType::Failure
    }
}

/// Ladder value of a descriptor, Fair (+2) when the ladder does not list it.
pub open spec fn ladder_target(ladder: DifficultyLadder, d: DifficultyDescriptor) -> int {
    match ladder_value(ladder.entries@, d) {
        Some(v) => v as int,
        None => 2,
    }
}

/// Fate-style result: shifts at or above the style threshold succeed with
/// style, above the tie threshold succeed, at it tie (partial), below fail.
pub open spec fn ladder_outcome(total: int, d: DifficultyDescriptor, ladder: DifficultyLadder) -> OutcomeType {
    let shifts = total - ladder_target(ladder, d);
    if shifts >= ladder.style_threshold {
        OutcomeType::CriticalSuccess
    } else if shifts > ladder.tie_threshold {
        OutcomeType::Success
    } else if shifts == ladder.tie_threshold {
        OutcomeType::Partial
    } else {
        OutcomeType::Failure
    }
}

/// Highest die of a pool, 0 for an empty pool.
pub open spec fn pool_highest(dice: Seq<i32>) -> i32
    decreases dice.len(),
{
    if dice.len() == 0 {
        0
    } else if dice.len() == 1 {
        dice[0]
    } else {
        let m = pool_highest(dice.drop_last());
        if dice.last() > m {
            dice.last()
        } else {
            m
        }
    }
}

/// How many dice of the pool show `v`.
pub open spec fn count_showing(dice: Seq<i32>, v: i32) -> nat
    decreases dice.len(),
{
    if dice.len() == 0 {
        0
    } else {
        count_showing(dice.drop_last(), v) + if dice.last() == v {
            1nat
        } else {
            0nat
        }
    }
}

/// Blades-style result: enough dice at the full-success value make a
/// critical; otherwise the highest die decides.
pub open spec fn blades_outcome(dice: Seq<i32>, c: PositionEffectConfig) -> OutcomeType {
    let t = c.pool_thresholds;
    let highest = pool_highest(dice);
    if c.enable_critical && count_showing(dice, t.full_success) >= c.critical_dice_count {
        OutcomeType::CriticalSuccess
    } else if highest >= t.full_success {
        OutcomeType::Success
    } else if highest >= t.partial_success_min && highest <= t.partial_success_max {
        OutcomeType::Partial
    } else {
        OutcomeType::Failure
    }
}

/// Result of a narrative roll under the given configuration.
pub open spec fn narrative_outcome(
    roll: i32,
    modifier: i32,
    d: DifficultyDescriptor,
    config: NarrativeResolutionConfig,
    dice: Seq<i32>,
    has_critical_success: bool,
    has_critical_failure: bool,
) -> OutcomeType {
    match config.style {
        NarrativeResolutionStyle::Ladder => ladder_outcome(roll + modifier, d, config.ladder),
        NarrativeResolutionStyle::Blades => blades_outcome(dice, config.position_effect),
        _ => pbta_outcome(
            roll + modifier,
            config.thresholds,
            has_critical_success,
            has_critical_failure,
        ),
    }
}

/// The arithmetic of a narrative roll stays within `i32`.
pub open spec fn narrative_in_range(
    roll: i32,
    modifier: i32,
    d: DifficultyDescriptor,
    config: NarrativeResolutionConfig,
) -> bool {
    match config.style {
        NarrativeResolutionStyle::Blades => true,
        NarrativeResolutionStyle::Ladder => fits_i32(roll + modifier) && fits_i32(
            roll + modifier - ladder_target(config.ladder, d),
        ),
        _ => fits_i32(roll + modifier),
    }
}

fn highest_die(dice: &[i32]) -> (h: i32)
    ensures
        h == pool_highest(dice@),
{
    if dice.len() == 0 {
        return 0;
    }
    let mut best = dice[0];
    let mut i: usize = 1;
    assert(dice@.take(1).drop_last() =~= Seq::<i32>::empty());
    while i < dice.len()
        invariant
            1 <= i <= dice.len(),
            best == pool_highest(dice@.take(i as int)),
        decreases dice.len() - i,
    {
        assert(dice@.take(i + 1).drop_last() =~= dice@.take(i as int));
        if dice[i] > best {
            best = dice[i];
        }
        i = i + 1;
    }
    assert(dice@.take(dice.len() as int) =~= dice@);
    best
}

fn count_dice_showing(dice: &[i32], v: i32) -> (n: usize)
    ensures
        n == count_showing(dice@, v),
{
    let mut n: usize = 0;
    for i in 0..dice.len()
        invariant
            n == count_showing(dice@.take(i as int), v),
            n <= i,
    {
        assert(dice@.take(i + 1).drop_last() =~= dice@.take(i as int));
        if dice[i] == v {
            n = n + 1;
        }
    }
    assert(dice@.take(dice.len() as int) =~= dice@);
    n
}

// =============================================================================
// Challenge
// =============================================================================

/// A challenge that can be triggered during gameplay.
#[derive(Debug, Clone, PartialEq)]
pub struct Challenge {
    id: ChallengeId,
    world_id: WorldId,
    name: String,
    description: String,
    challenge_type: ChallengeType,
    difficulty: Difficulty,
    outcomes: ChallengeOutcomes,
    /// Conditions that make the LLM suggest this challenge.
    trigger_conditions: Vec<TriggerCondition>,
    /// Whether this challenge can currently be triggered.
    active: bool,
    /// Display order in the challenge library.
    order: u32,
    /// Whether the DM favorited this challenge.
    is_favorite: bool,
    /// Tags for filtering.
    tags: Vec<String>,
    /// The stat to check (e.g. "STR"); none means a modifier of 0 unless given.
    check_stat: Option<String>,
}

/// Abstract state of a challenge.
pub ghost struct ChallengeView {
    pub id: ChallengeId,
    pub world_id: WorldId,
    pub name: Seq<char>,
    pub description: Seq<char>,
    pub challenge_type: ChallengeType,
    pub difficulty: Difficulty,
    pub outcomes: ChallengeOutcomes,
    pub trigger_conditions: Seq<TriggerCondition>,
    pub active: bool,
    pub order: u32,
    pub is_favorite: bool,
    pub tags: Seq<String>,
    pub check_stat: Option<String>,
}

impl View for Challenge {
    type V = ChallengeView;

    closed spec fn view(&self) -> ChallengeView {
        ChallengeView {
            id: self.id,
            world_id: self.world_id,
            name: self.name@,
            description: self.description@,
            challenge_type: self.challenge_type,
            difficulty: self.difficulty,
            outcomes: self.outcomes,
            trigger_conditions: self.trigger_conditions@,
            active: self.active,
            order: self.order,
            is_favorite: self.is_favorite,
            tags: self.tags@,
            check_stat: self.check_stat,
        }
    }
}

impl Challenge {
    /// A new active skill-check challenge with a random id, an empty
    /// description, default outcomes, no triggers, no tags and no check stat.
    pub fn new(world_id: WorldId, name: &str, difficulty: Difficulty) -> (c: Self)
        ensures
            c@.world_id == world_id,
            c@.name == name@,
            c@.description.len() == 0,
            c@.challenge_type == ChallengeType::SkillCheck,
            c@.difficulty == difficulty,
            c@.trigger_conditions.len() == 0,
            c@.active,
            c@.order == 0,
            !c@.is_favorite,
            c@.tags.len() == 0,
            c@.check_stat is None,
            c@.outcomes.success.description@.len() == 0,
            c@.outcomes.success.triggers@.len() == 0,
            c@.outcomes.failure.description@.len() == 0,
            c@.outcomes.failure.triggers@.len() == 0,
            c@.outcomes.partial is None,
            c@.outcomes.critical_success is None,
            c@.outcomes.critical_failure is None,
    {
        Challenge {
            id: ChallengeId::new(),
            world_id,
            name: name.to_owned(),
            description: String::new(),
            challenge_type: ChallengeType::SkillCheck,
            difficulty,
            outcomes: ChallengeOutcomes {
                success: Outcome { description: String::new(), triggers: Vec::new() },
                failure: Outcome { description: String::new(), triggers: Vec::new() },
                partial: None,
                critical_success: None,
                critical_failure: None,
            },
            trigger_conditions: Vec::new(),
            active: true,
            order: 0,
            is_favorite: false,
            tags: Vec::new(),
            check_stat: None,
        }
    }

    pub fn id(&self) -> (r: ChallengeId)
        ensures
            r == self@.id,
    {
        self.id
    }

    pub fn world_id(&self) -> (r: WorldId)
        ensures
            r == self@.world_id,
    {
        self.world_id
    }

    pub fn name(&self) -> (r: &str)
        ensures
            r@ == self@.name,
    {
        self.name.as_str()
    }

    pub fn description(&self) -> (r: &str)
        ensures
            r@ == self@.description,
    {
        self.description.as_str()
    }

    pub fn challenge_type(&self) -> (r: ChallengeType)
        ensures
            r == self@.challenge_type,
    {
        self.challenge_type
    }

    pub fn difficulty(&self) -> (r: &Difficulty)
        ensures
            *r == self@.difficulty,
    {
        &self.difficulty
    }

    pub fn outcomes(&self) -> (r: &ChallengeOutcomes)
        ensures
            *r == self@.outcomes,
    {
        &self.outcomes
    }

    pub fn trigger_conditions(&self) -> (r: &[TriggerCondition])
        ensures
            r@ == self@.trigger_conditions,
    {
        self.trigger_conditions.as_slice()
    }

    pub fn active(&self) -> (r: bool)
        ensures
            r == self@.active,
    {
        self.active
    }

    pub fn order(&self) -> (r: u32)
        ensures
            r == self@.order,
    {
        self.order
    }

    pub fn is_favorite(&self) -> (r: bool)
        ensures
            r == self@.is_favorite,
    {
        self.is_favorite
    }

    pub fn tags(&self) -> (r: &[String])
        ensures
            r@ == self@.tags,
    {
        self.tags.as_slice()
    }

    pub fn check_stat(&self) -> (r: Option<&str>)
        ensures
            match self@.check_stat {
                Some(s) => r matches Some(t) && t@ == s@,
                None => r is None,
            },
    {
        match &self.check_stat {
            Some(s) => Some(s.as_str()),
            None => None,
        }
    }

    /// This challenge with the given id (used when loading from storage).
    pub fn with_id(self, id: ChallengeId) -> (c: Self)
        ensures
            c@ == (ChallengeView { id, ..self@ }),
    {
        Challenge { id, ..self }
    }

    /// This challenge with the given stat to check.
    pub fn with_check_stat(self, stat: &str) -> (c: Self)
        ensures
            c@.check_stat matches Some(s) && s@ == stat@,
            c@ == (ChallengeView { check_stat: c@.check_stat, ..self@ }),
    {
        Challenge { check_stat: Some(stat.to_owned()), ..self }
    }

    /// This challenge with the given description.
    pub fn with_description(self, description: &str) -> (c: Self)
        ensures
            c@.description == description@,
            c@ == (ChallengeView { description: c@.description, ..self@ }),
    {
        Challenge { description: description.to_owned(), ..self }
    }

    /// This challenge with the given type.
    pub fn with_challenge_type(self, challenge_type: ChallengeType) -> (c: Self)
        ensures
            c@ == (ChallengeView { challenge_type, ..self@ }),
    {
        Challenge { challenge_type, ..self }
    }

    /// This challenge with the given outcomes.
    pub fn with_outcomes(self, outcomes: ChallengeOutcomes) -> (c: Self)
        ensures
            c@ == (ChallengeView { outcomes, ..self@ }),
    {
        Challenge { outcomes, ..self }
    }

    /// This challenge with one more trigger condition at the end.
    pub fn with_trigger(self, condition: TriggerCondition) -> (c: Self)
        ensures
            c@.trigger_conditions == self@.trigger_conditions.push(condition),
            c@ == (ChallengeView { trigger_conditions: c@.trigger_conditions, ..self@ }),
    {
        let mut c = self;
        c.trigger_conditions.push(condition);
        c
    }

    /// This challenge with one more tag at the end.
    pub fn with_tag(self, tag: &str) -> (c: Self)
        ensures
            c@.tags.len() == self@.tags.len() + 1,
            c@.tags.drop_last() == self@.tags,
            c@.tags.last()@ == tag@,
            c@ == (ChallengeView { tags: c@.tags, ..self@ }),
    {
        let mut c = self;
        c.tags.push(tag.to_owned());
        assert(c.tags@.drop_last() =~= self.tags@);
        c
    }

    /// This challenge, active or not.
    pub fn with_active(self, active: bool) -> (c: Self)
        ensures
            c@ == (ChallengeView { active, ..self@ }),
    {
        Challenge { active, ..self }
    }

    /// This challenge with the given display order.
    pub fn with_order(self, order: u32) -> (c: Self)
        ensures
            c@ == (ChallengeView { order, ..self@ }),
    {
        Challenge { order, ..self }
    }

    /// This challenge, favorited or not.
    pub fn with_is_favorite(self, is_favorite: bool) -> (c: Self)
        ensures
            c@ == (ChallengeView { is_favorite, ..self@ }),
    {
        Challenge { is_favorite, ..self }
    }

    /// The outcome that a result of the given type leads to: critical results
    /// fall back to success/failure and a partial result to success when the
    /// challenge has no such outcome.
    pub open spec fn spec_outcome_for(&self, t: OutcomeType) -> Outcome {
        let o = self@.outcomes;
        match t {
            OutcomeType::CriticalSuccess => match o.critical_success {
                Some(c) => c,
                None => o.success,
            },
            OutcomeType::Success => o.success,
            OutcomeType::Partial => match o.partial {
                Some(p) => p,
                None => o.success,
            },
            OutcomeType::Failure => o.failure,
            OutcomeType::CriticalFailure => match o.critical_failure {
                Some(c) => c,
                None => o.failure,
            },
        }
    }

    /// The result of a roll: a natural 20 is a critical success and a natural
    /// 1 a critical failure against a DC, otherwise the total must reach the
    /// DC; 1 and 100 are the critical rolls against a percentage, otherwise the
    /// roll must not exceed it (a missing critical outcome falls back to the
    /// success or failure outcome);
    /// descriptors use the narrative configuration, PbtA with the default
    /// thresholds when none is given; opposed and custom difficulties always
    /// give success (resolved elsewhere).
    pub open spec fn spec_roll_outcome(
        &self,
        roll: i32,
        modifier: i32,
        config: Option<NarrativeResolutionConfig>,
        dice: Seq<i32>,
    ) -> OutcomeType {
        let cs = self@.outcomes.critical_success is Some;
        let cf = self@.outcomes.critical_failure is Some;
        match self@.difficulty {
            Difficulty::DC(dc) => if roll == 20 {
                OutcomeType::CriticalSuccess
            } else if roll == 1 {
                OutcomeType::CriticalFailure
            } else if roll + modifier >= (dc as i32) {
                OutcomeType::Success
            } else {
                OutcomeType::Failure
            },
            Difficulty::Percentage(target) => if roll == 1 {
                OutcomeType::CriticalSuccess
            } else if roll == 100 {
                OutcomeType::CriticalFailure
            } else if roll <= (target as i32) {
                OutcomeType::Success
            } else {
                OutcomeType::Failure
            },
            Difficulty::Descriptor(d) => match config {
                Some(c) => narrative_outcome(roll, modifier, d, c, dice, cs, cf),
                None => pbta_outcome(roll + modifier, default_thresholds(), cs, cf),
            },
            _ => OutcomeType::Success,
        }
    }

    /// The arithmetic of evaluating a roll stays within `i32`.
    pub open spec fn spec_roll_in_range(
        &self,
        roll: i32,
        modifier: i32,
        config: Option<NarrativeResolutionConfig>,
    ) -> bool {
        match self@.difficulty {
            Difficulty::DC(_) => roll == 20 || roll == 1 || fits_i32(
                roll + modifier,
            ),
            Difficulty::Descriptor(d) => match config {
                Some(c) => narrative_in_range(roll, modifier, d, c),
                None => fits_i32(roll + modifier),
            },
            _ => true,
        }
    }

    fn outcome_for_type(&self, outcome_type: OutcomeType) -> (o: &Outcome)
        ensures
            *o == self.spec_outcome_for(outcome_type),
    {
        match outcome_type {
            OutcomeType::CriticalSuccess => match &self.outcomes.critical_success {
                Some(c) => c,
                None => &self.outcomes.success,
            },
            OutcomeType::Success => &self.outcomes.success,
            OutcomeType::Partial => match &self.outcomes.partial {
                Some(p) => p,
                None => &self.outcomes.success,
            },
            OutcomeType::Failure => &self.outcomes.failure,
            OutcomeType::CriticalFailure => match &self.outcomes.critical_failure {
                Some(c) => c,
                None => &self.outcomes.failure,
            },
        }
    }

    fn evaluate_pbta(&self, roll: i32, modifier: i32, thresholds: &NarrativeThresholds) -> (t:
        OutcomeType)
        requires
            fits_i32(roll + modifier),
        ensures
            t == pbta_outcome(
                roll + modifier,
                *thresholds,
                self@.outcomes.critical_success is Some,
                self@.outcomes.critical_failure is Some,
            ),
    {
        let total = roll + modifier;
        if let Some(crit) = thresholds.critical_success {
            if total >= crit && self.outcomes.critical_success.is_some() {
                return OutcomeType::CriticalSuccess;
            }
        }
        if let Some(crit_fail) = thresholds.critical_failure {
            if total <= crit_fail && self.outcomes.critical_failure.is_some() {
                return OutcomeType::CriticalFailure;
            }
        }
        if total >= thresholds.full_success {
            OutcomeType::Success
        } else if total >= thresholds.partial_success {
            OutcomeType::Partial
        } else {
            OutcomeType::Failure
        }
    }

    fn evaluate_ladder(
        &self,
        roll: i32,
        modifier: i32,
        descriptor: &DifficultyDescriptor,
        ladder: &DifficultyLadder,
    ) -> (t: OutcomeType)
        requires
            fits_i32(roll + modifier),
            fits_i32(roll + modifier - ladder_target(*ladder, *descriptor)),
        ensures
            t == ladder_outcome(roll + modifier, *descriptor, *ladder),
    {
        let total = roll + modifier;
        let target = match ladder.value_for(descriptor) {
            Some(v) => v,
            None => 2,
        };
        let shifts = total - target;
        if shifts >= ladder.style_threshold {
            OutcomeType::CriticalSuccess
        } else if shifts > ladder.tie_threshold {
            OutcomeType::Success
        } else if shifts == ladder.tie_threshold {
            OutcomeType::Partial
        } else {
            OutcomeType::Failure
        }
    }

    fn evaluate_blades(&self, dice_results: Option<&[i32]>, effect: EffectLevel, config: &PositionEffectConfig) -> (t:
        OutcomeType)
        ensures
            t == blades_outcome(
                match dice_results {
                    Some(d) => d@,
                    None => Seq::empty(),
                },
                *config,
            ),
    {
        let empty: [i32; 0] = [];
        let dice: &[i32] = match dice_results {
            Some(d) => d,
            None => &empty,
        };
        assert(dice@ == match dice_results {
            Some(d) => d@,
            None => Seq::<i32>::empty(),
        });
        let highest = highest_die(dice);
        let thresholds = &config.pool_thresholds;
        let max_die_count = count_dice_showing(dice, thresholds.full_success);
        let is_critical = config.enable_critical && max_die_count >= config.critical_dice_count
            as usize;
        if is_critical {
            OutcomeType::CriticalSuccess
        } else if highest >= thresholds.full_success {
            OutcomeType::Success
        } else if highest >= thresholds.partial_success_min && highest
            <= thresholds.partial_success_max {
            OutcomeType::Partial
        } else {
            OutcomeType::Failure
        }
    }

    fn evaluate_narrative_roll(
        &self,
        roll: i32,
        modifier: i32,
        descriptor: &DifficultyDescriptor,
        config: &NarrativeResolutionConfig,
        position: Position,
        effect: EffectLevel,
        dice_results: Option<&[i32]>,
    ) -> (t: OutcomeType)
        requires
            narrative_in_range(roll, modifier, *descriptor, *config),
        ensures
            t == narrative_outcome(
                roll,
                modifier,
                *descriptor,
                *config,
                match dice_results {
                    Some(d) => d@,
                    None => Seq::empty(),
                },
                self@.outcomes.critical_success is Some,
                self@.outcomes.critical_failure is Some,
            ),
    {
        match config.style {
            NarrativeResolutionStyle::Ladder => self.evaluate_ladder(
                roll,
                modifier,
                descriptor,
                &config.ladder,
            ),
            NarrativeResolutionStyle::Blades => self.evaluate_blades(
                dice_results,
                effect,
                &config.position_effect,
            ),
            _ => self.evaluate_pbta(roll, modifier, &config.thresholds),
        }
    }

    /// Evaluates a roll with full narrative resolution support: the result
    /// type and the outcome it leads to. Without a configuration, descriptor
    /// difficulties use the default (PbtA) configuration; position and effect
    /// default to risky and standard; no dice results means an empty pool.
    pub fn evaluate_roll_narrative(
        &self,
        roll: i32,
        modifier: i32,
        narrative_config: Option<&NarrativeResolutionConfig>,
        position: Option<Position>,
        effect: Option<EffectLevel>,
        dice_results: Option<&[i32]>,
    ) -> (r: (OutcomeType, &Outcome))
        requires
            self.spec_roll_in_range(roll, modifier, config_of(narrative_config)),
        ensures
            r.0 == self.spec_roll_outcome(
                roll,
                modifier,
                config_of(narrative_config),
                dice_of(dice_results),
            ),
            *r.1 == self.spec_outcome_for(r.0),
    {
        let outcome_type = match &self.difficulty {
            Difficulty::DC(dc) => {
                if roll == 20 {
                    OutcomeType::CriticalSuccess
                } else if roll == 1 {
                    OutcomeType::CriticalFailure
                } else if roll + modifier >= *dc as i32 {
                    OutcomeType::Success
                } else {
                    OutcomeType::Failure
                }
            },
            Difficulty::Percentage(target) => {
                if roll == 1 {
                    OutcomeType::CriticalSuccess
                } else if roll == 100 {
                    OutcomeType::CriticalFailure
                } else if roll <= *target as i32 {
                    OutcomeType::Success
                } else {
                    OutcomeType::Failure
                }
            },
            Difficulty::Descriptor(descriptor) => {
                let pos = match position {
                    Some(p) => p,
                    None => Position::default(),
                };
                let eff = match effect {
                    Some(e) => e,
                    None => EffectLevel::default(),
                };
                match narrative_config {
                    Some(config) => self.evaluate_narrative_roll(
                        roll,
                        modifier,
                        descriptor,
                        config,
                        pos,
                        eff,
                        dice_results,
                    ),
                    None => {
                        let default_config = NarrativeResolutionConfig::default();
                        assert(default_config.thresholds == default_thresholds());
                        self.evaluate_narrative_roll(
                            roll,
                            modifier,
                            descriptor,
                            &default_config,
                            pos,
                            eff,
                            dice_results,
                        )
                    },
                }
            },
            _ => OutcomeType::Success,
        };
        let outcome = self.outcome_for_type(outcome_type);
        (outcome_type, outcome)
    }

    /// Evaluates a roll with the default narrative settings (see
    /// `evaluate_roll_narrative`).
    pub fn evaluate_roll(&self, roll: i32, modifier: i32) -> (r: (OutcomeType, &Outcome))
        requires
            self.spec_roll_in_range(roll, modifier, None),
        ensures
            r.0 == self.spec_roll_outcome(roll, modifier, None, Seq::empty()),
            *r.1 == self.spec_outcome_for(r.0),
    {
        self.evaluate_roll_narrative(roll, modifier, None, None, None, None)
    }
}


// =============================================================================
// Trigger bookkeeping over a whole challenge
// =============================================================================

/// The outcomes of a challenge with their names, in the order success,
/// failure, then partial, critical success and critical failure when present.
pub open spec fn named_outcomes(o: ChallengeOutcomes) -> Seq<(Seq<char>, Outcome)> {
    seq![("Success"@, o.success), ("Failure"@, o.failure)] + match o.partial {
        Some(p) => seq![("Partial"@, p)],
        None => Seq::empty(),
    } + match o.critical_success {
        Some(c) => seq![("Critical Success"@, c)],
        None => Seq::empty(),
    } + match o.critical_failure {
        Some(c) => seq![("Critical Failure"@, c)],
        None => Seq::empty(),
    }
}

/// Error texts for the first `n` trigger conditions: `Trigger condition k: `
/// and the validation error, for each invalid condition `k` (counting from 1).
pub open spec fn condition_errors(conds: Seq<TriggerCondition>, n: int) -> Seq<Seq<char>>
    decreases n,
{
    if n <= 0 {
        Seq::empty()
    } else {
        condition_errors(conds, n - 1) + match conds[n - 1].condition_type.spec_invalid_reason() {
            Some(m) => seq!["Trigger condition "@ + int_text(n) + ": "@ + "Validation failed: "@ + m],
            None => Seq::empty(),
        }
    }
}

/// Error texts for the first `n` triggers of a named outcome.
pub open spec fn outcome_trigger_errors(name: Seq<char>, ts: Seq<OutcomeTrigger>, n: int) -> Seq<
    Seq<char>,
>
    decreases n,
{
    if n <= 0 {
        Seq::empty()
    } else {
        outcome_trigger_errors(name, ts, n - 1) + match ts[n - 1].spec_invalid_reason() {
            Some(m) => seq![
                name + " outcome trigger "@ + int_text(n) + ": "@ + "Validation failed: "@ + m,
            ],
            None => Seq::empty(),
        }
    }
}

/// Error texts for the triggers of the first `k` named outcomes.
pub open spec fn named_outcome_errors(named: Seq<(Seq<char>, Outcome)>, k: int) -> Seq<Seq<char>>
    decreases k,
{
    if k <= 0 {
        Seq::empty()
    } else {
        named_outcome_errors(named, k - 1) + outcome_trigger_errors(
            named[k - 1].0,
            named[k - 1].1.triggers@,
            named[k - 1].1.triggers@.len() as int,
        )
    }
}

/// Challenge ids referred to by the first `n` trigger conditions.
pub open spec fn condition_ids(conds: Seq<TriggerCondition>, n: int) -> Seq<ChallengeId>
    decreases n,
{
    if n <= 0 {
        Seq::empty()
    } else {
        condition_ids(conds, n - 1) + conds[n - 1].condition_type.spec_referenced_ids()
    }
}

/// Challenge ids referred to by the first `n` outcome triggers.
pub open spec fn trigger_ids(ts: Seq<OutcomeTrigger>, n: int) -> Seq<ChallengeId>
    decreases n,
{
    if n <= 0 {
        Seq::empty()
    } else {
        trigger_ids(ts, n - 1) + ts[n - 1].spec_referenced_ids()
    }
}

/// Challenge ids referred to by the triggers of the first `k` named outcomes.
pub open spec fn outcome_ids(named: Seq<(Seq<char>, Outcome)>, k: int) -> Seq<ChallengeId>
    decreases k,
{
    if k <= 0 {
        Seq::empty()
    } else {
        outcome_ids(named, k - 1) + trigger_ids(
            named[k - 1].1.triggers@,
            named[k - 1].1.triggers@.len() as int,
        )
    }
}

/// All challenge ids a challenge refers to: first its trigger conditions',
/// then those of each named outcome's triggers.
pub open spec fn challenge_ids(v: ChallengeView) -> Seq<ChallengeId> {
    condition_ids(v.trigger_conditions, v.trigger_conditions.len() as int) + outcome_ids(
        named_outcomes(v.outcomes),
        named_outcomes(v.outcomes).len() as int,
    )
}

/// Whether the conditions of a challenge match an action and context: there
/// is at least one condition, every required one matches and at least one
/// matches.
pub open spec fn conditions_match(conds: Seq<TriggerCondition>, action: Seq<char>, context: Seq<char>) -> bool {
    &&& conds.len() > 0
    &&& forall|i: int|
        0 <= i < conds.len() && #[trigger] conds[i].required
            ==> conds[i].condition_type.spec_matches_lowercased(
            lowercase(action),
            lowercase(context),
        )
    &&& exists|i: int|
        0 <= i < conds.len() && #[trigger] conds[i].condition_type.spec_matches_lowercased(
            lowercase(action),
            lowercase(context),
        )
}

fn validation_text(m: &String) -> (s: String)
    ensures
        s@ == "Validation failed: "@ + m@,
{
    let mut s = String::new();
    append_str(&mut s, "Validation failed: ");
    append_str(&mut s, m.as_str());
    s
}

impl Challenge {
    fn all_outcomes_named(&self) -> (r: Vec<(&'static str, &Outcome)>)
        ensures
            r@.len() == named_outcomes(self@.outcomes).len(),
            forall|i: int|
                0 <= i < r@.len() ==> (#[trigger] r@[i]).0@ == named_outcomes(self@.outcomes)[i].0
                    && *r@[i].1 == named_outcomes(self@.outcomes)[i].1,
    {
        let mut outcomes: Vec<(&'static str, &Outcome)> = Vec::new();
        outcomes.push(("Success", &self.outcomes.success));
        outcomes.push(("Failure", &self.outcomes.failure));
        let ghost o = self@.outcomes;
        let ghost mut spec_named: Seq<(Seq<char>, Outcome)> = seq![
            ("Success"@, o.success),
            ("Failure"@, o.failure),
        ];
        if let Some(partial) = &self.outcomes.partial {
            outcomes.push(("Partial", partial));
            proof {
                spec_named = spec_named + seq![("Partial"@, *partial)];
            }
        }
        if let Some(crit) = &self.outcomes.critical_success {
            outcomes.push(("Critical Success", crit));
            proof {
                spec_named = spec_named + seq![("Critical Success"@, *crit)];
            }
        }
        if let Some(crit) = &self.outcomes.critical_failure {
            outcomes.push(("Critical Failure", crit));
            proof {
                spec_named = spec_named + seq![("Critical Failure"@, *crit)];
            }
        }
        assert(spec_named =~= named_outcomes(o));
        outcomes
    }

    /// Validation errors of all triggers in this challenge, empty when all are
    /// valid: first the trigger conditions, then the triggers of each named
    /// outcome.
    pub fn validate_triggers(&self) -> (errors: Vec<String>)
        ensures
            texts(errors@) == condition_errors(
                self@.trigger_conditions,
                self@.trigger_conditions.len() as int,
            ) + named_outcome_errors(
                named_outcomes(self@.outcomes),
                named_outcomes(self@.outcomes).len() as int,
            ),
    {
        let mut errors: Vec<String> = Vec::new();
        let n = self.trigger_conditions.len();
        for i in 0..n
            invariant
                n == self@.trigger_conditions.len(),
                texts(errors@) == condition_errors(self@.trigger_conditions, i as int),
        {
            let ghost before = errors@;
            match self.trigger_conditions[i].validate() {
                Err(e) => {
                    if let DomainError::Validation(m) = e {
                        let mut line = String::new();
                        append_str(&mut line, "Trigger condition ");
                        let k = usize_text(i + 1);
                        append_str(&mut line, k.as_str());
                        append_str(&mut line, ": ");
                        let v = validation_text(&m);
                        append_str(&mut line, v.as_str());
                        assert(line@ =~= "Trigger condition "@ + int_text(i + 1) + ": "@
                            + "Validation failed: "@ + m@);
                        errors.push(line);
                    }
                    assert(texts(errors@) =~= texts(before) + texts(seq![errors@.last()]));
                },
                Ok(()) => {},
            }
            assert(texts(errors@) =~= condition_errors(self@.trigger_conditions, i + 1));
        }
        let named = self.all_outcomes_named();
        let ghost spec_named = named_outcomes(self@.outcomes);
        let ghost head = texts(errors@);
        assert(head + named_outcome_errors(spec_named, 0) =~= head);
        for k in 0..named.len()
            invariant
                named@.len() == spec_named.len(),
                forall|j: int|
                    0 <= j < named@.len() ==> (#[trigger] named@[j]).0@ == spec_named[j].0
                        && *named@[j].1 == spec_named[j].1,
                texts(errors@) == head + named_outcome_errors(spec_named, k as int),
        {
            let (name, outcome) = named[k];
            let ghost mid = texts(errors@);
            let m = outcome.triggers.len();
            assert(mid + outcome_trigger_errors(name@, outcome.triggers@, 0) =~= mid);
            for t in 0..m
                invariant
                    m == outcome.triggers@.len(),
                    texts(errors@) == mid + outcome_trigger_errors(name@, outcome.triggers@, t as int),
            {
                let ghost before = errors@;
                match outcome.triggers[t].validate() {
                    Err(e) => {
                        if let DomainError::Validation(msg) = e {
                            let mut line = name.to_owned();
                            append_str(&mut line, " outcome trigger ");
                            let idx = usize_text(t + 1);
                            append_str(&mut line, idx.as_str());
                            append_str(&mut line, ": ");
                            let v = validation_text(&msg);
                            append_str(&mut line, v.as_str());
                            assert(line@ =~= name@ + " outcome trigger "@ + int_text(t + 1)
                                + ": "@ + "Validation failed: "@ + msg@);
                            errors.push(line);
                        }
                        assert(texts(errors@) =~= texts(before) + texts(seq![errors@.last()]));
                    },
                    Ok(()) => {},
                }
                assert(texts(errors@) =~= mid + outcome_trigger_errors(
                    name@,
                    outcome.triggers@,
                    t + 1,
                ));
            }
            assert(texts(errors@) =~= head + named_outcome_errors(spec_named, k + 1));
        }
        errors
    }

    /// All challenge ids referred to by triggers: first the trigger
    /// conditions', then those of each named outcome's triggers.
    pub fn referenced_challenge_ids(&self) -> (ids: Vec<ChallengeId>)
        ensures
            ids@ == challenge_ids(self@),
    {
        let mut ids: Vec<ChallengeId> = Vec::new();
        let n = self.trigger_conditions.len();
        for i in 0..n
            invariant
                n == self@.trigger_conditions.len(),
                ids@ == condition_ids(self@.trigger_conditions, i as int),
        {
            let mut more = self.trigger_conditions[i].referenced_challenge_ids();
            ids.append(&mut more);
        }
        let named = self.all_outcomes_named();
        let ghost spec_named = named_outcomes(self@.outcomes);
        let ghost head = ids@;
        assert(head + outcome_ids(spec_named, 0) =~= head);
        for k in 0..named.len()
            invariant
                named@.len() == spec_named.len(),
                forall|j: int|
                    0 <= j < named@.len() ==> (#[trigger] named@[j]).0@ == spec_named[j].0
                        && *named@[j].1 == spec_named[j].1,
                ids@ == head + outcome_ids(spec_named, k as int),
        {
            let (_, outcome) = named[k];
            let ghost mid = ids@;
            let m = outcome.triggers.len();
            assert(mid + trigger_ids(outcome.triggers@, 0) =~= mid);
            for t in 0..m
                invariant
                    m == outcome.triggers@.len(),
                    ids@ == mid + trigger_ids(outcome.triggers@, t as int),
            {
                let mut more = outcome.triggers[t].referenced_challenge_ids();
                ids.append(&mut more);
                assert(ids@ =~= mid + trigger_ids(outcome.triggers@, t + 1));
            }
            assert(ids@ =~= head + outcome_ids(spec_named, k + 1));
        }
        ids
    }

    /// Whether the trigger conditions match an action and context: all
    /// required conditions match and at least one condition matches overall;
    /// a challenge without conditions never matches.
    pub fn matches_trigger(&self, action: &str, context: &str) -> (b: bool)
        ensures
            b == conditions_match(self@.trigger_conditions, action@, context@),
    {
        let n = self.trigger_conditions.len();
        if n == 0 {
            return false;
        }
        let ghost al = lowercase(action@);
        let ghost cl = lowercase(context@);
        assert(self@.trigger_conditions == self.trigger_conditions@);
        let mut matched: Vec<bool> = Vec::new();
        for i in 0..n
            invariant
                n == self@.trigger_conditions.len(),
                al == lowercase(action@),
                cl == lowercase(context@),
                matched@.len() == i,
                forall|j: int|
                    0 <= j < i ==> #[trigger] matched@[j]
                        == self@.trigger_conditions[j].condition_type.spec_matches_lowercased(al, cl),
        {
            let m = self.trigger_conditions[i].matches(action, context);
            matched.push(m);
            assert(matched@[i as int] == m);
        }
        let mut required_met = true;
        let mut any = false;
        for i in 0..n
            invariant
                n == self@.trigger_conditions.len(),
                al == lowercase(action@),
                cl == lowercase(context@),
                matched@.len() == n,
                forall|j: int|
                    0 <= j < n ==> #[trigger] matched@[j]
                        == self@.trigger_conditions[j].condition_type.spec_matches_lowercased(al, cl),
                required_met == (forall|j: int|
                    0 <= j < i && #[trigger] self@.trigger_conditions[j].required ==> matched@[j]),
                any == (exists|j: int| 0 <= j < i && #[trigger] matched@[j]),
        {
            if self.trigger_conditions[i].required && !matched[i] {
                required_met = false;
            }
            if matched[i] {
                any = true;
            }
        }
        proof {
            if !any {
                assert forall|j: int|
                    0 <= j < n implies !#[trigger] self@.trigger_conditions[j].condition_type.spec_matches_lowercased(
                    al,
                    cl,
                ) by {
                    assert(!matched@[j]);
                }
            }
            if !required_met {
                let j = choose|j: int|
                    0 <= j < n && #[trigger] self@.trigger_conditions[j].required && !matched@[j];
                assert(!self@.trigger_conditions[j].condition_type.spec_matches_lowercased(al, cl));
            }
        }
        required_met && any
    }
}

// =============================================================================
// Edge support structs
// =============================================================================

/// Data for the prerequisite edge between challenges.
#[derive(Debug, Clone, Copy, PartialEq, Eq, Structural)]
pub struct ChallengePrerequisite {
    /// The prerequisite challenge ID.
    pub challenge_id: ChallengeId,
    /// Whether success is required (true = must succeed, false = just attempted).
    pub success_required: bool,
}

impl ChallengePrerequisite {
    /// The given challenge must have been attempted.
    pub fn new(challenge_id: ChallengeId) -> (p: Self)
        ensures
            p == (ChallengePrerequisite { challenge_id, success_required: false }),
    {
        ChallengePrerequisite { challenge_id, success_required: false }
    }

    /// The given challenge must have succeeded.
    pub fn requiring_success(challenge_id: ChallengeId) -> (p: Self)
        ensures
            p == (ChallengePrerequisite { challenge_id, success_required: true }),
    {
        ChallengePrerequisite { challenge_id, success_required: true }
    }
}

/// Data for the availability edge between a challenge and a location.
#[derive(Debug, Clone, PartialEq, Eq)]
pub struct ChallengeLocationAvailability {
    /// The location where this challenge is available.
    pub location_id: LocationId,
    /// Whether the challenge is always available at this location.
    pub always_available: bool,
    /// Time restriction, if any ("Morning", "Afternoon", "Evening", "Night").
    pub time_restriction: Option<String>,
}

impl ChallengeLocationAvailability {
    /// Always available at the given location.
    pub fn new(location_id: LocationId) -> (a: Self)
        ensures
            a == (ChallengeLocationAvailability {
                location_id,
                always_available: true,
                time_restriction: None,
            }),
    {
        ChallengeLocationAvailability { location_id, always_available: true, time_restriction: None }
    }

    /// Available only at the given time (no longer always available).
    pub fn with_time_restriction(self, time: &str) -> (a: Self)
        ensures
            a.location_id == self.location_id,
            !a.always_available,
            a.time_restriction matches Some(t) && t@ == time@,
    {
        ChallengeLocationAvailability {
            location_id: self.location_id,
            always_available: false,
            time_restriction: Some(time.to_owned()),
        }
    }
}

/// Data for the availability edge between a challenge and a region.
#[derive(Debug, Clone, PartialEq, Eq)]
pub struct ChallengeRegionAvailability {
    /// The region where this challenge is available.
    pub region_id: RegionId,
    /// Whether the challenge is always available in this region.
    pub always_available: bool,
    /// Time restriction, if any.
    pub time_restriction: Option<String>,
}

impl ChallengeRegionAvailability {
    /// Always available in the given region.
    pub fn new(region_id: RegionId) -> (a: Self)
        ensures
            a == (ChallengeRegionAvailability {
                region_id,
                always_available: true,
                time_restriction: None,
            }),
    {
        ChallengeRegionAvailability { region_id, always_available: true, time_restriction: None }
    }

    /// Available only at the given time (no longer always available).
    pub fn with_time_restriction(self, time: &str) -> (a: Self)
        ensures
            a.region_id == self.region_id,
            !a.always_available,
            a.time_restriction matches Some(t) && t@ == time@,
    {
        ChallengeRegionAvailability {
            region_id: self.region_id,
            always_available: false,
            time_restriction: Some(time.to_owned()),
        }
    }
}

/// Data for the edge from a challenge to the location its success unlocks.
#[derive(Debug, Clone, Copy, PartialEq, Eq, Structural)]
pub struct ChallengeUnlock {
    /// The location unlocked on successful completion.
    pub location_id: LocationId,
}

impl ChallengeUnlock {
    /// Unlocks the given location.
    pub fn new(location_id: LocationId) -> (u: Self)
        ensures
            u == (ChallengeUnlock { location_id }),
    {
        ChallengeUnlock { location_id }
    }
}


// =============================================================================
// Laws of roll evaluation
// =============================================================================

/// Rank of a result, from critical failure (0) to critical success (4).
pub open spec fn outcome_rank(t: OutcomeType) -> int {
    match t {
        OutcomeType::CriticalFailure => 0,
        OutcomeType::Failure => 1,
        OutcomeType::Partial => 2,
        OutcomeType::Success => 3,
        OutcomeType::CriticalSuccess => 4,
    }
}

/// Against a DC, the same die roll with a larger modifier never gives a worse
/// result.
pub proof fn law_dc_larger_modifier_never_worse(c: Challenge, roll: i32, m1: i32, m2: i32)
    requires
        c@.difficulty is DC,
        m1 <= m2,
    ensures
        outcome_rank(c.spec_roll_outcome(roll, m1, None, Seq::empty())) <= outcome_rank(
            c.spec_roll_outcome(roll, m2, None, Seq::empty()),
        ),
{
}

/// Against a DC, a natural 20 is a critical success and a natural 1 a
/// critical failure whatever the modifier; where the challenge has no such
/// outcome, the success or failure outcome stands for it.
pub proof fn law_dc_natural_rolls(c: Challenge, modifier: i32)
    requires
        c@.difficulty is DC,
    ensures
        c.spec_roll_outcome(20, modifier, None, Seq::empty()) == OutcomeType::CriticalSuccess,
        c.spec_roll_outcome(1, modifier, None, Seq::empty()) == OutcomeType::CriticalFailure,
        c.spec_outcome_for(OutcomeType::CriticalSuccess) == match c@.outcomes.critical_success {
            Some(o) => o,
            None => c@.outcomes.success,
        },
        c.spec_outcome_for(OutcomeType::CriticalFailure) == match c@.outcomes.critical_failure {
            Some(o) => o,
            None => c@.outcomes.failure,
        },
{
}

/// Against a percentage, a lower roll never gives a worse result, except at
/// the critical rolls 1 and 100.
pub proof fn law_percentage_lower_roll_never_worse(c: Challenge, r1: i32, r2: i32, modifier: i32)
    requires
        c@.difficulty is Percentage,
        r1 <= r2,
        r1 != 1 && r1 != 100 && r2 != 1 && r2 != 100,
    ensures
        outcome_rank(c.spec_roll_outcome(r2, modifier, None, Seq::empty())) <= outcome_rank(
            c.spec_roll_outcome(r1, modifier, None, Seq::empty()),
        ),
{
}

/// Opposed and custom difficulties always give success here: the comparison
/// or the ruling happens elsewhere.
pub proof fn law_opposed_and_custom_succeed(c: Challenge, roll: i32, modifier: i32, config: Option<NarrativeResolutionConfig>, dice: Seq<i32>)
    requires
        c@.difficulty is Opposed || c@.difficulty is Custom,
    ensures
        c.spec_roll_outcome(roll, modifier, config, dice) == OutcomeType::Success,
{
}

/// With fixed thresholds (PbtA style), a higher total never gives a worse
/// result.
pub proof fn law_pbta_higher_total_never_worse(t1: int, t2: int, t: NarrativeThresholds, cs: bool, cf: bool)
    requires
        t1 <= t2,
    ensures
        outcome_rank(pbta_outcome(t1, t, cs, cf)) <= outcome_rank(pbta_outcome(t2, t, cs, cf)),
{
}

/// The text of a DC or percentage difficulty parses back to it.
pub proof fn law_difficulty_display_round_trip(n: u32)
    ensures
        parse_difficulty(Difficulty::DC(n).spec_display()) == Difficulty::DC(n),
        parse_difficulty(Difficulty::Percentage(n).spec_display()) == Difficulty::Percentage(n),
{
    reveal_strlit("DC ");
    reveal_strlit("%");
    lemma_decimal_digits(n as nat);
    lemma_parse_decimal(n);
    let dec = decimal(n as nat);
    assert(is_digit(dec[0]) && is_digit(dec.last()));
    // DC n
    let s = Difficulty::DC(n).spec_display();
    assert(s =~= seq!['D', 'C', ' '] + dec);
    lemma_trimmed_unchanged(s);
    assert(is_ascii_text(s)) by {
        assert forall|i: int| 0 <= i < s.len() implies (#[trigger] s[i] as u32) < 128 by {
            if i >= 3 {
                assert(s[i] == dec[i - 3]);
            }
        }
    }
    let rest = seq![' '] + dec;
    assert(s.skip(2) =~= rest);
    assert(rest.drop_first() =~= dec);
    assert(trim_start(dec) == dec);
    assert(trim_start(rest) == dec);
    assert(trim_end(dec) == dec);
    assert(trimmed(rest) == dec);
    // n%
    let p = Difficulty::Percentage(n).spec_display();
    assert(p =~= dec + seq!['%']);
    lemma_trimmed_unchanged(p);
    assert(is_ascii_text(p)) by {
        assert forall|i: int| 0 <= i < p.len() implies (#[trigger] p[i] as u32) < 128 by {
            if i < dec.len() {
                assert(p[i] == dec[i]);
            }
        }
    }
    assert(uppercase(p)[0] == dec[0]);
    assert(p.drop_last() =~= dec);
    lemma_trimmed_unchanged(dec);
}


// ---------------------------------------------------------------------------
// Laws on dice pools, trigger matching and referenced challenges
// ---------------------------------------------------------------------------

/// The highest die of a pool is 0 for an empty pool; otherwise it is one of
/// the dice and no die of the pool is higher.
pub proof fn law_pool_highest_is_the_maximum(dice: Seq<i32>)
    ensures
        dice.len() == 0 ==> pool_highest(dice) == 0,
        dice.len() > 0 ==> exists|i: int| 0 <= i < dice.len() && dice[i] == pool_highest(dice),
        forall|i: int| 0 <= i < dice.len() ==> dice[i] <= pool_highest(dice),
    decreases dice.len(),
{
    if dice.len() > 1 {
        let t = dice.drop_last();
        law_pool_highest_is_the_maximum(t);
        let m = pool_highest(t);
        let k = choose|k: int| 0 <= k < t.len() && t[k] == m;
        assert(dice[k] == m);
        assert forall|i: int| 0 <= i < dice.len() implies dice[i] <= pool_highest(dice) by {
            if i < t.len() {
                assert(dice[i] == t[i]);
            }
        }
        if dice.last() > m {
            assert(dice[dice.len() - 1] == pool_highest(dice));
        }
    } else if dice.len() == 1 {
        assert(dice[0] == pool_highest(dice));
    }
}

/// In a Blades-style roll a pool with some die at or above the full-success
/// value succeeds (or succeeds critically); with no critical, a pool whose
/// dice all lie below the partial range fails.
pub proof fn law_blades_highest_die_decides(dice: Seq<i32>, c: PositionEffectConfig)
    ensures
        (exists|i: int| 0 <= i < dice.len() && dice[i] >= c.pool_thresholds.full_success)
            ==> (blades_outcome(dice, c) == OutcomeType::Success || blades_outcome(dice, c)
            == OutcomeType::CriticalSuccess),
        !c.enable_critical && dice.len() > 0 && (forall|i: int|
            0 <= i < dice.len() ==> dice[i] < c.pool_thresholds.partial_success_min)
            && c.pool_thresholds.partial_success_min <= c.pool_thresholds.full_success
            ==> blades_outcome(dice, c) == OutcomeType::Failure,
{
    law_pool_highest_is_the_maximum(dice);
    if dice.len() > 0 {
        let k = choose|k: int| 0 <= k < dice.len() && dice[k] == pool_highest(dice);
        assert(dice[k] == pool_highest(dice));
    }
}

/// The trigger types that carry keywords hold `k` among them.
pub open spec fn has_keyword(t: TriggerType, k: String) -> bool {
    match t {
        TriggerType::ObjectInteraction { keywords } => keywords@.contains(k),
        TriggerType::EnterArea { area_keywords } => area_keywords@.contains(k),
        TriggerType::DialogueTopic { topic_keywords } => topic_keywords@.contains(k),
        _ => false,
    }
}

/// A keyword trigger (object, area or topic) matches when one of its
/// keywords, lower-cased, occurs in the lower-cased action or in the
/// lower-cased context, whichever of the two holds it; and it matches only
/// then.
pub proof fn law_keyword_trigger_matches_action_or_context(
    t: TriggerType,
    k: String,
    action: Seq<char>,
    context: Seq<char>,
)
    ensures
        has_keyword(t, k) && is_substring(lowercase(action), lowercase(k@))
            ==> t.spec_matches_lowercased(lowercase(action), lowercase(context)),
        has_keyword(t, k) && is_substring(lowercase(context), lowercase(k@))
            ==> t.spec_matches_lowercased(lowercase(action), lowercase(context)),
        (t is ObjectInteraction || t is EnterArea || t is DialogueTopic)
            && t.spec_matches_lowercased(lowercase(action), lowercase(context)) ==> exists|j: String|
            has_keyword(t, j) && (is_substring(lowercase(action), lowercase(j@)) || is_substring(
                lowercase(context),
                lowercase(j@),
            )),
{
    let ks = match t {
        TriggerType::ObjectInteraction { keywords } => keywords@,
        TriggerType::EnterArea { area_keywords } => area_keywords@,
        TriggerType::DialogueTopic { topic_keywords } => topic_keywords@,
        _ => Seq::empty(),
    };
    if has_keyword(t, k) {
        let i = choose|i: int| 0 <= i < ks.len() && ks[i] == k;
        assert(ks[i] == k);
    }
    if (t is ObjectInteraction || t is EnterArea || t is DialogueTopic)
        && t.spec_matches_lowercased(lowercase(action), lowercase(context)) {
        let i = choose|i: int|
            0 <= i < ks.len() && (is_substring(lowercase(action), lowercase(#[trigger] ks[i]@))
                || is_substring(lowercase(context), lowercase(ks[i]@)));
        assert(has_keyword(t, ks[i]));
    }
}

/// Enabling or disabling a challenge refers to that challenge, and to no
/// other.
pub proof fn law_enable_and_disable_refer_to_their_challenge(t: OutcomeTrigger, x: ChallengeId)
    ensures
        (t == OutcomeTrigger::EnableChallenge { challenge_id: x } || t
            == OutcomeTrigger::DisableChallenge { challenge_id: x }) ==> t.spec_referenced_ids().len()
            == 1 && t.spec_referenced_ids()[0] == x,
        !(t is EnableChallenge || t is DisableChallenge) ==> t.spec_referenced_ids().len() == 0,
{
}

/// The ids of the first `n` triggers include those of each of them.
proof fn lemma_trigger_ids_include(ts: Seq<OutcomeTrigger>, n: int, j: int, x: ChallengeId)
    requires
        0 <= j < n <= ts.len(),
        ts[j].spec_referenced_ids().contains(x),
    ensures
        trigger_ids(ts, n).contains(x),
    decreases n,
{
    let tail = ts[n - 1].spec_referenced_ids();
    if j == n - 1 {
        let m = choose|m: int| 0 <= m < tail.len() && tail[m] == x;
        assert((trigger_ids(ts, n - 1) + tail)[trigger_ids(ts, n - 1).len() + m] == x);
    } else {
        lemma_trigger_ids_include(ts, n - 1, j, x);
        let pre = trigger_ids(ts, n - 1);
        let m = choose|m: int| 0 <= m < pre.len() && pre[m] == x;
        assert((pre + tail)[m] == x);
    }
}

/// The ids of the first `n` conditions include those of each of them.
proof fn lemma_condition_ids_include(conds: Seq<TriggerCondition>, n: int, j: int, x: ChallengeId)
    requires
        0 <= j < n <= conds.len(),
        conds[j].condition_type.spec_referenced_ids().contains(x),
    ensures
        condition_ids(conds, n).contains(x),
    decreases n,
{
    let tail = conds[n - 1].condition_type.spec_referenced_ids();
    if j == n - 1 {
        let m = choose|m: int| 0 <= m < tail.len() && tail[m] == x;
        assert((condition_ids(conds, n - 1) + tail)[condition_ids(conds, n - 1).len() + m] == x);
    } else {
        lemma_condition_ids_include(conds, n - 1, j, x);
        let pre = condition_ids(conds, n - 1);
        let m = choose|m: int| 0 <= m < pre.len() && pre[m] == x;
        assert((pre + tail)[m] == x);
    }
}

/// The ids of the first `k` named outcomes include those of each of their
/// triggers.
proof fn lemma_outcome_ids_include(
    named: Seq<(Seq<char>, Outcome)>,
    k: int,
    o: int,
    j: int,
    x: ChallengeId,
)
    requires
        0 <= o < k <= named.len(),
        0 <= j < named[o].1.triggers@.len(),
        named[o].1.triggers@[j].spec_referenced_ids().contains(x),
    ensures
        outcome_ids(named, k).contains(x),
    decreases k,
{
    let ts = named[k - 1].1.triggers@;
    let tail = trigger_ids(ts, ts.len() as int);
    if o == k - 1 {
        lemma_trigger_ids_include(ts, ts.len() as int, j, x);
        let m = choose|m: int| 0 <= m < tail.len() && tail[m] == x;
        assert((outcome_ids(named, k - 1) + tail)[outcome_ids(named, k - 1).len() + m] == x);
    } else {
        lemma_outcome_ids_include(named, k - 1, o, j, x);
        let pre = outcome_ids(named, k - 1);
        let m = choose|m: int| 0 <= m < pre.len() && pre[m] == x;
        assert((pre + tail)[m] == x);
    }
}

/// One of a challenge's outcomes: success, failure, or a partial or
/// critical outcome that is set.
pub open spec fn is_outcome_of(os: ChallengeOutcomes, o: Outcome) -> bool {
    ||| o == os.success
    ||| o == os.failure
    ||| os.partial == Some(o)
    ||| os.critical_success == Some(o)
    ||| os.critical_failure == Some(o)
}

/// Every challenge a challenge refers to is listed by
/// `referenced_challenge_ids`: the challenge of each ChallengeComplete
/// condition, and the challenge each outcome's triggers enable or disable.
pub proof fn law_every_referenced_challenge_is_listed(
    v: ChallengeView,
    o: Outcome,
    i: int,
    j: int,
    x: ChallengeId,
)
    ensures
        0 <= i < v.trigger_conditions.len() && (v.trigger_conditions[i].condition_type matches TriggerType::ChallengeComplete { challenge_id, .. } && challenge_id == x)
            ==> challenge_ids(v).contains(x),
        is_outcome_of(v.outcomes, o) && 0 <= j < o.triggers@.len() && (o.triggers@[j]
            == OutcomeTrigger::EnableChallenge { challenge_id: x } || o.triggers@[j]
            == OutcomeTrigger::DisableChallenge { challenge_id: x }) ==> challenge_ids(v).contains(x),
{
    let conds = v.trigger_conditions;
    let c = condition_ids(conds, conds.len() as int);
    let named = named_outcomes(v.outcomes);
    let r = outcome_ids(named, named.len() as int);
    if 0 <= i < conds.len() && (conds[i].condition_type matches TriggerType::ChallengeComplete { challenge_id, .. } && challenge_id == x) {
        assert(conds[i].condition_type.spec_referenced_ids()[0] == x);
        lemma_condition_ids_include(conds, conds.len() as int, i, x);
        let m = choose|m: int| 0 <= m < c.len() && c[m] == x;
        assert((c + r)[m] == x);
    }
    if is_outcome_of(v.outcomes, o) && 0 <= j < o.triggers@.len() && (o.triggers@[j]
        == OutcomeTrigger::EnableChallenge { challenge_id: x } || o.triggers@[j]
        == OutcomeTrigger::DisableChallenge { challenge_id: x }) {
        assert(o.triggers@[j].spec_referenced_ids()[0] == x);
        let k: int = if o == v.outcomes.success {
            0
        } else if o == v.outcomes.failure {
            1
        } else if v.outcomes.partial == Some(o) {
            2
        } else if v.outcomes.critical_success == Some(o) {
            if v.outcomes.partial is Some { 3 } else { 2 }
        } else {
            2 + (if v.outcomes.partial is Some { 1int } else { 0 }) + (if v.outcomes.critical_success is Some { 1int } else { 0 })
        };
        assert(named[k].1 == o);
        lemma_outcome_ids_include(named, named.len() as int, k, j, x);
        let m = choose|m: int| 0 <= m < r.len() && r[m] == x;
        assert((c + r)[c.len() + m] == x);
    }
}

/// The ids of the first `n` triggers come from those triggers.
proof fn lemma_trigger_ids_from(ts: Seq<OutcomeTrigger>, n: int, x: ChallengeId)
    requires
        0 <= n <= ts.len(),
        trigger_ids(ts, n).contains(x),
    ensures
        exists|j: int| 0 <= j < n && (#[trigger] ts[j]).spec_referenced_ids().contains(x),
    decreases n,
{
    let pre = trigger_ids(ts, n - 1);
    let tail = ts[n - 1].spec_referenced_ids();
    let m = choose|m: int| 0 <= m < (pre + tail).len() && (pre + tail)[m] == x;
    if m < pre.len() {
        assert(pre[m] == x);
        lemma_trigger_ids_from(ts, n - 1, x);
    } else {
        assert(tail[m - pre.len()] == x);
        assert(ts[n - 1].spec_referenced_ids().contains(x));
    }
}

/// The ids of the first `n` conditions come from those conditions.
proof fn lemma_condition_ids_from(conds: Seq<TriggerCondition>, n: int, x: ChallengeId)
    requires
        0 <= n <= conds.len(),
        condition_ids(conds, n).contains(x),
    ensures
        exists|j: int| 0 <= j < n && (#[trigger] conds[j]).condition_type.spec_referenced_ids().contains(x),
    decreases n,
{
    let pre = condition_ids(conds, n - 1);
    let tail = conds[n - 1].condition_type.spec_referenced_ids();
    let m = choose|m: int| 0 <= m < (pre + tail).len() && (pre + tail)[m] == x;
    if m < pre.len() {
        assert(pre[m] == x);
        lemma_condition_ids_from(conds, n - 1, x);
    } else {
        assert(tail[m - pre.len()] == x);
        assert(conds[n - 1].condition_type.spec_referenced_ids().contains(x));
    }
}

/// The ids of the first `k` named outcomes come from their triggers.
proof fn lemma_outcome_ids_from(named: Seq<(Seq<char>, Outcome)>, k: int, x: ChallengeId)
    requires
        0 <= k <= named.len(),
        outcome_ids(named, k).contains(x),
    ensures
        exists|o: int, j: int|
            0 <= o < k && 0 <= j < named[o].1.triggers@.len()
                && (#[trigger] named[o].1.triggers@[j]).spec_referenced_ids().contains(x),
    decreases k,
{
    let pre = outcome_ids(named, k - 1);
    let ts = named[k - 1].1.triggers@;
    let tail = trigger_ids(ts, ts.len() as int);
    let m = choose|m: int| 0 <= m < (pre + tail).len() && (pre + tail)[m] == x;
    if m < pre.len() {
        assert(pre[m] == x);
        lemma_outcome_ids_from(named, k - 1, x);
    } else {
        assert(tail[m - pre.len()] == x);
        lemma_trigger_ids_from(ts, ts.len() as int, x);
        let j = choose|j: int| 0 <= j < ts.len() && (#[trigger] ts[j]).spec_referenced_ids().contains(x);
        assert(named[k - 1].1.triggers@[j] == ts[j]);
    }
}

/// A challenge-complete condition refers to its challenge; other conditions
/// refer to none.
pub proof fn law_challenge_complete_refers_to_its_challenge(t: TriggerType, x: ChallengeId)
    ensures
        (t matches TriggerType::ChallengeComplete { challenge_id, .. } && challenge_id == x)
            ==> t.spec_referenced_ids().len() == 1 && t.spec_referenced_ids()[0] == x,
        !(t is ChallengeComplete) ==> t.spec_referenced_ids().len() == 0,
{
}

/// Every id `referenced_challenge_ids` lists is referred to by the challenge:
/// by a ChallengeComplete condition, or by a trigger of one of its outcomes
/// that enables or disables that challenge.
pub proof fn law_listed_challenges_are_referenced(v: ChallengeView, x: ChallengeId)
    requires
        challenge_ids(v).contains(x),
    ensures
        (exists|i: int|
            0 <= i < v.trigger_conditions.len() && ((#[trigger] v.trigger_conditions[i]).condition_type
                matches TriggerType::ChallengeComplete { challenge_id, .. } && challenge_id == x))
            || (exists|o: Outcome, j: int|
            is_outcome_of(v.outcomes, o) && 0 <= j < o.triggers@.len() && (#[trigger] o.triggers@[j]
                == OutcomeTrigger::EnableChallenge { challenge_id: x } || o.triggers@[j]
                == OutcomeTrigger::DisableChallenge { challenge_id: x })),
{
    let conds = v.trigger_conditions;
    let c = condition_ids(conds, conds.len() as int);
    let named = named_outcomes(v.outcomes);
    let r = outcome_ids(named, named.len() as int);
    let m = choose|m: int| 0 <= m < (c + r).len() && (c + r)[m] == x;
    if m < c.len() {
        assert(c[m] == x);
        lemma_condition_ids_from(conds, conds.len() as int, x);
        let i = choose|i: int|
            0 <= i < conds.len() && (#[trigger] conds[i]).condition_type.spec_referenced_ids().contains(x);
        assert(conds[i].condition_type is ChallengeComplete);
    } else {
        assert(r[m - c.len()] == x);
        lemma_outcome_ids_from(named, named.len() as int, x);
        let (k, j) = choose|k: int, j: int|
            0 <= k < named.len() && 0 <= j < named[k].1.triggers@.len()
                && (#[trigger] named[k].1.triggers@[j]).spec_referenced_ids().contains(x);
        let o = named[k].1;
        assert(is_outcome_of(v.outcomes, o));
        let t = o.triggers@[j];
        assert(t is EnableChallenge || t is DisableChallenge);
        assert(t == OutcomeTrigger::EnableChallenge { challenge_id: x } || t
            == OutcomeTrigger::DisableChallenge { challenge_id: x });
    }
}

/// The dice of a pool that show `v`.
pub open spec fn dice_showing(dice: Seq<i32>, v: i32) -> Seq<i32> {
    dice.filter(|d: i32| d == v)
}

/// `count_showing` counts exactly the dice that show the value, and a Blades
/// pool with critical results on and at least the critical number of dice at
/// the full-success value is a critical success.
pub proof fn law_blades_counts_top_dice(dice: Seq<i32>, c: PositionEffectConfig)
    ensures
        count_showing(dice, c.pool_thresholds.full_success) == dice_showing(
            dice,
            c.pool_thresholds.full_success,
        ).len(),
        c.enable_critical && dice_showing(dice, c.pool_thresholds.full_success).len()
            >= c.critical_dice_count ==> blades_outcome(dice, c) == OutcomeType::CriticalSuccess,
    decreases dice.len(),
{
    reveal(Seq::filter);
    if dice.len() > 0 {
        law_blades_counts_top_dice(dice.drop_last(), c);
    }
}
} // verus!
