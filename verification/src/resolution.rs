//! Narrative resolution settings used when a challenge's difficulty is a
//! descriptor: Powered-by-the-Apocalypse thresholds, a Fate-style ladder and
//! Blades-style dice pools with position and effect.

use vstd::prelude::*;

verus! {

/// Descriptive difficulty for narrative systems.
#[derive(Debug, Clone, Copy, PartialEq, Eq, Structural, Hash)]
pub enum DifficultyDescriptor {
    Trivial,
    Easy,
    Moderate,
    Hard,
    VeryHard,
    Extreme,
    Impossible,
}

impl DifficultyDescriptor {
    /// Human-readable name.
    pub open spec fn spec_display_name(&self) -> &'static str {
        match self {
            DifficultyDescriptor::Trivial => "Trivial",
            DifficultyDescriptor::Easy => "Easy",
            DifficultyDescriptor::Moderate => "Moderate",
            DifficultyDescriptor::Hard => "Hard",
            DifficultyDescriptor::VeryHard => "Very Hard",
            DifficultyDescriptor::Extreme => "Extreme",
            DifficultyDescriptor::Impossible => "Impossible",
        }
    }

    /// Human-readable name.
    pub fn display_name(&self) -> (s: &'static str)
        ensures
            s == self.spec_display_name(),
    {
        match self {
            DifficultyDescriptor::Trivial => "Trivial",
            DifficultyDescriptor::Easy => "Easy",
            DifficultyDescriptor::Moderate => "Moderate",
            DifficultyDescriptor::Hard => "Hard",
            DifficultyDescriptor::VeryHard => "Very Hard",
            DifficultyDescriptor::Extreme => "Extreme",
            DifficultyDescriptor::Impossible => "Impossible",
        }
    }
}

/// How a narrative roll is resolved.
#[derive(Debug, Clone, Copy, PartialEq, Eq, Structural)]
pub enum NarrativeResolutionStyle {
    /// Fixed thresholds (10+ full, 7-9 partial, 6- miss by default).
    PbtA,
    /// Compare the total with the descriptor's place on a ladder.
    Ladder,
    /// Pool of d6, highest die counts.
    Blades,
    /// Resolved like PbtA.
    Custom,
    /// Resolved like PbtA.
    Unknown,
}

/// Thresholds for PbtA-style resolution.
#[derive(Debug, Clone, Copy, PartialEq, Eq, Structural)]
pub struct NarrativeThresholds {
    /// Total at or above which the roll is a critical success, if set.
    pub critical_success: Option<i32>,
    /// Total at or above which the roll is a full success.
    pub full_success: i32,
    /// Total at or above which the roll is a partial success.
    pub partial_success: i32,
    /// Total at or below which the roll is a critical failure, if set.
    pub critical_failure: Option<i32>,
}

impl Default for NarrativeThresholds {
    fn default() -> (t: Self)
        ensures
            t == (NarrativeThresholds {
                critical_success: None,
                full_success: 10,
                partial_success: 7,
                critical_failure: None,
            }),
    {
        NarrativeThresholds {
            critical_success: None,
            full_success: 10,
            partial_success: 7,
            critical_failure: None,
        }
    }
}

/// A Fate-style ladder: the value of each descriptor and the shift thresholds.
#[derive(Debug, Clone, PartialEq, Eq)]
pub struct DifficultyLadder {
    /// Ladder value of each descriptor; the first entry for a descriptor counts.
    pub entries: Vec<(DifficultyDescriptor, i32)>,
    /// Shifts at or above which the roll succeeds with style.
    pub style_threshold: i32,
    /// Shifts that make a tie.
    pub tie_threshold: i32,
}

/// Value of `d` in `entries`, the first entry for it counting.
pub open spec fn ladder_value(entries: Seq<(DifficultyDescriptor, i32)>, d: DifficultyDescriptor) -> Option<i32>
    decreases entries.len(),
{
    if entries.len() == 0 {
        None
    } else if entries[0].0 == d {
        Some(entries[0].1)
    } else {
        ladder_value(entries.drop_first(), d)
    }
}

impl DifficultyLadder {
    /// Ladder value of a descriptor, if the ladder lists it.
    pub fn value_for(&self, descriptor: &DifficultyDescriptor) -> (v: Option<i32>)
        ensures
            v == ladder_value(self.entries@, *descriptor),
    {
        let mut i: usize = 0;
        assert(self.entries@.skip(0) =~= self.entries@);
        while i < self.entries.len()
            invariant
                i <= self.entries.len(),
                ladder_value(self.entries@, *descriptor) == ladder_value(
                    self.entries@.skip(i as int),
                    *descriptor,
                ),
            decreases self.entries.len() - i,
        {
            assert(self.entries@.skip(i as int).drop_first() =~= self.entries@.skip(i + 1));
            if self.entries[i].0 == *descriptor {
                return Some(self.entries[i].1);
            }
            i = i + 1;
        }
        None
    }
}

impl Default for DifficultyLadder {
    /// The Fate ladder: Trivial +0, Easy +1, Moderate +2 (Fair), Hard +4 (Great),
    /// Very Hard +5, Extreme +6, Impossible +8; three shifts succeed with style,
    /// zero shifts tie.
    fn default() -> (l: Self)
        ensures
            l.entries@ == seq![
                (DifficultyDescriptor::Trivial, 0i32),
                (DifficultyDescriptor::Easy, 1i32),
                (DifficultyDescriptor::Moderate, 2i32),
                (DifficultyDescriptor::Hard, 4i32),
                (DifficultyDescriptor::VeryHard, 5i32),
                (DifficultyDescriptor::Extreme, 6i32),
                (DifficultyDescriptor::Impossible, 8i32),
            ],
            l.style_threshold == 3,
            l.tie_threshold == 0,
    {
        let mut entries: Vec<(DifficultyDescriptor, i32)> = Vec::new();
        entries.push((DifficultyDescriptor::Trivial, 0));
        entries.push((DifficultyDescriptor::Easy, 1));
        entries.push((DifficultyDescriptor::Moderate, 2));
        entries.push((DifficultyDescriptor::Hard, 4));
        entries.push((DifficultyDescriptor::VeryHard, 5));
        entries.push((DifficultyDescriptor::Extreme, 6));
        entries.push((DifficultyDescriptor::Impossible, 8));
        DifficultyLadder { entries, style_threshold: 3, tie_threshold: 0 }
    }
}

/// Position for Blades-style resolution.
#[derive(Debug, Clone, Copy, PartialEq, Eq, Structural)]
pub enum Position {
    Controlled,
    Risky,
    Desperate,
}

impl Default for Position {
    fn default() -> (p: Self)
        ensures
            p == Position::Risky,
    {
        Position::Risky
    }
}

/// Effect level for Blades-style resolution.
#[derive(Debug, Clone, Copy, PartialEq, Eq, Structural)]
pub enum EffectLevel {
    Zero,
    Limited,
    Standard,
    Great,
    Extreme,
}

impl Default for EffectLevel {
    fn default() -> (e: Self)
        ensures
            e == EffectLevel::Standard,
    {
        EffectLevel::Standard
    }
}

/// Die thresholds for a Blades-style pool.
#[derive(Debug, Clone, Copy, PartialEq, Eq, Structural)]
pub struct PoolThresholds {
    /// Highest die at or above which the roll is a full success.
    pub full_success: i32,
    /// Lowest highest die that gives a partial success.
    pub partial_success_min: i32,
    /// Highest highest die that gives a partial success.
    pub partial_success_max: i32,
}

/// Blades-style pool settings.
#[derive(Debug, Clone, Copy, PartialEq, Eq, Structural)]
pub struct PositionEffectConfig {
    pub pool_thresholds: PoolThresholds,
    /// Whether several top dice make a critical.
    pub enable_critical: bool,
    /// How many top dice make a critical.
    pub critical_dice_count: u8,
}

impl Default for PositionEffectConfig {
    fn default() -> (c: Self)
        ensures
            c == (PositionEffectConfig {
                pool_thresholds: PoolThresholds {
                    full_success: 6,
                    partial_success_min: 4,
                    partial_success_max: 5,
                },
                enable_critical: true,
                critical_dice_count: 2,
            }),
    {
        PositionEffectConfig {
            pool_thresholds: PoolThresholds {
                full_success: 6,
                partial_success_min: 4,
                partial_success_max: 5,
            },
            enable_critical: true,
            critical_dice_count: 2,
        }
    }
}

/// Complete narrative resolution configuration.
#[derive(Debug, Clone, PartialEq, Eq)]
pub struct NarrativeResolutionConfig {
    pub style: NarrativeResolutionStyle,
    pub thresholds: NarrativeThresholds,
    pub ladder: DifficultyLadder,
    pub position_effect: PositionEffectConfig,
}

/// The configuration used when none is given: PbtA with default thresholds,
/// the default ladder and default pool settings.
pub open spec fn is_default_config(c: NarrativeResolutionConfig) -> bool {
    &&& c.style == NarrativeResolutionStyle::PbtA
    &&& c.thresholds == (NarrativeThresholds {
        critical_success: None,
        full_success: 10,
        partial_success: 7,
        critical_failure: None,
    })
    &&& c.ladder.style_threshold == 3
    &&& c.ladder.tie_threshold == 0
    &&& ladder_value(c.ladder.entries@, DifficultyDescriptor::Hard) == Some(4i32)
    &&& c.position_effect == (PositionEffectConfig {
        pool_thresholds: PoolThresholds {
            full_success: 6,
            partial_success_min: 4,
            partial_success_max: 5,
        },
        enable_critical: true,
        critical_dice_count: 2,
    })
}

impl Default for NarrativeResolutionConfig {
    fn default() -> (c: Self)
        ensures
            is_default_config(c),
    {
        let ladder = DifficultyLadder::default();
        proof {
            reveal_with_fuel(ladder_value, 5);
        }
        NarrativeResolutionConfig {
            style: NarrativeResolutionStyle::PbtA,
            thresholds: NarrativeThresholds::default(),
            ladder,
            position_effect: PositionEffectConfig::default(),
        }
    }
}

} // verus!
