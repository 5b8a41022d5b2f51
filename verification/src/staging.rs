//! Stagings: the game master's approved set of NPCs present in a region, and
//! the visual state it is shown in.

use crate::ids::{CharacterId, LocationId, LocationStateId, RegionId, RegionStateId, StagingId, WorldId};
use crate::text::{append_str, lowercase, str_eq, to_lowercase};
use crate::value_objects::Timestamp;
use vstd::prelude::*;

verus! {

/// How a staging was created.
#[derive(Debug, Clone, Copy, PartialEq, Eq, Structural, Hash)]
pub enum StagingSource {
    /// From deterministic rules.
    RuleBased,
    /// With reasoning from a language model.
    LlmBased,
    /// Customized by the game master.
    DmCustomized,
    /// Staged before the player arrived.
    PreStaged,
    /// Approved automatically on timeout.
    AutoApproved,
    /// Unknown source (forward compatibility).
    Unknown,
}

/// The storage name of each staging source.
pub open spec fn staging_source_name(s: StagingSource) -> &'static str {
    match s {
        StagingSource::RuleBased => "rule",
        StagingSource::LlmBased => "llm",
        StagingSource::DmCustomized => "custom",
        StagingSource::PreStaged => "prestaged",
        StagingSource::AutoApproved => "auto",
        StagingSource::Unknown => "unknown",
    }
}

/// The source a lower-case name stands for; any other name is `Unknown`.
pub open spec fn staging_source_named(s: Seq<char>) -> StagingSource {
    if s == "rule"@ || s == "rulebased"@ {
        StagingSource::RuleBased
    } else if s == "llm"@ || s == "llmbased"@ {
        StagingSource::LlmBased
    } else if s == "custom"@ || s == "dmcustomized"@ {
        StagingSource::DmCustomized
    } else if s == "prestaged"@ {
        StagingSource::PreStaged
    } else if s == "auto"@ || s == "autoapproved"@ {
        StagingSource::AutoApproved
    } else {
        StagingSource::Unknown
    }
}

impl StagingSource {
    /// The storage name of this source.
    pub fn as_str(&self) -> (r: &'static str)
        ensures
            r == staging_source_name(*self),
    {
        match self {
            StagingSource::RuleBased => "rule",
            StagingSource::LlmBased => "llm",
            StagingSource::DmCustomized => "custom",
            StagingSource::PreStaged => "prestaged",
            StagingSource::AutoApproved => "auto",
            StagingSource::Unknown => "unknown",
        }
    }

    /// The source a lower-case name stands for; unknown names give `Unknown`.
    pub fn from_lowercase(text: &str) -> (r: Self)
        ensures
            r == staging_source_named(text@),
    {
        if str_eq(text, "rule") || str_eq(text, "rulebased") {
            StagingSource::RuleBased
        } else if str_eq(text, "llm") || str_eq(text, "llmbased") {
            StagingSource::LlmBased
        } else if str_eq(text, "custom") || str_eq(text, "dmcustomized") {
            StagingSource::DmCustomized
        } else if str_eq(text, "prestaged") {
            StagingSource::PreStaged
        } else if str_eq(text, "auto") || str_eq(text, "autoapproved") {
            StagingSource::AutoApproved
        } else {
            StagingSource::Unknown
        }
    }

    /// Parses a source name in any letter case; unknown names give `Unknown`.
    pub fn parse(s: &str) -> (r: Self)
        ensures
            r == staging_source_named(lowercase(s@)),
    {
        let lower = to_lowercase(s);
        Self::from_lowercase(lower.as_str())
    }
}

impl std::str::FromStr for StagingSource {
    type Err = String;

    fn from_str(s: &str) -> (r: Result<Self, Self::Err>)
        ensures
            r == Ok::<StagingSource, String>(staging_source_named(lowercase(s@))),
    {
        Ok(StagingSource::parse(s))
    }
}

/// How the visual state of a staging was resolved.
#[derive(Debug, Clone, Copy, PartialEq, Eq, Structural, Hash)]
pub enum VisualStateSource {
    /// From hard rules only.
    HardRulesOnly,
    /// Soft rules were evaluated by a language model too.
    WithLlmEvaluation,
    /// Chosen by the game master.
    DmOverride,
    /// Default states, as no rule matched.
    Default,
}

impl Default for VisualStateSource {
    fn default() -> (s: Self)
        ensures
            s == VisualStateSource::HardRulesOnly,
    {
        VisualStateSource::HardRulesOnly
    }
}

/// The storage name of each visual state source.
pub open spec fn visual_source_name(s: VisualStateSource) -> &'static str {
    match s {
        VisualStateSource::HardRulesOnly => "rules",
        VisualStateSource::WithLlmEvaluation => "llm",
        VisualStateSource::DmOverride => "dm",
        VisualStateSource::Default => "default",
    }
}

/// The visual state source a lower-case name stands for, if any.
pub open spec fn visual_source_named(s: Seq<char>) -> Option<VisualStateSource> {
    if s == "rules"@ || s == "hardrulesonly"@ {
        Some(VisualStateSource::HardRulesOnly)
    } else if s == "llm"@ || s == "withllmevaluation"@ {
        Some(VisualStateSource::WithLlmEvaluation)
    } else if s == "dm"@ || s == "dmoverride"@ {
        Some(VisualStateSource::DmOverride)
    } else if s == "default"@ {
        Some(VisualStateSource::Default)
    } else {
        None
    }
}

impl VisualStateSource {
    /// The storage name of this source.
    pub fn as_str(&self) -> (r: &'static str)
        ensures
            r == visual_source_name(*self),
    {
        match self {
            VisualStateSource::HardRulesOnly => "rules",
            VisualStateSource::WithLlmEvaluation => "llm",
            VisualStateSource::DmOverride => "dm",
            VisualStateSource::Default => "default",
        }
    }

    /// The source a lower-case name stands for, if any.
    pub fn from_lowercase(text: &str) -> (r: Option<Self>)
        ensures
            r == visual_source_named(text@),
    {
        if str_eq(text, "rules") || str_eq(text, "hardrulesonly") {
            Some(VisualStateSource::HardRulesOnly)
        } else if str_eq(text, "llm") || str_eq(text, "withllmevaluation") {
            Some(VisualStateSource::WithLlmEvaluation)
        } else if str_eq(text, "dm") || str_eq(text, "dmoverride") {
            Some(VisualStateSource::DmOverride)
        } else if str_eq(text, "default") {
            Some(VisualStateSource::Default)
        } else {
            None
        }
    }

    /// Parses a source name in any letter case; an unknown name is an error
    /// that quotes it.
    pub fn parse(s: &str) -> (r: Result<Self, String>)
        ensures
            match visual_source_named(lowercase(s@)) {
                Some(v) => r == Ok::<VisualStateSource, String>(v),
                None => r matches Err(m) && m@ == "Unknown visual state source: "@ + s@,
            },
    {
        let lower = to_lowercase(s);
        match Self::from_lowercase(lower.as_str()) {
            Some(v) => Ok(v),
            None => {
                let mut m = String::new();
                append_str(&mut m, "Unknown visual state source: ");
                append_str(&mut m, s);
                Err(m)
            },
        }
    }
}

impl std::str::FromStr for VisualStateSource {
    type Err = String;

    fn from_str(s: &str) -> (r: Result<Self, Self::Err>)
        ensures
            match visual_source_named(lowercase(s@)) {
                Some(v) => r == Ok::<VisualStateSource, String>(v),
                None => r matches Err(m) && m@ == "Unknown visual state source: "@ + s@,
            },
    {
        VisualStateSource::parse(s)
    }
}

/// An NPC of a staging, present or not.
#[derive(Debug, Clone)]
pub struct StagedNpc {
    pub character_id: CharacterId,
    /// The NPC's name, for display.
    pub name: String,
    pub sprite_asset: Option<String>,
    pub portrait_asset: Option<String>,
    /// Whether the NPC is present.
    pub is_present: bool,
    /// Present, but hidden from the players.
    pub is_hidden_from_players: bool,
    /// Why the NPC is present or absent.
    pub reasoning: String,
    /// The character's data was not found when the staging was approved.
    pub has_incomplete_data: bool,
}

/// Whether players can see the NPC: present and not hidden.
pub open spec fn visible_to_players(n: StagedNpc) -> bool {
    n.is_present && !n.is_hidden_from_players
}

impl StagedNpc {
    /// An NPC without sprite or portrait, not hidden, with complete data.
    pub fn new(character_id: CharacterId, name: &str, is_present: bool, reasoning: &str) -> (n: Self)
        ensures
            n.character_id == character_id,
            n.name@ == name@,
            n.sprite_asset is None,
            n.portrait_asset is None,
            n.is_present == is_present,
            !n.is_hidden_from_players,
            n.reasoning@ == reasoning@,
            !n.has_incomplete_data,
    {
        StagedNpc {
            character_id,
            name: name.to_string(),
            sprite_asset: None,
            portrait_asset: None,
            is_present,
            is_hidden_from_players: false,
            reasoning: reasoning.to_string(),
            has_incomplete_data: false,
        }
    }

    /// Whether the players can see this NPC: present and not hidden.
    pub fn is_visible_to_players(&self) -> (b: bool)
        ensures
            b == visible_to_players(*self),
    {
        self.is_present && !self.is_hidden_from_players
    }

    pub fn with_incomplete_data(self, incomplete: bool) -> (n: Self)
        ensures
            n == (StagedNpc { has_incomplete_data: incomplete, ..self }),
    {
        StagedNpc { has_incomplete_data: incomplete, ..self }
    }

    pub fn with_sprite(self, asset: &str) -> (n: Self)
        ensures
            n.sprite_asset matches Some(a) && a@ == asset@,
            n == (StagedNpc { sprite_asset: n.sprite_asset, ..self }),
    {
        StagedNpc { sprite_asset: Some(asset.to_string()), ..self }
    }

    pub fn with_portrait(self, asset: &str) -> (n: Self)
        ensures
            n.portrait_asset matches Some(a) && a@ == asset@,
            n == (StagedNpc { portrait_asset: n.portrait_asset, ..self }),
    {
        StagedNpc { portrait_asset: Some(asset.to_string()), ..self }
    }
}

/// The present NPCs, in order; with `visible_only`, only those not hidden
/// from the players.
pub open spec fn kept_npcs(npcs: Seq<StagedNpc>, visible_only: bool) -> Seq<StagedNpc>
    decreases npcs.len(),
{
    if npcs.len() == 0 {
        Seq::empty()
    } else {
        let rest = kept_npcs(npcs.drop_last(), visible_only);
        let n = npcs.last();
        if n.is_present && (!visible_only || !n.is_hidden_from_players) {
            rest.push(n)
        } else {
            rest
        }
    }
}

/// `a` is later than `b`.
pub open spec fn later_than(a: Timestamp, b: Timestamp) -> bool {
    a.unix_seconds > b.unix_seconds || (a.unix_seconds == b.unix_seconds && a.subsec_nanos
        > b.subsec_nanos)
}

/// The moment `hours` hours after `t`.
pub open spec fn hours_after(t: Timestamp, hours: i32) -> Timestamp {
    Timestamp { unix_seconds: (t.unix_seconds + hours * 3600) as i64, subsec_nanos: t.subsec_nanos }
}

/// A game-master-approved staging of a region.
#[derive(Debug, Clone)]
pub struct Staging {
    pub id: StagingId,
    pub region_id: RegionId,
    pub location_id: LocationId,
    pub world_id: WorldId,
    /// The NPCs of this staging, present or not.
    pub npcs: Vec<StagedNpc>,
    /// Game time of approval.
    pub game_time: Timestamp,
    /// Real time of approval.
    pub approved_at: Timestamp,
    /// How long the staging holds, in game hours.
    pub ttl_hours: i32,
    /// Client id of the approving game master.
    pub approved_by: String,
    pub source: StagingSource,
    /// Guidance for regenerating the staging.
    pub dm_guidance: Option<String>,
    /// Whether this is the region's current staging.
    pub is_active: bool,
    pub location_state_id: Option<LocationStateId>,
    pub region_state_id: Option<RegionStateId>,
    pub visual_state_source: VisualStateSource,
    pub visual_state_reasoning: Option<String>,
}

impl Staging {
    /// An active staging with a fresh id, no NPCs, guidance or visual state.
    pub fn new(
        region_id: RegionId,
        location_id: LocationId,
        world_id: WorldId,
        game_time: Timestamp,
        approved_by: &str,
        source: StagingSource,
        ttl_hours: i32,
        now: Timestamp,
    ) -> (s: Self)
        ensures
            s.region_id == region_id,
            s.location_id == location_id,
            s.world_id == world_id,
            s.npcs@.len() == 0,
            s.game_time == game_time,
            s.approved_at == now,
            s.ttl_hours == ttl_hours,
            s.approved_by@ == approved_by@,
            s.source == source,
            s.dm_guidance is None,
            s.is_active,
            s.location_state_id is None,
            s.region_state_id is None,
            s.visual_state_source == VisualStateSource::HardRulesOnly,
            s.visual_state_reasoning is None,
    {
        Staging {
            id: StagingId::new(),
            region_id,
            location_id,
            world_id,
            npcs: Vec::new(),
            game_time,
            approved_at: now,
            ttl_hours,
            approved_by: approved_by.to_string(),
            source,
            dm_guidance: None,
            is_active: true,
            location_state_id: None,
            region_state_id: None,
            visual_state_source: VisualStateSource::default(),
            visual_state_reasoning: None,
        }
    }

    pub fn with_npcs(self, npcs: Vec<StagedNpc>) -> (s: Self)
        ensures
            s == (Staging { npcs, ..self }),
    {
        Staging { npcs, ..self }
    }

    pub fn with_guidance(self, guidance: &str) -> (s: Self)
        ensures
            s.dm_guidance matches Some(g) && g@ == guidance@,
            s == (Staging { dm_guidance: s.dm_guidance, ..self }),
    {
        Staging { dm_guidance: Some(guidance.to_string()), ..self }
    }

    pub fn with_location_state(self, state_id: LocationStateId) -> (s: Self)
        ensures
            s == (Staging { location_state_id: Some(state_id), ..self }),
    {
        Staging { location_state_id: Some(state_id), ..self }
    }

    pub fn with_region_state(self, state_id: RegionStateId) -> (s: Self)
        ensures
            s == (Staging { region_state_id: Some(state_id), ..self }),
    {
        Staging { region_state_id: Some(state_id), ..self }
    }

    pub fn with_visual_state_source(self, source: VisualStateSource) -> (s: Self)
        ensures
            s == (Staging { visual_state_source: source, ..self }),
    {
        Staging { visual_state_source: source, ..self }
    }

    pub fn with_visual_state_reasoning(self, reasoning: &str) -> (s: Self)
        ensures
            s.visual_state_reasoning matches Some(r) && r@ == reasoning@,
            s == (Staging { visual_state_reasoning: s.visual_state_reasoning, ..self }),
    {
        Staging { visual_state_reasoning: Some(reasoning.to_string()), ..self }
    }

    /// Whether a location or region state is set.
    pub fn has_visual_state(&self) -> (b: bool)
        ensures
            b == (self.location_state_id is Some || self.region_state_id is Some),
    {
        self.location_state_id.is_some() || self.region_state_id.is_some()
    }

    /// Whether `current_game_time` is past the approval time plus the
    /// staging's hours.
    pub fn is_expired(&self, current_game_time: &Timestamp) -> (b: bool)
        requires
            i64::MIN <= self.game_time.unix_seconds + self.ttl_hours * 3600 <= i64::MAX,
        ensures
            b == later_than(*current_game_time, hours_after(self.game_time, self.ttl_hours)),
    {
        let end: i64 = self.game_time.unix_seconds + (self.ttl_hours as i64) * 3600;
        current_game_time.unix_seconds > end || (current_game_time.unix_seconds == end
            && current_game_time.subsec_nanos > self.game_time.subsec_nanos)
    }

    /// The present NPCs, in order.
    pub fn present_npcs(&self) -> (r: Vec<&StagedNpc>)
        ensures
            r@.map_values(|n: &StagedNpc| *n) == kept_npcs(self.npcs@, false),
    {
        self.keep_npcs(false)
    }

    /// The present NPCs that players can see, in order.
    pub fn present_visible_npcs(&self) -> (r: Vec<&StagedNpc>)
        ensures
            r@.map_values(|n: &StagedNpc| *n) == kept_npcs(self.npcs@, true),
    {
        self.keep_npcs(true)
    }

    fn keep_npcs(&self, visible_only: bool) -> (r: Vec<&StagedNpc>)
        ensures
            r@.map_values(|n: &StagedNpc| *n) == kept_npcs(self.npcs@, visible_only),
    {
        let mut r: Vec<&StagedNpc> = Vec::new();
        let mut i: usize = 0;
        while i < self.npcs.len()
            invariant
                i <= self.npcs@.len(),
                r@.map_values(|n: &StagedNpc| *n) == kept_npcs(self.npcs@.take(i as int), visible_only),
            decreases self.npcs@.len() - i,
        {
            let n = &self.npcs[i];
            let ghost before = r@;
            assert(self.npcs@.take(i + 1).drop_last() =~= self.npcs@.take(i as int));
            if n.is_present && (!visible_only || !n.is_hidden_from_players) {
                r.push(n);
                assert(r@.map_values(|n: &StagedNpc| *n) =~= before.map_values(|n: &StagedNpc| *n).push(*n));
            }
            i = i + 1;
        }
        assert(self.npcs@.take(i as int) =~= self.npcs@);
        r
    }
}

/// Display information about a resolved visual state.
#[derive(Debug, Clone)]
pub struct ResolvedStateInfo {
    pub id: String,
    pub name: String,
    pub backdrop_override: Option<String>,
    pub atmosphere_override: Option<String>,
    pub ambient_sound: Option<String>,
}

impl ResolvedStateInfo {
    /// Information without any override.
    pub fn new(id: &str, name: &str) -> (s: Self)
        ensures
            s.id@ == id@,
            s.name@ == name@,
            s.backdrop_override is None,
            s.atmosphere_override is None,
            s.ambient_sound is None,
    {
        ResolvedStateInfo {
            id: id.to_string(),
            name: name.to_string(),
            backdrop_override: None,
            atmosphere_override: None,
            ambient_sound: None,
        }
    }

    pub fn with_backdrop(self, path: &str) -> (s: Self)
        ensures
            s.backdrop_override matches Some(p) && p@ == path@,
            s == (ResolvedStateInfo { backdrop_override: s.backdrop_override, ..self }),
    {
        ResolvedStateInfo { backdrop_override: Some(path.to_string()), ..self }
    }

    pub fn with_atmosphere(self, atmosphere: &str) -> (s: Self)
        ensures
            s.atmosphere_override matches Some(a) && a@ == atmosphere@,
            s == (ResolvedStateInfo { atmosphere_override: s.atmosphere_override, ..self }),
    {
        ResolvedStateInfo { atmosphere_override: Some(atmosphere.to_string()), ..self }
    }

    pub fn with_ambient_sound(self, path: &str) -> (s: Self)
        ensures
            s.ambient_sound matches Some(p) && p@ == path@,
            s == (ResolvedStateInfo { ambient_sound: s.ambient_sound, ..self }),
    {
        ResolvedStateInfo { ambient_sound: Some(path.to_string()), ..self }
    }
}

/// The resolved location and region states of a staging, for display.
#[derive(Debug, Clone)]
pub struct ResolvedVisualState {
    pub location_state: Option<ResolvedStateInfo>,
    pub region_state: Option<ResolvedStateInfo>,
}

impl ResolvedVisualState {
    /// Neither state resolved.
    pub fn new() -> (s: Self)
        ensures
            s.location_state is None,
            s.region_state is None,
    {
        ResolvedVisualState { location_state: None, region_state: None }
    }

    pub fn with_location_state(self, info: ResolvedStateInfo) -> (s: Self)
        ensures
            s == (ResolvedVisualState { location_state: Some(info), ..self }),
    {
        ResolvedVisualState { location_state: Some(info), ..self }
    }

    pub fn with_region_state(self, info: ResolvedStateInfo) -> (s: Self)
        ensures
            s == (ResolvedVisualState { region_state: Some(info), ..self }),
    {
        ResolvedVisualState { region_state: Some(info), ..self }
    }

    /// Whether either state is resolved.
    pub fn has_any(&self) -> (b: bool)
        ensures
            b == (self.location_state is Some || self.region_state is Some),
    {
        self.location_state.is_some() || self.region_state.is_some()
    }
}

impl Default for ResolvedVisualState {
    fn default() -> (s: Self)
        ensures
            s.location_state is None,
            s.region_state is None,
    {
        ResolvedVisualState::new()
    }
}

/// The players see exactly the present NPCs that are not hidden: the visible
/// ones are among the present ones, and each present one is visible unless
/// hidden.
pub proof fn law_visible_npcs_are_present_unhidden(npcs: Seq<StagedNpc>, n: StagedNpc)
    ensures
        kept_npcs(npcs, true).contains(n) <==> (kept_npcs(npcs, false).contains(n)
            && !n.is_hidden_from_players),
        kept_npcs(npcs, false).contains(n) <==> (npcs.contains(n) && n.is_present),
    decreases npcs.len(),
{
    if npcs.len() > 0 {
        law_visible_npcs_are_present_unhidden(npcs.drop_last(), n);
        let last = npcs.last();
        let a = kept_npcs(npcs.drop_last(), true);
        let b = kept_npcs(npcs.drop_last(), false);
        assert(npcs =~= npcs.drop_last().push(last));
        lemma_push_contains(a, last, n);
        lemma_push_contains(b, last, n);
        lemma_push_contains(npcs.drop_last(), last, n);
    }
}

proof fn lemma_push_contains(s: Seq<StagedNpc>, x: StagedNpc, n: StagedNpc)
    ensures
        s.push(x).contains(n) <==> (s.contains(n) || x == n),
{
    if s.push(x).contains(n) {
        let k = choose|k: int| 0 <= k < s.len() + 1 && s.push(x)[k] == n;
        if k < s.len() {
            assert(s[k] == n);
        }
    }
    if s.contains(n) {
        let k = choose|k: int| 0 <= k < s.len() && s[k] == n;
        assert(s.push(x)[k] == n);
    }
    if x == n {
        assert(s.push(x)[s.len() as int] == n);
    }
}

/// Every source's storage name parses back to it.
pub proof fn law_staging_source_name_round_trip(s: StagingSource)
    ensures
        staging_source_named(staging_source_name(s)@) == s,
{
    reveal_strlit("auto");
    reveal_strlit("autoapproved");
    reveal_strlit("custom");
    reveal_strlit("dmcustomized");
    reveal_strlit("llm");
    reveal_strlit("llmbased");
    reveal_strlit("prestaged");
    reveal_strlit("rule");
    reveal_strlit("rulebased");
    reveal_strlit("unknown");
    match s {
        StagingSource::RuleBased => {
        },
        StagingSource::LlmBased => {
            assert("llm"@.len() != "rule"@.len());
            assert("llm"@.len() != "rulebased"@.len());
        },
        StagingSource::DmCustomized => {
            assert("custom"@.len() != "rule"@.len());
            assert("custom"@.len() != "rulebased"@.len());
            assert("custom"@.len() != "llm"@.len());
            assert("custom"@.len() != "llmbased"@.len());
        },
        StagingSource::PreStaged => {
            assert("prestaged"@.len() != "rule"@.len());
            assert("prestaged"@[0] != "rulebased"@[0]);
            assert("prestaged"@.len() != "llm"@.len());
            assert("prestaged"@.len() != "llmbased"@.len());
            assert("prestaged"@.len() != "custom"@.len());
            assert("prestaged"@.len() != "dmcustomized"@.len());
        },
        StagingSource::AutoApproved => {
            assert("auto"@[0] != "rule"@[0]);
            assert("auto"@.len() != "rulebased"@.len());
            assert("auto"@.len() != "llm"@.len());
            assert("auto"@.len() != "llmbased"@.len());
            assert("auto"@.len() != "custom"@.len());
            assert("auto"@.len() != "dmcustomized"@.len());
            assert("auto"@.len() != "prestaged"@.len());
        },
        StagingSource::Unknown => {
            assert("unknown"@.len() != "rule"@.len());
            assert("unknown"@.len() != "rulebased"@.len());
            assert("unknown"@.len() != "llm"@.len());
            assert("unknown"@.len() != "llmbased"@.len());
            assert("unknown"@.len() != "custom"@.len());
            assert("unknown"@.len() != "dmcustomized"@.len());
            assert("unknown"@.len() != "prestaged"@.len());
            assert("unknown"@.len() != "auto"@.len());
            assert("unknown"@.len() != "autoapproved"@.len());
        },
    }
}

/// Every visual state source's storage name parses back to it.
pub proof fn law_visual_source_name_round_trip(s: VisualStateSource)
    ensures
        visual_source_named(visual_source_name(s)@) == Some(s),
{
    reveal_strlit("default");
    reveal_strlit("dm");
    reveal_strlit("dmoverride");
    reveal_strlit("hardrulesonly");
    reveal_strlit("llm");
    reveal_strlit("rules");
    reveal_strlit("withllmevaluation");
    match s {
        VisualStateSource::HardRulesOnly => {
        },
        VisualStateSource::WithLlmEvaluation => {
            assert("llm"@.len() != "rules"@.len());
            assert("llm"@.len() != "hardrulesonly"@.len());
        },
        VisualStateSource::DmOverride => {
            assert("dm"@.len() != "rules"@.len());
            assert("dm"@.len() != "hardrulesonly"@.len());
            assert("dm"@.len() != "llm"@.len());
            assert("dm"@.len() != "withllmevaluation"@.len());
        },
        VisualStateSource::Default => {
            assert("default"@.len() != "rules"@.len());
            assert("default"@.len() != "hardrulesonly"@.len());
            assert("default"@.len() != "llm"@.len());
            assert("default"@.len() != "withllmevaluation"@.len());
            assert("default"@.len() != "dm"@.len());
            assert("default"@.len() != "dmoverride"@.len());
        },
    }
}

/// Once a staging has expired, it stays expired at every later game time.
pub proof fn law_expired_stays_expired(s: Staging, t1: Timestamp, t2: Timestamp)
    requires
        later_than(t1, hours_after(s.game_time, s.ttl_hours)),
        t2 == t1 || later_than(t2, t1),
    ensures
        later_than(t2, hours_after(s.game_time, s.ttl_hours)),
{
}

} // verus!
