//! Region states: visual configurations of a region that apply by rule.

use crate::activation::{any_soft_rule, has_soft, rules_of_kind, select_rules, ActivationLogic, ActivationRule};
use crate::ids::{LocationId, RegionId, RegionStateId, WorldId};
use crate::value_objects::Timestamp;
use vstd::prelude::*;

verus! {

/// A visual configuration of a region (such as "Morning" or "Closed").
#[derive(Debug, Clone, PartialEq)]
pub struct RegionState {
    pub id: RegionStateId,
    pub region_id: RegionId,
    pub location_id: LocationId,
    pub world_id: WorldId,
    pub name: String,
    /// Description for the game master.
    pub description: String,
    pub backdrop_override: Option<String>,
    pub atmosphere_override: Option<String>,
    pub ambient_sound: Option<String>,
    /// When this state applies.
    pub activation_rules: Vec<ActivationRule>,
    pub activation_logic: ActivationLogic,
    /// Preference when several states apply (higher first).
    pub priority: i32,
    /// Used when no other state applies.
    pub is_default: bool,
    pub created_at: Timestamp,
    pub updated_at: Timestamp,
}

impl RegionState {
    /// A state with a fresh id, no description, overrides or rules (all of
    /// which must hold), priority 0, not the default.
    pub fn new(region_id: RegionId, location_id: LocationId, world_id: WorldId, name: &str, now: Timestamp) -> (s: Self)
        ensures
            s.region_id == region_id,
            s.location_id == location_id,
            s.world_id == world_id,
            s.name@ == name@,
            s.description@ == Seq::<char>::empty(),
            s.backdrop_override is None,
            s.atmosphere_override is None,
            s.ambient_sound is None,
            s.activation_rules@.len() == 0,
            s.activation_logic == ActivationLogic::All,
            s.priority == 0,
            !s.is_default,
            s.created_at == now,
            s.updated_at == now,
    {
        RegionState {
            id: RegionStateId::new(),
            region_id,
            location_id,
            world_id,
            name: name.to_string(),
            description: String::new(),
            backdrop_override: None,
            atmosphere_override: None,
            ambient_sound: None,
            activation_rules: Vec::new(),
            activation_logic: ActivationLogic::All,
            priority: 0,
            is_default: false,
            created_at: now,
            updated_at: now,
        }
    }

    /// The fallback state: always active, and the default.
    pub fn default_state(region_id: RegionId, location_id: LocationId, world_id: WorldId, name: &str, now: Timestamp) -> (s: Self)
        ensures
            s.region_id == region_id,
            s.location_id == location_id,
            s.world_id == world_id,
            s.name@ == name@,
            s.activation_rules@ == seq![ActivationRule::Always],
            s.activation_logic == ActivationLogic::All,
            s.priority == 0,
            s.is_default,
            s.created_at == now,
            s.updated_at == now,
    {
        let s = Self::new(region_id, location_id, world_id, name, now);
        let rules = vec![ActivationRule::Always];
        RegionState { is_default: true, activation_rules: rules, ..s }
    }

    pub fn with_description(self, description: &str) -> (s: Self)
        ensures
            s.description@ == description@,
            s == (RegionState { description: s.description, ..self }),
    {
        RegionState { description: description.to_string(), ..self }
    }

    pub fn with_backdrop(self, asset_path: &str) -> (s: Self)
        ensures
            s.backdrop_override matches Some(p) && p@ == asset_path@,
            s == (RegionState { backdrop_override: s.backdrop_override, ..self }),
    {
        RegionState { backdrop_override: Some(asset_path.to_string()), ..self }
    }

    pub fn with_atmosphere(self, atmosphere: &str) -> (s: Self)
        ensures
            s.atmosphere_override matches Some(a) && a@ == atmosphere@,
            s == (RegionState { atmosphere_override: s.atmosphere_override, ..self }),
    {
        RegionState { atmosphere_override: Some(atmosphere.to_string()), ..self }
    }

    pub fn with_ambient_sound(self, sound_path: &str) -> (s: Self)
        ensures
            s.ambient_sound matches Some(p) && p@ == sound_path@,
            s == (RegionState { ambient_sound: s.ambient_sound, ..self }),
    {
        RegionState { ambient_sound: Some(sound_path.to_string()), ..self }
    }

    pub fn with_rules(self, rules: Vec<ActivationRule>, logic: ActivationLogic) -> (s: Self)
        ensures
            s == (RegionState { activation_rules: rules, activation_logic: logic, ..self }),
    {
        RegionState { activation_rules: rules, activation_logic: logic, ..self }
    }

    /// This state with one more rule at the end.
    pub fn with_rule(self, rule: ActivationRule) -> (s: Self)
        ensures
            s.activation_rules@ == self.activation_rules@.push(rule),
            s == (RegionState { activation_rules: s.activation_rules, ..self }),
    {
        let mut s = self;
        s.activation_rules.push(rule);
        s
    }

    pub fn with_priority(self, priority: i32) -> (s: Self)
        ensures
            s == (RegionState { priority, ..self }),
    {
        RegionState { priority, ..self }
    }

    /// Whether some rule needs a language model.
    pub fn has_soft_rules(&self) -> (b: bool)
        ensures
            b == has_soft(self.activation_rules@),
    {
        any_soft_rule(&self.activation_rules)
    }

    /// The rules that need no language model, in order.
    pub fn hard_rules(&self) -> (r: Vec<&ActivationRule>)
        ensures
            r@.map_values(|x: &ActivationRule| *x) == rules_of_kind(self.activation_rules@, false),
    {
        select_rules(&self.activation_rules, false)
    }

    /// The rules that need a language model, in order.
    pub fn soft_rules(&self) -> (r: Vec<&ActivationRule>)
        ensures
            r@.map_values(|x: &ActivationRule| *x) == rules_of_kind(self.activation_rules@, true),
    {
        select_rules(&self.activation_rules, true)
    }

    /// The state as shown in lists.
    pub fn summary(&self) -> (r: RegionStateSummary)
        ensures
            r.id == self.id,
            r.name@ == self.name@,
            r.backdrop_override == self.backdrop_override,
            r.atmosphere_override == self.atmosphere_override,
            r.ambient_sound == self.ambient_sound,
            r.priority == self.priority,
            r.is_default == self.is_default,
    {
        RegionStateSummary {
            id: self.id,
            name: self.name.clone(),
            backdrop_override: clone_text(&self.backdrop_override),
            atmosphere_override: clone_text(&self.atmosphere_override),
            ambient_sound: clone_text(&self.ambient_sound),
            priority: self.priority,
            is_default: self.is_default,
        }
    }
}

/// A copy of optional text.
pub fn clone_text(t: &Option<String>) -> (r: Option<String>)
    ensures
        r == *t,
{
    match t {
        Some(s) => {
            let c = s.clone();
            assert(c@ == s@);
            Some(c)
        },
        None => None,
    }
}

/// A region state as shown in lists.
#[derive(Debug, Clone, PartialEq)]
pub struct RegionStateSummary {
    pub id: RegionStateId,
    pub name: String,
    pub backdrop_override: Option<String>,
    pub atmosphere_override: Option<String>,
    pub ambient_sound: Option<String>,
    pub priority: i32,
    pub is_default: bool,
}

} // verus!
