//! Location states: city-wide visual configurations that apply by rule.

use crate::activation::{any_soft_rule, has_soft, rules_of_kind, select_rules, ActivationLogic, ActivationRule};
use crate::character::opt_asset;
use crate::ids::{LocationId, LocationStateId, WorldId};
use crate::location::opt_atmosphere;
use crate::text::{opt_as_str, opt_str_text, opt_text};
use crate::value_objects::{
    checked_name, description_or_empty, AssetPath, Atmosphere, Description, StateName, Timestamp,
};
use vstd::prelude::*;

verus! {

/// The name a state gets from text: the text where it is a valid name,
/// otherwise empty.
pub open spec fn state_name_or_empty(s: Seq<char>) -> Seq<char> {
    match checked_name(s, seq![], seq![]) {
        Ok(n) => n,
        Err(_) => Seq::empty(),
    }
}

fn state_name_or_default(name: &str) -> (n: StateName)
    ensures
        n@ == state_name_or_empty(name@),
{
    match StateName::new(name) {
        Ok(n) => n,
        Err(_) => StateName::default(),
    }
}

/// Abstract state of a location state.
pub ghost struct LocationStateView {
    pub id: LocationStateId,
    pub location_id: LocationId,
    pub world_id: WorldId,
    pub name: Seq<char>,
    pub description: Seq<char>,
    pub backdrop_override: Option<Seq<char>>,
    pub atmosphere_override: Option<Seq<char>>,
    pub ambient_sound: Option<Seq<char>>,
    pub map_overlay: Option<Seq<char>>,
    pub activation_rules: Seq<ActivationRule>,
    pub activation_logic: ActivationLogic,
    pub priority: i32,
    pub is_default: bool,
    pub generation_prompt: Option<Seq<char>>,
    pub workflow_id: Option<Seq<char>>,
    pub created_at: Timestamp,
    pub updated_at: Timestamp,
}

/// A visual configuration of a whole location (such as "Festival Day").
#[derive(Debug, Clone)]
pub struct LocationState {
    id: LocationStateId,
    location_id: LocationId,
    world_id: WorldId,
    name: StateName,
    description: Description,
    backdrop_override: Option<AssetPath>,
    atmosphere_override: Option<Atmosphere>,
    ambient_sound: Option<AssetPath>,
    map_overlay: Option<AssetPath>,
    activation_rules: Vec<ActivationRule>,
    activation_logic: ActivationLogic,
    priority: i32,
    is_default: bool,
    generation_prompt: Option<String>,
    workflow_id: Option<String>,
    created_at: Timestamp,
    updated_at: Timestamp,
}

impl View for LocationState {
    type V = LocationStateView;

    closed spec fn view(&self) -> LocationStateView {
        LocationStateView {
            id: self.id,
            location_id: self.location_id,
            world_id: self.world_id,
            name: self.name@,
            description: self.description@,
            backdrop_override: opt_asset(self.backdrop_override),
            atmosphere_override: opt_atmosphere(self.atmosphere_override),
            ambient_sound: opt_asset(self.ambient_sound),
            map_overlay: opt_asset(self.map_overlay),
            activation_rules: self.activation_rules@,
            activation_logic: self.activation_logic,
            priority: self.priority,
            is_default: self.is_default,
            generation_prompt: opt_text(self.generation_prompt),
            workflow_id: opt_text(self.workflow_id),
            created_at: self.created_at,
            updated_at: self.updated_at,
        }
    }
}

/// A fresh state of the location with the given id: no overrides or rules
/// (all of which must hold), priority 0, not the default; a name that is not
/// valid becomes empty.
pub open spec fn plain_state(
    id: LocationStateId,
    location_id: LocationId,
    world_id: WorldId,
    name: Seq<char>,
    now: Timestamp,
) -> LocationStateView {
    LocationStateView {
        id,
        location_id,
        world_id,
        name: state_name_or_empty(name),
        description: Seq::empty(),
        backdrop_override: None,
        atmosphere_override: None,
        ambient_sound: None,
        map_overlay: None,
        activation_rules: Seq::empty(),
        activation_logic: ActivationLogic::All,
        priority: 0,
        is_default: false,
        generation_prompt: None,
        workflow_id: None,
        created_at: now,
        updated_at: now,
    }
}

impl LocationState {
    /// A state with a fresh id (see `plain_state`).
    pub fn new(location_id: LocationId, world_id: WorldId, name: &str, now: Timestamp) -> (s: Self)
        ensures
            s@ == plain_state(s@.id, location_id, world_id, name@, now),
    {
        Self::new_with_id(LocationStateId::new(), location_id, world_id, name, now)
    }

    /// The fallback state: always active, and the default.
    pub fn default_state(location_id: LocationId, world_id: WorldId, name: &str, now: Timestamp) -> (s: Self)
        ensures
            s@ == (LocationStateView {
                is_default: true,
                activation_rules: seq![ActivationRule::Always],
                ..plain_state(s@.id, location_id, world_id, name@, now)
            }),
    {
        let s = Self::new(location_id, world_id, name, now);
        let rules = vec![ActivationRule::Always];
        assert(rules@ =~= seq![ActivationRule::Always]);
        LocationState { is_default: true, activation_rules: rules, ..s }
    }

    /// A state from stored parts.
    pub fn from_parts(
        id: LocationStateId,
        location_id: LocationId,
        world_id: WorldId,
        name: StateName,
        description: Description,
        backdrop_override: Option<AssetPath>,
        atmosphere_override: Option<Atmosphere>,
        ambient_sound: Option<AssetPath>,
        map_overlay: Option<AssetPath>,
        activation_rules: Vec<ActivationRule>,
        activation_logic: ActivationLogic,
        priority: i32,
        is_default: bool,
        generation_prompt: Option<String>,
        workflow_id: Option<String>,
        created_at: Timestamp,
        updated_at: Timestamp,
    ) -> (s: Self)
        ensures
            s@ == (LocationStateView {
                id,
                location_id,
                world_id,
                name: name@,
                description: description@,
                backdrop_override: opt_asset(backdrop_override),
                atmosphere_override: opt_atmosphere(atmosphere_override),
                ambient_sound: opt_asset(ambient_sound),
                map_overlay: opt_asset(map_overlay),
                activation_rules: activation_rules@,
                activation_logic,
                priority,
                is_default,
                generation_prompt: opt_text(generation_prompt),
                workflow_id: opt_text(workflow_id),
                created_at,
                updated_at,
            }),
    {
        LocationState {
            id,
            location_id,
            world_id,
            name,
            description,
            backdrop_override,
            atmosphere_override,
            ambient_sound,
            map_overlay,
            activation_rules,
            activation_logic,
            priority,
            is_default,
            generation_prompt,
            workflow_id,
            created_at,
            updated_at,
        }
    }

    /// A state with the given id (see `plain_state`).
    pub fn new_with_id(id: LocationStateId, location_id: LocationId, world_id: WorldId, name: &str, now: Timestamp) -> (s: Self)
        ensures
            s@ == plain_state(id, location_id, world_id, name@, now),
    {
        let s = LocationState {
            id,
            location_id,
            world_id,
            name: state_name_or_default(name),
            description: Description::default(),
            backdrop_override: None,
            atmosphere_override: None,
            ambient_sound: None,
            map_overlay: None,
            activation_rules: Vec::new(),
            activation_logic: ActivationLogic::All,
            priority: 0,
            is_default: false,
            generation_prompt: None,
            workflow_id: None,
            created_at: now,
            updated_at: now,
        };
        assert(s.activation_rules@ =~= Seq::<ActivationRule>::empty());
        s
    }

    pub fn id(&self) -> (r: LocationStateId)
        ensures
            r == self@.id,
    {
        self.id
    }

    pub fn location_id(&self) -> (r: LocationId)
        ensures
            r == self@.location_id,
    {
        self.location_id
    }

    pub fn world_id(&self) -> (r: WorldId)
        ensures
            r == self@.world_id,
    {
        self.world_id
    }

    pub fn name(&self) -> (r: &str)
        ensures
            r@ == self@.name,
    {
        self.name.as_str()
    }

    pub fn description(&self) -> (r: &str)
        ensures
            r@ == self@.description,
    {
        self.description.as_str()
    }

    pub fn backdrop_override(&self) -> (r: Option<&AssetPath>)
        ensures
            match r {
                Some(p) => self@.backdrop_override == Some(p@),
                None => self@.backdrop_override is None,
            },
    {
        match &self.backdrop_override {
            Some(p) => Some(p),
            None => None,
        }
    }

    pub fn atmosphere_override(&self) -> (r: Option<&Atmosphere>)
        ensures
            match r {
                Some(a) => self@.atmosphere_override == Some(a@),
                None => self@.atmosphere_override is None,
            },
    {
        match &self.atmosphere_override {
            Some(a) => Some(a),
            None => None,
        }
    }

    pub fn ambient_sound(&self) -> (r: Option<&AssetPath>)
        ensures
            match r {
                Some(p) => self@.ambient_sound == Some(p@),
                None => self@.ambient_sound is None,
            },
    {
        match &self.ambient_sound {
            Some(p) => Some(p),
            None => None,
        }
    }

    pub fn map_overlay(&self) -> (r: Option<&AssetPath>)
        ensures
            match r {
                Some(p) => self@.map_overlay == Some(p@),
                None => self@.map_overlay is None,
            },
    {
        match &self.map_overlay {
            Some(p) => Some(p),
            None => None,
        }
    }

    pub fn activation_rules(&self) -> (r: &[ActivationRule])
        ensures
            r@ == self@.activation_rules,
    {
        self.activation_rules.as_slice()
    }

    pub fn activation_logic(&self) -> (r: ActivationLogic)
        ensures
            r == self@.activation_logic,
    {
        self.activation_logic
    }

    pub fn priority(&self) -> (r: i32)
        ensures
            r == self@.priority,
    {
        self.priority
    }

    pub fn is_default(&self) -> (r: bool)
        ensures
            r == self@.is_default,
    {
        self.is_default
    }

    pub fn created_at(&self) -> (r: Timestamp)
        ensures
            r == self@.created_at,
    {
        self.created_at
    }

    pub fn updated_at(&self) -> (r: Timestamp)
        ensures
            r == self@.updated_at,
    {
        self.updated_at
    }

    pub fn generation_prompt(&self) -> (r: Option<&str>)
        ensures
            opt_str_text(r) == self@.generation_prompt,
    {
        opt_as_str(&self.generation_prompt)
    }

    pub fn workflow_id(&self) -> (r: Option<&str>)
        ensures
            opt_str_text(r) == self@.workflow_id,
    {
        opt_as_str(&self.workflow_id)
    }

    /// This state with the given description; one over the length limit
    /// leaves it empty.
    pub fn with_description(self, description: &str) -> (s: Self)
        ensures
            s@ == (LocationStateView { description: description_or_empty(description@), ..self@ }),
    {
        LocationState { description: Description::new_or_empty(description), ..self }
    }

    pub fn with_backdrop(self, asset_path: AssetPath) -> (s: Self)
        ensures
            s@ == (LocationStateView { backdrop_override: Some(asset_path@), ..self@ }),
    {
        LocationState { backdrop_override: Some(asset_path), ..self }
    }

    pub fn with_atmosphere(self, atmosphere: Atmosphere) -> (s: Self)
        ensures
            s@ == (LocationStateView { atmosphere_override: Some(atmosphere@), ..self@ }),
    {
        LocationState { atmosphere_override: Some(atmosphere), ..self }
    }

    pub fn with_ambient_sound(self, sound_path: AssetPath) -> (s: Self)
        ensures
            s@ == (LocationStateView { ambient_sound: Some(sound_path@), ..self@ }),
    {
        LocationState { ambient_sound: Some(sound_path), ..self }
    }

    pub fn with_map_overlay(self, overlay_path: AssetPath) -> (s: Self)
        ensures
            s@ == (LocationStateView { map_overlay: Some(overlay_path@), ..self@ }),
    {
        LocationState { map_overlay: Some(overlay_path), ..self }
    }

    pub fn with_rules(self, rules: Vec<ActivationRule>, logic: ActivationLogic) -> (s: Self)
        ensures
            s@ == (LocationStateView { activation_rules: rules@, activation_logic: logic, ..self@ }),
    {
        LocationState { activation_rules: rules, activation_logic: logic, ..self }
    }

    /// This state with one more rule at the end.
    pub fn with_rule(self, rule: ActivationRule) -> (s: Self)
        ensures
            s@ == (LocationStateView { activation_rules: self@.activation_rules.push(rule), ..self@ }),
    {
        let mut s = self;
        s.activation_rules.push(rule);
        s
    }

    pub fn with_priority(self, priority: i32) -> (s: Self)
        ensures
            s@ == (LocationStateView { priority, ..self@ }),
    {
        LocationState { priority, ..self }
    }

    pub fn with_is_default(self, is_default: bool) -> (s: Self)
        ensures
            s@ == (LocationStateView { is_default, ..self@ }),
    {
        LocationState { is_default, ..self }
    }

    pub fn with_generation_prompt(self, prompt: String) -> (s: Self)
        ensures
            s@ == (LocationStateView { generation_prompt: Some(prompt@), ..self@ }),
    {
        LocationState { generation_prompt: Some(prompt), ..self }
    }

    pub fn with_workflow_id(self, workflow_id: String) -> (s: Self)
        ensures
            s@ == (LocationStateView { workflow_id: Some(workflow_id@), ..self@ }),
    {
        LocationState { workflow_id: Some(workflow_id), ..self }
    }

    /// Whether some rule needs a language model.
    pub fn has_soft_rules(&self) -> (b: bool)
        ensures
            b == has_soft(self@.activation_rules),
    {
        any_soft_rule(&self.activation_rules)
    }

    /// The rules that need no language model, in order.
    pub fn hard_rules(&self) -> (r: Vec<&ActivationRule>)
        ensures
            r@.map_values(|x: &ActivationRule| *x) == rules_of_kind(self@.activation_rules, false),
    {
        select_rules(&self.activation_rules, false)
    }

    /// The rules that need a language model, in order.
    pub fn soft_rules(&self) -> (r: Vec<&ActivationRule>)
        ensures
            r@.map_values(|x: &ActivationRule| *x) == rules_of_kind(self@.activation_rules, true),
    {
        select_rules(&self.activation_rules, true)
    }

    /// The state as shown in lists.
    pub fn summary(&self) -> (r: LocationStateSummary)
        ensures
            r.id == self@.id,
            r.name@ == self@.name,
            opt_text(r.backdrop_override) == self@.backdrop_override,
            opt_text(r.atmosphere_override) == self@.atmosphere_override,
            opt_text(r.ambient_sound) == self@.ambient_sound,
            r.priority == self@.priority,
            r.is_default == self@.is_default,
            opt_text(r.generation_prompt) == self@.generation_prompt,
            opt_text(r.workflow_id) == self@.workflow_id,
    {
        LocationStateSummary {
            id: self.id,
            name: self.name.as_str().to_string(),
            backdrop_override: asset_text(&self.backdrop_override),
            atmosphere_override: match &self.atmosphere_override {
                Some(a) => Some(a.as_str().to_string()),
                None => None,
            },
            ambient_sound: asset_text(&self.ambient_sound),
            priority: self.priority,
            is_default: self.is_default,
            generation_prompt: match &self.generation_prompt {
                Some(p) => Some(p.clone()),
                None => None,
            },
            workflow_id: match &self.workflow_id {
                Some(w) => Some(w.clone()),
                None => None,
            },
        }
    }
}

fn asset_text(p: &Option<AssetPath>) -> (r: Option<String>)
    ensures
        opt_text(r) == opt_asset(*p),
{
    match p {
        Some(a) => Some(a.as_str().to_string()),
        None => None,
    }
}

/// A location state as shown in lists.
#[derive(Debug, Clone, PartialEq)]
pub struct LocationStateSummary {
    pub id: LocationStateId,
    pub name: String,
    pub backdrop_override: Option<String>,
    pub atmosphere_override: Option<String>,
    pub ambient_sound: Option<String>,
    pub priority: i32,
    pub is_default: bool,
    pub generation_prompt: Option<String>,
    pub workflow_id: Option<String>,
}

} // verus!
