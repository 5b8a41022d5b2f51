//! Scenes: complete storytelling units of an act, with a time setting,
//! entry conditions, directions and an order.

use crate::ids::{ActId, CharacterId, ItemId, SceneId};
use crate::narrative::copy_opt_string;
use crate::text::{opt_as_str, opt_str_text, opt_text, str_eq};
use crate::value_objects::SceneName;
use vstd::prelude::*;

verus! {

/// A time of day.
#[derive(Debug, Clone, Copy, PartialEq, Eq, Structural, Hash)]
pub enum TimeOfDay {
    Morning,
    Afternoon,
    Evening,
    Night,
}

/// When a scene takes place.
#[derive(Debug, PartialEq, Eq)]
pub enum TimeContext {
    Unspecified,
    TimeOfDay(TimeOfDay),
    /// During an event (such as "the festival").
    During(String),
    Custom(String),
}

impl Clone for TimeContext {
    fn clone(&self) -> (r: Self)
        ensures
            r == *self,
    {
        match self {
            TimeContext::Unspecified => TimeContext::Unspecified,
            TimeContext::TimeOfDay(t) => TimeContext::TimeOfDay(*t),
            TimeContext::During(s) => TimeContext::During(s.clone()),
            TimeContext::Custom(s) => TimeContext::Custom(s.clone()),
        }
    }
}

/// A condition for entering a scene.
#[derive(Debug, PartialEq, Eq)]
pub enum SceneCondition {
    CompletedScene(SceneId),
    HasItem(ItemId),
    KnowsCharacter(CharacterId),
    FlagSet(String),
    Custom(String),
}

impl Clone for SceneCondition {
    fn clone(&self) -> (r: Self)
        ensures
            r == *self,
    {
        match self {
            SceneCondition::CompletedScene(id) => SceneCondition::CompletedScene(*id),
            SceneCondition::HasItem(id) => SceneCondition::HasItem(*id),
            SceneCondition::KnowsCharacter(id) => SceneCondition::KnowsCharacter(*id),
            SceneCondition::FlagSet(s) => SceneCondition::FlagSet(s.clone()),
            SceneCondition::Custom(s) => SceneCondition::Custom(s.clone()),
        }
    }
}

/// The role of a character featured in a scene.
#[derive(Debug, Clone, Copy, PartialEq, Eq, Structural)]
pub enum SceneCharacterRole {
    Primary,
    Secondary,
    Background,
}

/// The role named exactly `s`, if any.
pub open spec fn role_named(s: Seq<char>) -> Option<SceneCharacterRole> {
    if s == "Primary"@ {
        Some(SceneCharacterRole::Primary)
    } else if s == "Secondary"@ {
        Some(SceneCharacterRole::Secondary)
    } else if s == "Background"@ {
        Some(SceneCharacterRole::Background)
    } else {
        None
    }
}

/// The name of a role.
pub open spec fn role_name(r: SceneCharacterRole) -> Seq<char> {
    match r {
        SceneCharacterRole::Primary => "Primary"@,
        SceneCharacterRole::Secondary => "Secondary"@,
        SceneCharacterRole::Background => "Background"@,
    }
}

impl SceneCharacterRole {
    /// The role's name.
    pub fn as_str(&self) -> (r: &'static str)
        ensures
            r@ == role_name(*self),
    {
        match self {
            SceneCharacterRole::Primary => "Primary",
            SceneCharacterRole::Secondary => "Secondary",
            SceneCharacterRole::Background => "Background",
        }
    }

    /// The role whose name is exactly `s`.
    pub fn parse(s: &str) -> (r: Result<Self, ()>)
        ensures
            match role_named(s@) {
                Some(role) => r == Ok::<SceneCharacterRole, ()>(role),
                None => r is Err,
            },
    {
        if str_eq(s, "Primary") {
            Ok(SceneCharacterRole::Primary)
        } else if str_eq(s, "Secondary") {
            Ok(SceneCharacterRole::Secondary)
        } else if str_eq(s, "Background") {
            Ok(SceneCharacterRole::Background)
        } else {
            Err(())
        }
    }
}

impl std::str::FromStr for SceneCharacterRole {
    type Err = ();

    fn from_str(s: &str) -> (r: Result<Self, Self::Err>)
        ensures
            match role_named(s@) {
                Some(role) => r == Ok::<SceneCharacterRole, ()>(role),
                None => r is Err,
            },
    {
        SceneCharacterRole::parse(s)
    }
}

/// A character featured in a scene.
#[derive(Debug, Clone, PartialEq, Eq)]
pub struct SceneCharacter {
    character_id: CharacterId,
    role: SceneCharacterRole,
    entrance_cue: Option<String>,
}

/// Abstract state of a featured character.
pub ghost struct SceneCharacterView {
    pub character_id: CharacterId,
    pub role: SceneCharacterRole,
    /// When the character enters.
    pub entrance_cue: Option<Seq<char>>,
}

impl View for SceneCharacter {
    type V = SceneCharacterView;

    closed spec fn view(&self) -> SceneCharacterView {
        SceneCharacterView {
            character_id: self.character_id,
            role: self.role,
            entrance_cue: opt_text(self.entrance_cue),
        }
    }
}

impl SceneCharacter {
    /// A featured character without an entrance cue.
    pub fn new(character_id: CharacterId, role: SceneCharacterRole) -> (c: Self)
        ensures
            c@ == (SceneCharacterView { character_id, role, entrance_cue: None }),
    {
        SceneCharacter { character_id, role, entrance_cue: None }
    }

    /// A featured character from stored parts.
    pub fn from_parts(character_id: CharacterId, role: SceneCharacterRole, entrance_cue: Option<String>) -> (c: Self)
        ensures
            c@ == (SceneCharacterView { character_id, role, entrance_cue: opt_text(entrance_cue) }),
    {
        SceneCharacter { character_id, role, entrance_cue }
    }

    pub fn character_id(&self) -> (r: CharacterId)
        ensures
            r == self@.character_id,
    {
        self.character_id
    }

    pub fn role(&self) -> (r: SceneCharacterRole)
        ensures
            r == self@.role,
    {
        self.role
    }

    pub fn entrance_cue(&self) -> (r: Option<&str>)
        ensures
            opt_str_text(r) == self@.entrance_cue,
    {
        opt_as_str(&self.entrance_cue)
    }

    /// This character with the given entrance cue.
    pub fn with_entrance_cue(self, cue: &str) -> (c: Self)
        ensures
            c@ == (SceneCharacterView { entrance_cue: Some(cue@), ..self@ }),
    {
        SceneCharacter { entrance_cue: Some(cue.to_owned()), ..self }
    }
}

/// What a scene mutation did.
#[derive(Debug, Clone)]
pub enum SceneUpdate {
    NameChanged { from: SceneName, to: SceneName },
    TimeContextChanged { from: TimeContext, to: TimeContext },
    BackdropOverrideChanged { from: Option<String>, to: Option<String> },
    DirectorialNotesChanged { from: String, to: String },
    OrderChanged { from: u32, to: u32 },
    EntryConditionAdded { condition: SceneCondition },
    EntryConditionsCleared { previous_count: usize },
}

/// A scene.
#[derive(Debug, Clone)]
pub struct Scene {
    id: SceneId,
    act_id: ActId,
    name: SceneName,
    time_context: TimeContext,
    backdrop_override: Option<String>,
    entry_conditions: Vec<SceneCondition>,
    directorial_notes: String,
    order: u32,
}

/// Abstract state of a scene.
pub ghost struct SceneView {
    pub id: SceneId,
    pub act_id: ActId,
    pub name: Seq<char>,
    pub time_context: TimeContext,
    /// Backdrop used in place of the location's.
    pub backdrop_override: Option<Seq<char>>,
    pub entry_conditions: Seq<SceneCondition>,
    /// Directions for the DM.
    pub directorial_notes: Seq<char>,
    /// Position among the act's scenes.
    pub order: u32,
}

impl View for Scene {
    type V = SceneView;

    closed spec fn view(&self) -> SceneView {
        SceneView {
            id: self.id,
            act_id: self.act_id,
            name: self.name@,
            time_context: self.time_context,
            backdrop_override: opt_text(self.backdrop_override),
            entry_conditions: self.entry_conditions@,
            directorial_notes: self.directorial_notes@,
            order: self.order,
        }
    }
}

impl Scene {
    /// A new scene with a fresh random id, no time setting, backdrop,
    /// conditions or notes, at order 0.
    pub fn new(act_id: ActId, name: SceneName) -> (s: Self)
        ensures
            s@ == (SceneView {
                id: s@.id,
                act_id,
                name: name@,
                time_context: TimeContext::Unspecified,
                backdrop_override: None,
                entry_conditions: Seq::empty(),
                directorial_notes: Seq::empty(),
                order: 0,
            }),
    {
        let s = Scene {
            id: SceneId::new(),
            act_id,
            name,
            time_context: TimeContext::Unspecified,
            backdrop_override: None,
            entry_conditions: Vec::new(),
            directorial_notes: String::new(),
            order: 0,
        };
        assert(s@.entry_conditions =~= Seq::<SceneCondition>::empty());
        s
    }

    /// A scene from stored parts, with a name already checked.
    pub fn from_parts(
        id: SceneId,
        act_id: ActId,
        name: SceneName,
        time_context: TimeContext,
        backdrop_override: Option<String>,
        entry_conditions: Vec<SceneCondition>,
        directorial_notes: String,
        order: u32,
    ) -> (s: Self)
        ensures
            s@ == (SceneView {
                id,
                act_id,
                name: name@,
                time_context,
                backdrop_override: opt_text(backdrop_override),
                entry_conditions: entry_conditions@,
                directorial_notes: directorial_notes@,
                order,
            }),
    {
        Scene {
            id,
            act_id,
            name,
            time_context,
            backdrop_override,
            entry_conditions,
            directorial_notes,
            order,
        }
    }

    pub fn id(&self) -> (r: SceneId)
        ensures
            r == self@.id,
    {
        self.id
    }

    pub fn act_id(&self) -> (r: ActId)
        ensures
            r == self@.act_id,
    {
        self.act_id
    }

    pub fn name(&self) -> (r: &SceneName)
        ensures
            r@ == self@.name,
    {
        &self.name
    }

    pub fn time_context(&self) -> (r: &TimeContext)
        ensures
            *r == self@.time_context,
    {
        &self.time_context
    }

    pub fn backdrop_override(&self) -> (r: Option<&str>)
        ensures
            opt_str_text(r) == self@.backdrop_override,
    {
        opt_as_str(&self.backdrop_override)
    }

    pub fn entry_conditions(&self) -> (r: &[SceneCondition])
        ensures
            r@ == self@.entry_conditions,
    {
        self.entry_conditions.as_slice()
    }

    pub fn directorial_notes(&self) -> (r: &str)
        ensures
            r@ == self@.directorial_notes,
    {
        self.directorial_notes.as_str()
    }

    pub fn order(&self) -> (r: u32)
        ensures
            r == self@.order,
    {
        self.order
    }

    /// This scene at the given time.
    pub fn with_time(self, time_context: TimeContext) -> (s: Self)
        ensures
            s@ == (SceneView { time_context, ..self@ }),
    {
        Scene { time_context, ..self }
    }

    /// This scene with the given notes.
    pub fn with_directorial_notes(self, notes: &str) -> (s: Self)
        ensures
            s@ == (SceneView { directorial_notes: notes@, ..self@ }),
    {
        Scene { directorial_notes: notes.to_owned(), ..self }
    }

    /// This scene with one more entry condition.
    pub fn with_entry_condition(self, condition: SceneCondition) -> (s: Self)
        ensures
            s@ == (SceneView { entry_conditions: self@.entry_conditions.push(condition), ..self@ }),
    {
        let mut s = self;
        s.entry_conditions.push(condition);
        s
    }

    /// This scene at the given order.
    pub fn with_order(self, order: u32) -> (s: Self)
        ensures
            s@ == (SceneView { order, ..self@ }),
    {
        Scene { order, ..self }
    }

    /// This scene with a backdrop override.
    pub fn with_backdrop_override(self, backdrop: &str) -> (s: Self)
        ensures
            s@ == (SceneView { backdrop_override: Some(backdrop@), ..self@ }),
    {
        Scene { backdrop_override: Some(backdrop.to_owned()), ..self }
    }

    /// This scene with the given id.
    pub fn with_id(self, id: SceneId) -> (s: Self)
        ensures
            s@ == (SceneView { id, ..self@ }),
    {
        Scene { id, ..self }
    }

    /// This scene with the given entry conditions.
    pub fn with_entry_conditions(self, conditions: Vec<SceneCondition>) -> (s: Self)
        ensures
            s@ == (SceneView { entry_conditions: conditions@, ..self@ }),
    {
        Scene { entry_conditions: conditions, ..self }
    }

    /// Renames the scene.
    pub fn set_name(&mut self, name: SceneName) -> (u: SceneUpdate)
        ensures
            u matches SceneUpdate::NameChanged { from, to } && from@ == old(self)@.name && to@
                == name@,
            final(self)@ == (SceneView { name: name@, ..old(self)@ }),
    {
        let mut previous = name;
        std::mem::swap(&mut self.name, &mut previous);
        SceneUpdate::NameChanged { from: previous, to: self.name.clone() }
    }

    /// Sets when the scene takes place.
    pub fn set_time_context(&mut self, time_context: TimeContext) -> (u: SceneUpdate)
        ensures
            u == (SceneUpdate::TimeContextChanged { from: old(self)@.time_context, to: time_context }),
            final(self)@ == (SceneView { time_context, ..old(self)@ }),
    {
        let previous = self.time_context.clone();
        self.time_context = time_context;
        SceneUpdate::TimeContextChanged { from: previous, to: self.time_context.clone() }
    }

    /// Sets or clears the backdrop override.
    pub fn set_backdrop_override(&mut self, backdrop: Option<String>) -> (u: SceneUpdate)
        ensures
            u matches SceneUpdate::BackdropOverrideChanged { from, to } && opt_text(from) == old(
                self,
            )@.backdrop_override && opt_text(to) == opt_text(backdrop),
            final(self)@ == (SceneView { backdrop_override: opt_text(backdrop), ..old(self)@ }),
    {
        let mut previous = backdrop;
        std::mem::swap(&mut self.backdrop_override, &mut previous);
        SceneUpdate::BackdropOverrideChanged {
            from: previous,
            to: copy_opt_string(&self.backdrop_override),
        }
    }

    /// Replaces the directorial notes.
    pub fn set_directorial_notes(&mut self, notes: &str) -> (u: SceneUpdate)
        ensures
            u matches SceneUpdate::DirectorialNotesChanged { from, to } && from@ == old(
                self,
            )@.directorial_notes && to@ == notes@,
            final(self)@ == (SceneView { directorial_notes: notes@, ..old(self)@ }),
    {
        let mut previous = notes.to_owned();
        std::mem::swap(&mut self.directorial_notes, &mut previous);
        SceneUpdate::DirectorialNotesChanged { from: previous, to: self.directorial_notes.clone() }
    }

    /// Sets the order.
    pub fn set_order(&mut self, order: u32) -> (u: SceneUpdate)
        ensures
            u == (SceneUpdate::OrderChanged { from: old(self)@.order, to: order }),
            final(self)@ == (SceneView { order, ..old(self)@ }),
    {
        let previous = self.order;
        self.order = order;
        SceneUpdate::OrderChanged { from: previous, to: self.order }
    }

    /// Adds an entry condition.
    pub fn add_entry_condition(&mut self, condition: SceneCondition) -> (u: SceneUpdate)
        ensures
            u == (SceneUpdate::EntryConditionAdded { condition }),
            final(self)@ == (SceneView {
                entry_conditions: old(self)@.entry_conditions.push(condition),
                ..old(self)@
            }),
    {
        let added = condition.clone();
        self.entry_conditions.push(condition);
        SceneUpdate::EntryConditionAdded { condition: added }
    }

    /// Removes every entry condition.
    pub fn clear_entry_conditions(&mut self) -> (u: SceneUpdate)
        ensures
            u == (SceneUpdate::EntryConditionsCleared {
                previous_count: old(self)@.entry_conditions.len() as usize,
            }),
            final(self)@ == (SceneView { entry_conditions: Seq::empty(), ..old(self)@ }),
    {
        let previous_count = self.entry_conditions.len();
        self.entry_conditions = Vec::new();
        assert(self@.entry_conditions =~= Seq::<SceneCondition>::empty());
        SceneUpdate::EntryConditionsCleared { previous_count }
    }
}


/// Parsing a role's name gives the role back.
pub proof fn law_role_name_round_trip(r: SceneCharacterRole)
    ensures
        role_named(role_name(r)) == Some(r),
{
    reveal_strlit("Primary");
    reveal_strlit("Secondary");
    reveal_strlit("Background");
    assert("Secondary"@.len() != "Primary"@.len());
    assert("Background"@[0] != "Primary"@[0]);
    assert("Background"@.len() != "Secondary"@.len());
}

} // verus!
