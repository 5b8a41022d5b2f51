//! Event chains: ordered sequences of narrative events that form a story
//! arc, with a position that advances as events are completed.

use crate::ids::{ActId, EventChainId, NarrativeEventId, WorldId};
use crate::text::{opt_as_str, opt_str_text, opt_text, texts};
use crate::value_objects::Timestamp;
use vstd::prelude::*;

verus! {

/// A chain of narrative events. Every completed event is one of the
/// chain's events, recorded once.
#[derive(Debug, PartialEq, Eq)]
pub struct EventChain {
    id: EventChainId,
    world_id: WorldId,
    name: String,
    description: String,
    events: Vec<NarrativeEventId>,
    is_active: bool,
    current_position: u32,
    completed_events: Vec<NarrativeEventId>,
    act_id: Option<ActId>,
    tags: Vec<String>,
    color: Option<String>,
    is_favorite: bool,
    created_at: Timestamp,
    updated_at: Timestamp,
}

/// Abstract state of an event chain.
pub ghost struct EventChainView {
    pub id: EventChainId,
    pub world_id: WorldId,
    pub name: Seq<char>,
    pub description: Seq<char>,
    /// The events, in story order.
    pub events: Seq<NarrativeEventId>,
    pub is_active: bool,
    /// Position of the current event in `events` (at or past the end when
    /// the chain is complete).
    pub current_position: u32,
    /// Events completed so far, in the order of completion.
    pub completed_events: Seq<NarrativeEventId>,
    pub act_id: Option<ActId>,
    pub tags: Seq<Seq<char>>,
    /// Display color (such as "#ff0000").
    pub color: Option<Seq<char>>,
    pub is_favorite: bool,
    pub created_at: Timestamp,
    pub updated_at: Timestamp,
}

impl View for EventChain {
    type V = EventChainView;

    closed spec fn view(&self) -> EventChainView {
        EventChainView {
            id: self.id,
            world_id: self.world_id,
            name: self.name@,
            description: self.description@,
            events: self.events@,
            is_active: self.is_active,
            current_position: self.current_position,
            completed_events: self.completed_events@,
            act_id: self.act_id,
            tags: texts(self.tags@),
            color: opt_text(self.color),
            is_favorite: self.is_favorite,
            created_at: self.created_at,
            updated_at: self.updated_at,
        }
    }
}

/// The test "differs from `id`".
pub open spec fn other_event(id: NarrativeEventId) -> spec_fn(NarrativeEventId) -> bool {
    |e: NarrativeEventId| e != id
}

/// The test "is one of `ids`".
pub open spec fn in_events(ids: Seq<NarrativeEventId>) -> spec_fn(NarrativeEventId) -> bool {
    |e: NarrativeEventId| ids.contains(e)
}

/// Every completed event is one of the events, and none is recorded twice.
pub open spec fn completions_consistent(
    events: Seq<NarrativeEventId>,
    completed: Seq<NarrativeEventId>,
) -> bool {
    &&& completed.no_duplicates()
    &&& forall|i: int| 0 <= i < completed.len() ==> events.contains(#[trigger] completed[i])
}

/// The chain's completed events are among its events, each once.
pub open spec fn chain_well_formed(v: EventChainView) -> bool {
    completions_consistent(v.events, v.completed_events)
}

/// The stored completed events that are events of the chain, each kept at
/// its first occurrence.
pub open spec fn stored_completions(
    events: Seq<NarrativeEventId>,
    completed: Seq<NarrativeEventId>,
) -> Seq<NarrativeEventId>
    decreases completed.len(),
{
    if completed.len() == 0 {
        Seq::empty()
    } else {
        let kept = stored_completions(events, completed.drop_last());
        if events.contains(completed.last()) && !kept.contains(completed.last()) {
            kept.push(completed.last())
        } else {
            kept
        }
    }
}

/// `i` is the first position of `id` in `s`.
pub open spec fn first_at(s: Seq<NarrativeEventId>, id: NarrativeEventId, i: int) -> bool {
    &&& 0 <= i < s.len()
    &&& s[i] == id
    &&& forall|j: int| 0 <= j < i ==> s[j] != id
}

/// The chain after inserting `id` at `position`: nothing happens past the
/// end; otherwise the current position moves along when the insertion is
/// at or before it, so that it keeps pointing at the same event.
pub open spec fn after_insert(v: EventChainView, position: int, id: NarrativeEventId, now: Timestamp) -> EventChainView {
    if position <= v.events.len() {
        EventChainView {
            events: v.events.insert(position, id),
            current_position: if position <= v.current_position {
                (v.current_position + 1) as u32
            } else {
                v.current_position
            },
            updated_at: now,
            ..v
        }
    } else {
        v
    }
}

/// The chain after removing `id`: every occurrence leaves the events and
/// the completed events, and the current position moves back when the
/// first occurrence was before it.
pub open spec fn after_remove(v: EventChainView, id: NarrativeEventId, now: Timestamp) -> EventChainView {
    if v.events.contains(id) {
        EventChainView {
            events: v.events.filter(other_event(id)),
            completed_events: v.completed_events.filter(other_event(id)),
            current_position: if exists|i: int| first_at(v.events, id, i) && i < v.current_position {
                (v.current_position - 1) as u32
            } else {
                v.current_position
            },
            updated_at: now,
            ..v
        }
    } else {
        EventChainView { completed_events: v.completed_events.filter(other_event(id)), ..v }
    }
}

/// The chain after completing `id`: if it is one of the chain's events it
/// joins the completed events once, and if its first position is the
/// current one, the chain moves past it.
pub open spec fn after_complete(v: EventChainView, id: NarrativeEventId, now: Timestamp) -> EventChainView {
    EventChainView {
        completed_events: if !v.events.contains(id) || v.completed_events.contains(id) {
            v.completed_events
        } else {
            v.completed_events.push(id)
        },
        current_position: if exists|i: int| first_at(v.events, id, i) && i == v.current_position {
            (v.current_position + 1) as u32
        } else {
            v.current_position
        },
        updated_at: now,
        ..v
    }
}

/// The current position after reordering to `n` events: kept, but never
/// past the last event (0 for no events).
pub open spec fn clamped_position(current: u32, n: nat) -> u32 {
    let last = (if n == 0 {
        0
    } else {
        n - 1
    }) as u32;
    if current < last {
        current
    } else {
        last
    }
}

/// The chain after reordering its events to `ids`: completed events not
/// among `ids` are dropped, and the current position is kept but never
/// past the last event.
pub open spec fn after_reorder(v: EventChainView, ids: Seq<NarrativeEventId>, now: Timestamp) -> EventChainView {
    EventChainView {
        events: ids,
        completed_events: v.completed_events.filter(in_events(ids)),
        current_position: clamped_position(v.current_position, ids.len()),
        updated_at: now,
        ..v
    }
}

/// The event at position `i`, if there is one.
pub open spec fn event_at(s: Seq<NarrativeEventId>, i: int) -> Option<NarrativeEventId> {
    if 0 <= i < s.len() {
        Some(s[i])
    } else {
        None
    }
}

/// Keeps the entries of `v` other than `id`.
fn without_event(v: &Vec<NarrativeEventId>, id: NarrativeEventId) -> (r: Vec<NarrativeEventId>)
    ensures
        r@ == v@.filter(other_event(id)),
{
    let mut kept: Vec<NarrativeEventId> = Vec::new();
    for i in 0..v.len()
        invariant
            kept@ == v@.take(i as int).filter(other_event(id)),
    {
        proof {
            reveal(Seq::filter);
        }
        assert(v@.take(i + 1).drop_last() =~= v@.take(i as int));
        if v[i] != id {
            kept.push(v[i]);
        }
    }
    assert(v@.take(v@.len() as int) =~= v@);
    kept
}

/// The first position of `id` in `v`.
fn position_of(v: &Vec<NarrativeEventId>, id: NarrativeEventId) -> (r: Option<usize>)
    ensures
        match r {
            Some(i) => first_at(v@, id, i as int),
            None => !v@.contains(id),
        },
{
    for i in 0..v.len()
        invariant
            forall|j: int| 0 <= j < i ==> v@[j] != id,
    {
        if v[i] == id {
            return Some(i);
        }
    }
    None
}

/// A copy of the events of `v`.
fn copy_events(v: &Vec<NarrativeEventId>) -> (r: Vec<NarrativeEventId>)
    ensures
        r@ == v@,
{
    let mut r: Vec<NarrativeEventId> = Vec::new();
    for i in 0..v.len()
        invariant
            r@ == v@.take(i as int),
    {
        r.push(v[i]);
        assert(v@.take(i + 1) =~= v@.take(i as int).push(v@[i as int]));
    }
    assert(v@.take(v@.len() as int) =~= v@);
    r
}

/// A copy of the texts of `v`.
fn copy_texts(v: &Vec<String>) -> (r: Vec<String>)
    ensures
        r@ == v@,
{
    let mut r: Vec<String> = Vec::new();
    for i in 0..v.len()
        invariant
            r@ == v@.take(i as int),
    {
        r.push(v[i].clone());
        assert(v@.take(i + 1) =~= v@.take(i as int).push(v@[i as int]));
    }
    assert(v@.take(v@.len() as int) =~= v@);
    r
}

impl Clone for EventChain {
    fn clone(&self) -> (c: Self)
        ensures
            c@ == self@,
    {
        proof {
            use_type_invariant(self);
        }
        let color = match &self.color {
            Some(c) => Some(c.clone()),
            None => None,
        };
        EventChain {
            id: self.id,
            world_id: self.world_id,
            name: self.name.clone(),
            description: self.description.clone(),
            events: copy_events(&self.events),
            is_active: self.is_active,
            current_position: self.current_position,
            completed_events: copy_events(&self.completed_events),
            act_id: self.act_id,
            tags: copy_texts(&self.tags),
            color,
            is_favorite: self.is_favorite,
            created_at: self.created_at,
            updated_at: self.updated_at,
        }
    }
}

impl EventChain {
    /// The completed events are among the events, each once.
    #[verifier::type_invariant]
    spec fn well_formed(self) -> bool {
        completions_consistent(self.events@, self.completed_events@)
    }

    /// Takes both lists of events out of the chain, leaving them empty.
    fn take_lists(&mut self) -> (r: (Vec<NarrativeEventId>, Vec<NarrativeEventId>))
        ensures
            r.0@ == old(self)@.events,
            r.1@ == old(self)@.completed_events,
            completions_consistent(r.0@, r.1@),
            final(self)@ == (EventChainView {
                events: Seq::empty(),
                completed_events: Seq::empty(),
                ..old(self)@
            }),
    {
        proof {
            use_type_invariant(&*self);
        }
        let mut done: Vec<NarrativeEventId> = Vec::new();
        std::mem::swap(&mut done, &mut self.completed_events);
        let mut events: Vec<NarrativeEventId> = Vec::new();
        std::mem::swap(&mut events, &mut self.events);
        (events, done)
    }

    /// Puts both lists of events into the chain.
    fn put_lists(&mut self, events: Vec<NarrativeEventId>, completed: Vec<NarrativeEventId>)
        requires
            completions_consistent(events@, completed@),
        ensures
            final(self)@ == (EventChainView {
                events: events@,
                completed_events: completed@,
                ..old(self)@
            }),
    {
        let empty: Vec<NarrativeEventId> = Vec::new();
        assert(completions_consistent(self.events@, empty@));
        self.completed_events = empty;
        self.events = events;
        self.completed_events = completed;
    }
}

impl EventChain {
    /// An active, empty chain created and updated at `now`, with a fresh
    /// random id.
    pub fn new(world_id: WorldId, name: &str, now: Timestamp) -> (c: Self)
        ensures
            c@ == (EventChainView {
                id: c@.id,
                world_id,
                name: name@,
                description: Seq::empty(),
                events: Seq::empty(),
                is_active: true,
                current_position: 0,
                completed_events: Seq::empty(),
                act_id: None,
                tags: Seq::empty(),
                color: None,
                is_favorite: false,
                created_at: now,
                updated_at: now,
            }),
    {
        let events: Vec<NarrativeEventId> = Vec::new();
        let completed_events: Vec<NarrativeEventId> = Vec::new();
        assert(completions_consistent(events@, completed_events@));
        let c = EventChain {
            id: EventChainId::new(),
            world_id,
            name: name.to_owned(),
            description: String::new(),
            events,
            is_active: true,
            current_position: 0,
            completed_events,
            act_id: None,
            tags: Vec::new(),
            color: None,
            is_favorite: false,
            created_at: now,
            updated_at: now,
        };
        assert(c@.events =~= Seq::<NarrativeEventId>::empty());
        assert(c@.completed_events =~= Seq::<NarrativeEventId>::empty());
        assert(c@.tags =~= Seq::<Seq<char>>::empty());
        c
    }

    /// A chain from stored parts, taken as they are, except that of the
    /// stored completed events only the chain's own events are kept, each
    /// once.
    pub fn from_parts(
        id: EventChainId,
        world_id: WorldId,
        name: String,
        description: String,
        events: Vec<NarrativeEventId>,
        is_active: bool,
        current_position: u32,
        completed_events: Vec<NarrativeEventId>,
        act_id: Option<ActId>,
        tags: Vec<String>,
        color: Option<String>,
        is_favorite: bool,
        created_at: Timestamp,
        updated_at: Timestamp,
    ) -> (c: Self)
        ensures
            c@ == (EventChainView {
                id,
                world_id,
                name: name@,
                description: description@,
                events: events@,
                is_active,
                current_position,
                completed_events: stored_completions(events@, completed_events@),
                act_id,
                tags: texts(tags@),
                color: opt_text(color),
                is_favorite,
                created_at,
                updated_at,
            }),
    {
        let mut kept: Vec<NarrativeEventId> = Vec::new();
        for i in 0..completed_events.len()
            invariant
                kept@ == stored_completions(events@, completed_events@.take(i as int)),
                completions_consistent(events@, kept@),
        {
            let e = completed_events[i];
            assert(completed_events@.take(i + 1).drop_last() =~= completed_events@.take(i as int));
            if position_of(&events, e).is_some() && position_of(&kept, e).is_none() {
                let ghost before = kept@;
                kept.push(e);
                assert forall|a: int, b: int|
                    0 <= a < kept@.len() && 0 <= b < kept@.len() && a != b implies kept@[a]
                    != kept@[b] by {
                    if a == before.len() {
                        assert(before[b] == kept@[b]);
                    } else if b == before.len() {
                        assert(before[a] == kept@[a]);
                    }
                }
            }
        }
        assert(completed_events@.take(completed_events@.len() as int) =~= completed_events@);
        EventChain {
            id,
            world_id,
            name,
            description,
            events,
            is_active,
            current_position,
            completed_events: kept,
            act_id,
            tags,
            color,
            is_favorite,
            created_at,
            updated_at,
        }
    }

    pub fn id(&self) -> (r: EventChainId)
        ensures
            r == self@.id,
    {
        self.id
    }

    pub fn world_id(&self) -> (r: WorldId)
        ensures
            r == self@.world_id,
    {
        self.world_id
    }

    pub fn name(&self) -> (r: &str)
        ensures
            r@ == self@.name,
    {
        self.name.as_str()
    }

    pub fn description(&self) -> (r: &str)
        ensures
            r@ == self@.description,
    {
        self.description.as_str()
    }

    pub fn events(&self) -> (r: &[NarrativeEventId])
        ensures
            r@ == self@.events,
    {
        self.events.as_slice()
    }

    pub fn is_active(&self) -> (b: bool)
        ensures
            b == self@.is_active,
    {
        self.is_active
    }

    pub fn current_position(&self) -> (r: u32)
        ensures
            r == self@.current_position,
    {
        self.current_position
    }

    pub fn completed_events(&self) -> (r: &[NarrativeEventId])
        ensures
            r@ == self@.completed_events,
            chain_well_formed(self@),
    {
        proof {
            use_type_invariant(self);
        }
        self.completed_events.as_slice()
    }

    pub fn act_id(&self) -> (r: Option<ActId>)
        ensures
            r == self@.act_id,
    {
        self.act_id
    }

    pub fn tags(&self) -> (r: &[String])
        ensures
            texts(r@) == self@.tags,
    {
        self.tags.as_slice()
    }

    pub fn color(&self) -> (r: Option<&str>)
        ensures
            opt_str_text(r) == self@.color,
    {
        opt_as_str(&self.color)
    }

    pub fn is_favorite(&self) -> (b: bool)
        ensures
            b == self@.is_favorite,
    {
        self.is_favorite
    }

    pub fn created_at(&self) -> (r: Timestamp)
        ensures
            r == self@.created_at,
    {
        self.created_at
    }

    pub fn updated_at(&self) -> (r: Timestamp)
        ensures
            r == self@.updated_at,
    {
        self.updated_at
    }

    /// This chain with the given description.
    pub fn with_description(self, description: &str) -> (c: Self)
        ensures
            c@ == (EventChainView { description: description@, ..self@ }),
    {
        proof {
            use_type_invariant(&self);
        }
        EventChain { description: description.to_owned(), ..self }
    }

    /// This chain in the given act.
    pub fn with_act_id(self, act_id: ActId) -> (c: Self)
        ensures
            c@ == (EventChainView { act_id: Some(act_id), ..self@ }),
    {
        proof {
            use_type_invariant(&self);
        }
        EventChain { act_id: Some(act_id), ..self }
    }

    /// This chain with the given tags.
    pub fn with_tags(self, tags: Vec<String>) -> (c: Self)
        ensures
            c@ == (EventChainView { tags: texts(tags@), ..self@ }),
    {
        proof {
            use_type_invariant(&self);
        }
        EventChain { tags, ..self }
    }

    /// This chain with the given color.
    pub fn with_color(self, color: &str) -> (c: Self)
        ensures
            c@ == (EventChainView { color: Some(color@), ..self@ }),
    {
        proof {
            use_type_invariant(&self);
        }
        EventChain { color: Some(color.to_owned()), ..self }
    }

    /// This chain, favorite or not.
    pub fn with_favorite(self, is_favorite: bool) -> (c: Self)
        ensures
            c@ == (EventChainView { is_favorite, ..self@ }),
    {
        proof {
            use_type_invariant(&self);
        }
        EventChain { is_favorite, ..self }
    }

    /// This chain, active or not.
    pub fn with_active(self, is_active: bool) -> (c: Self)
        ensures
            c@ == (EventChainView { is_active, ..self@ }),
    {
        proof {
            use_type_invariant(&self);
        }
        EventChain { is_active, ..self }
    }

    /// Renames the chain.
    pub fn set_name(&mut self, name: &str, now: Timestamp)
        ensures
            final(self)@ == (EventChainView { name: name@, updated_at: now, ..old(self)@ }),
    {
        proof {
            use_type_invariant(&*self);
        }
        self.name = name.to_owned();
        self.updated_at = now;
    }

    /// Replaces the description.
    pub fn set_description(&mut self, description: &str, now: Timestamp)
        ensures
            final(self)@ == (EventChainView {
                description: description@,
                updated_at: now,
                ..old(self)@
            }),
    {
        proof {
            use_type_invariant(&*self);
        }
        self.description = description.to_owned();
        self.updated_at = now;
    }

    /// Replaces the tags.
    pub fn set_tags(&mut self, tags: Vec<String>, now: Timestamp)
        ensures
            final(self)@ == (EventChainView { tags: texts(tags@), updated_at: now, ..old(self)@ }),
    {
        proof {
            use_type_invariant(&*self);
        }
        self.tags = tags;
        self.updated_at = now;
    }

    /// Replaces the color.
    pub fn set_color(&mut self, color: Option<String>, now: Timestamp)
        ensures
            final(self)@ == (EventChainView {
                color: opt_text(color),
                updated_at: now,
                ..old(self)@
            }),
    {
        proof {
            use_type_invariant(&*self);
        }
        self.color = color;
        self.updated_at = now;
    }

    /// Marks or unmarks the chain as a favorite.
    pub fn set_favorite(&mut self, is_favorite: bool, now: Timestamp)
        ensures
            final(self)@ == (EventChainView { is_favorite, updated_at: now, ..old(self)@ }),
    {
        proof {
            use_type_invariant(&*self);
        }
        self.is_favorite = is_favorite;
        self.updated_at = now;
    }

    /// Places the chain in an act, or in none.
    pub fn set_act_id(&mut self, act_id: Option<ActId>, now: Timestamp)
        ensures
            final(self)@ == (EventChainView { act_id, updated_at: now, ..old(self)@ }),
    {
        proof {
            use_type_invariant(&*self);
        }
        self.act_id = act_id;
        self.updated_at = now;
    }

    /// Appends an event.
    pub fn add_event(&mut self, event_id: NarrativeEventId, now: Timestamp)
        ensures
            final(self)@ == (EventChainView {
                events: old(self)@.events.push(event_id),
                updated_at: now,
                ..old(self)@
            }),
    {
        proof {
            use_type_invariant(&*self);
        }
        let (mut events, completed) = self.take_lists();
        events.push(event_id);
        assert forall|i: int| 0 <= i < completed@.len() implies events@.contains(
            #[trigger] completed@[i],
        ) by {
            let k = choose|k: int| 0 <= k < old(self)@.events.len() && old(self)@.events[k]
                == completed@[i];
            assert(events@[k] == completed@[i]);
        }
        self.put_lists(events, completed);
        self.updated_at = now;
    }

    /// Inserts an event at `position` (ignored past the end), keeping the
    /// current position on the same event.
    pub fn insert_event(&mut self, position: usize, event_id: NarrativeEventId, now: Timestamp)
        requires
            position <= old(self)@.events.len() && position <= old(self)@.current_position
                ==> old(self)@.current_position < u32::MAX,
        ensures
            final(self)@ == after_insert(old(self)@, position as int, event_id, now),
    {
        proof {
            use_type_invariant(&*self);
        }
        if position <= self.events.len() {
            let (mut events, completed) = self.take_lists();
            events.insert(position, event_id);
            assert forall|i: int| 0 <= i < completed@.len() implies events@.contains(
                #[trigger] completed@[i],
            ) by {
                let k = choose|k: int| 0 <= k < old(self)@.events.len() && old(self)@.events[k]
                    == completed@[i];
                if k < position {
                    assert(events@[k] == completed@[i]);
                } else {
                    assert(events@[k + 1] == completed@[i]);
                }
            }
            self.put_lists(events, completed);
            if position <= self.current_position as usize {
                self.current_position = self.current_position + 1;
            }
            self.updated_at = now;
        }
    }

    /// Removes every occurrence of an event from the events and the
    /// completed events; true when the chain held it.
    pub fn remove_event(&mut self, event_id: &NarrativeEventId, now: Timestamp) -> (removed: bool)
        ensures
            removed == old(self)@.events.contains(*event_id),
            final(self)@ == after_remove(old(self)@, *event_id, now),
    {
        proof {
            use_type_invariant(&*self);
        }
        let id = *event_id;
        let position = position_of(&self.events, id);
        let original_len = self.events.len();
        let events = without_event(&self.events, id);
        let completed = without_event(&self.completed_events, id);
        proof {
            use_type_invariant(&*self);
            lemma_filter_shorter(old(self)@.events, id);
            lemma_removal_keeps_consistency(self.events@, self.completed_events@, id);
        }
        self.put_lists(events, completed);
        if self.events.len() != original_len {
            if let Some(pos) = position {
                if pos < self.current_position as usize {
                    self.current_position = self.current_position - 1;
                }
            }
            self.updated_at = now;
            true
        } else {
            false
        }
    }

    /// Replaces the order of events; completed events not among the new
    /// ones are dropped, and the current position is kept but never past
    /// the last event.
    pub fn reorder_events(&mut self, event_ids: Vec<NarrativeEventId>, now: Timestamp)
        ensures
            final(self)@ == after_reorder(old(self)@, event_ids@, now),
    {
        proof {
            use_type_invariant(&*self);
        }
        let ghost done = self.completed_events@;
        let mut kept: Vec<NarrativeEventId> = Vec::new();
        for i in 0..self.completed_events.len()
            invariant
                done == self.completed_events@,
                kept@ == done.take(i as int).filter(in_events(event_ids@)),
        {
            proof {
                reveal(Seq::filter);
            }
            assert(done.take(i + 1).drop_last() =~= done.take(i as int));
            let e = self.completed_events[i];
            if position_of(&event_ids, e).is_some() {
                kept.push(e);
            }
        }
        assert(done.take(done.len() as int) =~= done);
        proof {
            lemma_filter_consistent(event_ids@, done, in_events(event_ids@));
        }
        let max_position = if event_ids.len() == 0 {
            0
        } else {
            (event_ids.len() - 1) as u32
        };
        if max_position < self.current_position {
            self.current_position = max_position;
        }
        self.put_lists(event_ids, kept);
        self.updated_at = now;
    }

    /// Records an event of the chain as completed (an id the chain does not
    /// hold is not recorded); completing the current event moves the chain
    /// to the next one.
    pub fn complete_event(&mut self, event_id: NarrativeEventId, now: Timestamp)
        requires
            old(self)@.events.len() < u32::MAX,
        ensures
            final(self)@ == after_complete(old(self)@, event_id, now),
    {
        proof {
            use_type_invariant(&*self);
        }
        let found = position_of(&self.events, event_id);
        if found.is_some() && position_of(&self.completed_events, event_id).is_none() {
            let (events, mut completed) = self.take_lists();
            let ghost before = completed@;
            completed.push(event_id);
            assert forall|a: int, b: int|
                0 <= a < completed@.len() && 0 <= b < completed@.len() && a != b implies completed@[a]
                != completed@[b] by {
                if a == before.len() {
                    assert(before[b] == completed@[b]);
                } else if b == before.len() {
                    assert(before[a] == completed@[a]);
                }
            }
            assert forall|i: int| 0 <= i < completed@.len() implies events@.contains(
                #[trigger] completed@[i],
            ) by {
                if i < before.len() {
                    assert(before[i] == completed@[i]);
                }
            }
            self.put_lists(events, completed);
        }
        if let Some(pos) = found {
            if pos as u32 == self.current_position {
                self.current_position = (pos as u32) + 1;
            }
        }
        self.updated_at = now;
    }

    /// The event at the current position, if any.
    pub fn current_event(&self) -> (r: Option<&NarrativeEventId>)
        ensures
            match r {
                Some(e) => event_at(self@.events, self@.current_position as int) == Some(*e),
                None => event_at(self@.events, self@.current_position as int) is None,
            },
    {
        let i = self.current_position as usize;
        if i < self.events.len() {
            Some(&self.events[i])
        } else {
            None
        }
    }

    /// The event after the current one, if any.
    pub fn next_event(&self) -> (r: Option<&NarrativeEventId>)
        requires
            self@.current_position < u32::MAX,
        ensures
            match r {
                Some(e) => event_at(self@.events, self@.current_position + 1) == Some(*e),
                None => event_at(self@.events, self@.current_position + 1) is None,
            },
    {
        let i = (self.current_position + 1) as usize;
        if i < self.events.len() {
            Some(&self.events[i])
        } else {
            None
        }
    }

    /// Whether the current position is past the last event.
    pub fn is_complete(&self) -> (b: bool)
        ensures
            b == (self@.current_position >= self@.events.len()),
    {
        self.current_position as usize >= self.events.len()
    }

    /// How many more events there are than completed ones.
    pub fn remaining_events(&self) -> (n: usize)
        ensures
            n == self@.events.len() - self@.completed_events.len(),
    {
        proof {
            use_type_invariant(self);
            law_completed_never_exceed_events(self@);
        }
        self.events.len() - self.completed_events.len()
    }

    /// Back to the first event, with nothing completed.
    pub fn reset(&mut self, now: Timestamp)
        ensures
            final(self)@ == (EventChainView {
                current_position: 0,
                completed_events: Seq::empty(),
                updated_at: now,
                ..old(self)@
            }),
    {
        proof {
            use_type_invariant(&*self);
        }
        self.current_position = 0;
        let empty: Vec<NarrativeEventId> = Vec::new();
        assert(completions_consistent(self.events@, empty@));
        self.completed_events = empty;
        self.updated_at = now;
        assert(self@.completed_events =~= Seq::<NarrativeEventId>::empty());
    }

    /// Deactivates the chain.
    pub fn deactivate(&mut self, now: Timestamp)
        ensures
            final(self)@ == (EventChainView { is_active: false, updated_at: now, ..old(self)@ }),
    {
        proof {
            use_type_invariant(&*self);
        }
        self.is_active = false;
        self.updated_at = now;
    }

    /// Activates the chain.
    pub fn activate(&mut self, now: Timestamp)
        ensures
            final(self)@ == (EventChainView { is_active: true, updated_at: now, ..old(self)@ }),
    {
        proof {
            use_type_invariant(&*self);
        }
        self.is_active = true;
        self.updated_at = now;
    }

    /// Whether the chain holds the event.
    pub fn contains_event(&self, event_id: &NarrativeEventId) -> (b: bool)
        ensures
            b == self@.events.contains(*event_id),
    {
        position_of(&self.events, *event_id).is_some()
    }

    /// The first position of the event in the chain.
    pub fn event_position(&self, event_id: &NarrativeEventId) -> (r: Option<usize>)
        ensures
            match r {
                Some(i) => first_at(self@.events, *event_id, i as int),
                None => !self@.events.contains(*event_id),
            },
    {
        position_of(&self.events, *event_id)
    }

    /// Whether the event is among the completed ones.
    pub fn is_event_completed(&self, event_id: &NarrativeEventId) -> (b: bool)
        ensures
            b == self@.completed_events.contains(*event_id),
    {
        position_of(&self.completed_events, *event_id).is_some()
    }
}

/// Removing an id that occurs leaves a shorter sequence; removing one that
/// does not occur leaves it as it was.
pub proof fn lemma_filter_shorter(s: Seq<NarrativeEventId>, id: NarrativeEventId)
    ensures
        s.contains(id) ==> s.filter(other_event(id)).len() < s.len(),
        !s.contains(id) ==> s.filter(other_event(id)) == s,
    decreases s.len(),
{
    reveal(Seq::filter);
    if s.len() > 0 {
        let t = s.drop_last();
        lemma_filter_shorter(t, id);
        t.lemma_filter_len(other_event(id));
        if !s.contains(id) {
            assert(!t.contains(id)) by {
                if t.contains(id) {
                    let k = choose|k: int| 0 <= k < t.len() && t[k] == id;
                    assert(s[k] == id);
                }
            }
            assert(s.filter(other_event(id)) =~= t.push(s.last()));
            assert(t.push(s.last()) =~= s);
        } else if s.last() != id {
            let k = choose|k: int| 0 <= k < s.len() && s[k] == id;
            assert(t[k] == id);
        }
    }
}

/// Keeping some entries of a list free of repeats keeps it free of
/// repeats, and the kept entries lie among `events` when each entry that
/// passes the test does.
pub proof fn lemma_filter_consistent(
    events: Seq<NarrativeEventId>,
    completed: Seq<NarrativeEventId>,
    pred: spec_fn(NarrativeEventId) -> bool,
)
    requires
        completed.no_duplicates(),
        forall|i: int|
            0 <= i < completed.len() && pred(completed[i]) ==> events.contains(#[trigger] completed[i]),
    ensures
        completions_consistent(events, completed.filter(pred)),
    decreases completed.len(),
{
    reveal(Seq::filter);
    if completed.len() > 0 {
        let t = completed.drop_last();
        let last = completed.last();
        assert forall|i: int, j: int|
            0 <= i < t.len() && 0 <= j < t.len() && i != j implies t[i] != t[j] by {
            assert(t[i] == completed[i] && t[j] == completed[j]);
        }
        assert forall|i: int| 0 <= i < t.len() && pred(t[i]) implies events.contains(
            #[trigger] t[i],
        ) by {
            assert(t[i] == completed[i]);
        }
        lemma_filter_consistent(events, t, pred);
        let f = t.filter(pred);
        if pred(last) {
            assert(completed.filter(pred) == f.push(last));
            if f.contains(last) {
                t.lemma_filter_contains_rev(pred, last);
                let k = choose|k: int| 0 <= k < t.len() && t[k] == last;
                assert(completed[k] == completed[completed.len() - 1]);
            }
            assert(events.contains(completed[completed.len() - 1]));
            let g = f.push(last);
            assert forall|a: int, b: int|
                0 <= a < g.len() && 0 <= b < g.len() && a != b implies g[a] != g[b] by {
                if a == f.len() {
                    assert(f.contains(g[b]) ==> g[b] != last);
                    assert(g[b] == f[b]);
                } else if b == f.len() {
                    assert(g[a] == f[a]);
                } else {
                    assert(g[a] == f[a] && g[b] == f[b]);
                }
            }
            assert forall|i: int| 0 <= i < g.len() implies events.contains(#[trigger] g[i]) by {
                if i < f.len() {
                    assert(g[i] == f[i]);
                }
            }
        } else {
            assert(completed.filter(pred) == f);
        }
    }
}

/// Removing an event from the events and the completed events keeps the
/// completed events among the events, each once.
pub proof fn lemma_removal_keeps_consistency(
    events: Seq<NarrativeEventId>,
    completed: Seq<NarrativeEventId>,
    id: NarrativeEventId,
)
    requires
        completions_consistent(events, completed),
    ensures
        completions_consistent(
            events.filter(other_event(id)),
            completed.filter(other_event(id)),
        ),
{
    let kept = events.filter(other_event(id));
    assert forall|i: int| 0 <= i < completed.len() && other_event(id)(completed[i]) implies kept.contains(
        #[trigger] completed[i],
    ) by {
        assert(events.contains(completed[i]));
        let k = choose|k: int| 0 <= k < events.len() && events[k] == completed[i];
        events.lemma_filter_contains(other_event(id), k);
    }
    lemma_filter_consistent(kept, completed, other_event(id));
}

/// A summary of a chain's state.
#[derive(Debug, Clone, PartialEq, Eq)]
pub struct ChainStatus {
    pub chain_id: EventChainId,
    pub chain_name: String,
    pub is_active: bool,
    pub is_complete: bool,
    pub total_events: usize,
    pub completed_events: usize,
    /// Completed share of the events, as a whole percentage.
    pub progress_percent: u32,
    pub current_event_id: Option<NarrativeEventId>,
}


// ---------------------------------------------------------------------------
// Laws
// ---------------------------------------------------------------------------

/// A chain never has more completed events than events, so its completed
/// share lies between 0 and 1.
pub proof fn law_completed_never_exceed_events(v: EventChainView)
    requires
        chain_well_formed(v),
    ensures
        v.completed_events.len() <= v.events.len(),
{
    broadcast use vstd::seq_lib::seq_to_set_is_finite;

    let c = v.completed_events;
    c.unique_seq_to_set();
    v.events.lemma_cardinality_of_set();
    assert(c.to_set().subset_of(v.events.to_set())) by {
        assert forall|e: NarrativeEventId| c.to_set().contains(e) implies v.events.to_set().contains(
            e,
        ) by {
            let k = choose|k: int| 0 <= k < c.len() && c[k] == e;
            assert(v.events.contains(c[k]));
        }
    }
    vstd::set_lib::lemma_len_subset(c.to_set(), v.events.to_set());
}

/// Every operation on a chain keeps its completed events among its events,
/// each once.
pub proof fn law_operations_keep_chain_well_formed(
    v: EventChainView,
    id: NarrativeEventId,
    position: usize,
    ids: Seq<NarrativeEventId>,
    now: Timestamp,
)
    requires
        chain_well_formed(v),
    ensures
        chain_well_formed(EventChainView { events: v.events.push(id), updated_at: now, ..v }),
        chain_well_formed(after_insert(v, position as int, id, now)),
        chain_well_formed(after_remove(v, id, now)),
        chain_well_formed(after_reorder(v, ids, now)),
        chain_well_formed(after_complete(v, id, now)),
        chain_well_formed(EventChainView { completed_events: Seq::empty(), ..v }),
{
    let ev = v.events;
    let c = v.completed_events;
    assert forall|i: int| 0 <= i < c.len() implies ev.push(id).contains(#[trigger] c[i]) by {
        let k = choose|k: int| 0 <= k < ev.len() && ev[k] == c[i];
        assert(ev.push(id)[k] == c[i]);
    }
    if position <= ev.len() {
        let position = position as int;
        let ins = ev.insert(position, id);
        assert forall|i: int| 0 <= i < c.len() implies ins.contains(#[trigger] c[i]) by {
            let k = choose|k: int| 0 <= k < ev.len() && ev[k] == c[i];
            if k < position {
                assert(ins[k] == c[i]);
            } else {
                assert(ins[k + 1] == c[i]);
            }
        }
    }
    lemma_removal_keeps_consistency(ev, c, id);
    if !ev.contains(id) {
        lemma_filter_shorter(ev, id);
        assert(after_remove(v, id, now).events == ev);
    }
    lemma_filter_consistent(ids, c, in_events(ids));
    if ev.contains(id) && !c.contains(id) {
        let g = c.push(id);
        assert forall|a: int, b: int|
            0 <= a < g.len() && 0 <= b < g.len() && a != b implies g[a] != g[b] by {
            if a == c.len() {
                assert(g[b] == c[b]);
            } else if b == c.len() {
                assert(g[a] == c[a]);
            } else {
                assert(g[a] == c[a] && g[b] == c[b]);
            }
        }
        assert forall|i: int| 0 <= i < g.len() implies ev.contains(#[trigger] g[i]) by {
            if i < c.len() {
                assert(g[i] == c[i]);
            }
        }
    }
    assert(Seq::<NarrativeEventId>::empty().len() == 0);
}

/// Taking out an id inserted into a sequence that does not hold it gives
/// the sequence back.
pub proof fn lemma_filter_insert_absent(s: Seq<NarrativeEventId>, position: int, id: NarrativeEventId)
    requires
        0 <= position <= s.len(),
        !s.contains(id),
    ensures
        s.insert(position, id).filter(other_event(id)) == s,
{
    let a = s.subrange(0, position);
    let b = s.subrange(position, s.len() as int);
    assert(s.insert(position, id) =~= a + seq![id] + b);
    assert(a + b =~= s);
    assert(!a.contains(id)) by {
        if a.contains(id) {
            let k = choose|k: int| 0 <= k < a.len() && a[k] == id;
            assert(s[k] == id);
        }
    }
    assert(!b.contains(id)) by {
        if b.contains(id) {
            let k = choose|k: int| 0 <= k < b.len() && b[k] == id;
            assert(s[position + k] == id);
        }
    }
    lemma_filter_shorter(a, id);
    lemma_filter_shorter(b, id);
    assert(seq![id].filter(other_event(id)) =~= Seq::<NarrativeEventId>::empty()) by {
        reveal(Seq::filter);
        assert(seq![id].drop_last() =~= Seq::<NarrativeEventId>::empty());
        lemma_filter_shorter(Seq::<NarrativeEventId>::empty(), id);
        assert(seq![id].last() == id);
    }
    Seq::filter_distributes_over_add(a, seq![id], other_event(id));
    Seq::filter_distributes_over_add(a + seq![id], b, other_event(id));
    assert((a + seq![id]).filter(other_event(id)) =~= a);
    assert((a + seq![id] + b).filter(other_event(id)) =~= a + b);
}

/// Inserting an event the chain does not hold and removing it again gives
/// back the same events and the same current position.
#[verifier::spinoff_prover]
pub proof fn law_insert_then_remove_restores(
    v: EventChainView,
    position: int,
    id: NarrativeEventId,
    t1: Timestamp,
    t2: Timestamp,
)
    requires
        0 <= position <= v.events.len(),
        !v.events.contains(id),
        position <= v.current_position ==> v.current_position < u32::MAX,
    ensures
        after_remove(after_insert(v, position, id, t1), id, t2).events == v.events,
        after_remove(after_insert(v, position, id, t1), id, t2).current_position
            == v.current_position,
{
    let w = after_insert(v, position, id, t1);
    let s = v.events;
    let t = s.insert(position, id);
    assert(w.events == t);
    lemma_filter_insert_absent(s, position, id);
    assert(t[position] == id);
    assert forall|j: int| 0 <= j < position implies t[j] != id by {
        assert(t[j] == s[j]);
    }
    assert(first_at(t, id, position));
    assert(t.contains(id));
    assert forall|i: int| #[trigger] first_at(t, id, i) implies i == position by {
        if i > position {
            assert(t[position] == id);
        } else if i < position {
            assert(t[i] == s[i]);
        }
    }
}

/// Completing the current event, when it occurs first at the current
/// position, records it and moves the chain one step on.
pub proof fn law_completing_current_event_advances(v: EventChainView, now: Timestamp)
    requires
        v.current_position < v.events.len(),
        v.events.len() < u32::MAX,
        forall|j: int| 0 <= j < v.current_position ==> #[trigger] v.events[j] != v.events[v.current_position as int],
    ensures
        after_complete(v, v.events[v.current_position as int], now).current_position
            == v.current_position + 1,
        after_complete(v, v.events[v.current_position as int], now).completed_events.contains(
            v.events[v.current_position as int],
        ),
{
    let id = v.events[v.current_position as int];
    assert(first_at(v.events, id, v.current_position as int));
    let c = after_complete(v, id, now).completed_events;
    if !v.completed_events.contains(id) {
        assert(c[c.len() - 1] == id);
    }
}

/// Removing an event the chain does not hold keeps the events and the
/// current position.
pub proof fn law_removing_absent_event_keeps_order(v: EventChainView, id: NarrativeEventId, now: Timestamp)
    requires
        !v.events.contains(id),
    ensures
        after_remove(v, id, now).events == v.events,
        after_remove(v, id, now).current_position == v.current_position,
        !after_remove(v, id, now).completed_events.contains(id),
{
    let c = v.completed_events.filter(other_event(id));
    if c.contains(id) {
        let k = choose|k: int| 0 <= k < c.len() && c[k] == id;
        v.completed_events.lemma_filter_pred(other_event(id), k);
    }
}

/// After removing an event the chain holds it nowhere.
pub proof fn law_removed_event_is_gone(v: EventChainView, id: NarrativeEventId, now: Timestamp)
    ensures
        !after_remove(v, id, now).events.contains(id),
        !after_remove(v, id, now).completed_events.contains(id),
{
    let r = after_remove(v, id, now);
    if v.events.contains(id) && r.events.contains(id) {
        let k = choose|k: int| 0 <= k < r.events.len() && r.events[k] == id;
        v.events.lemma_filter_pred(other_event(id), k);
    }
    if r.completed_events.contains(id) {
        let k = choose|k: int| 0 <= k < r.completed_events.len() && r.completed_events[k] == id;
        v.completed_events.lemma_filter_pred(other_event(id), k);
    }
}

} // verus!
