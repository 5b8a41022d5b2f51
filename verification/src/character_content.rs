//! Character content: the spells, feats and features a character owns,
//! with the uses, preparation and choices that go with them.

use crate::text::{contains_text, opt_as_str, opt_str_text, opt_text, str_eq, texts};
use std::collections::HashMap;
use vstd::prelude::*;

verus! {

broadcast use vstd::std_specs::hash::group_hash_axioms;

// ---------------------------------------------------------------------------
// Choices: text keys to text values
// ---------------------------------------------------------------------------

/// The map that pairs of keys and values stand for: a later pair with the
/// same key replaces an earlier one.
pub open spec fn pairs_map(s: Seq<(Seq<char>, Seq<char>)>) -> Map<Seq<char>, Seq<char>>
    decreases s.len(),
{
    if s.len() == 0 {
        Map::empty()
    } else {
        pairs_map(s.drop_last()).insert(s.last().0, s.last().1)
    }
}

/// `i` is the last position of key `k` in `s`.
pub open spec fn last_key_at(s: Seq<(Seq<char>, Seq<char>)>, k: Seq<char>, i: int) -> bool {
    &&& 0 <= i < s.len()
    &&& s[i].0 == k
    &&& forall|j: int| i < j < s.len() ==> s[j].0 != k
}

/// A key is in the map exactly when some pair holds it, and its value is
/// that of the last such pair.
pub proof fn lemma_pairs_map_lookup(s: Seq<(Seq<char>, Seq<char>)>, k: Seq<char>)
    ensures
        pairs_map(s).contains_key(k) <==> exists|i: int| 0 <= i < s.len() && s[i].0 == k,
        forall|i: int| last_key_at(s, k, i) ==> pairs_map(s)[k] == s[i].1,
    decreases s.len(),
{
    if s.len() > 0 {
        let t = s.drop_last();
        lemma_pairs_map_lookup(t, k);
        if s.last().0 != k {
            assert forall|i: int| last_key_at(s, k, i) implies last_key_at(t, k, i) by {}
            if pairs_map(s).contains_key(k) {
                let i = choose|i: int| 0 <= i < t.len() && t[i].0 == k;
                assert(0 <= i < s.len() && s[i].0 == k);
            }
            if exists|i: int| 0 <= i < s.len() && s[i].0 == k {
                let i = choose|i: int| 0 <= i < s.len() && s[i].0 == k;
                assert(i < t.len());
                assert(t[i].0 == k);
            }
        } else {
            assert(s[s.len() - 1].0 == k);
        }
    }
}

/// Replacing the value of the last pair with key `k` replaces the value of
/// `k` in the map.
pub proof fn lemma_pairs_map_update(
    s: Seq<(Seq<char>, Seq<char>)>,
    k: Seq<char>,
    v: Seq<char>,
    i: int,
)
    requires
        last_key_at(s, k, i),
    ensures
        pairs_map(s.update(i, (k, v))) == pairs_map(s).insert(k, v),
    decreases s.len(),
{
    let u = s.update(i, (k, v));
    if i == s.len() - 1 {
        assert(u.drop_last() =~= s.drop_last());
        assert(pairs_map(u) =~= pairs_map(s).insert(k, v));
    } else {
        let t = s.drop_last();
        assert(u.drop_last() =~= t.update(i, (k, v)));
        lemma_pairs_map_update(t, k, v, i);
        assert(s.last().0 != k);
        assert(pairs_map(u) =~= pairs_map(s).insert(k, v));
    }
}

/// Choices made for a feat or a feature (such as the ability score a feat
/// raises): a map from text keys to text values, each key held once.
#[derive(Debug, PartialEq, Eq)]
pub struct Choices {
    entries: Vec<(String, String)>,
}

/// No two pairs share a key.
pub open spec fn keys_distinct(s: Seq<(Seq<char>, Seq<char>)>) -> bool {
    forall|i: int, j: int| 0 <= i < j < s.len() ==> #[trigger] s[i].0 != #[trigger] s[j].0
}

/// The texts of stored pairs.
pub open spec fn pair_texts(v: Seq<(String, String)>) -> Seq<(Seq<char>, Seq<char>)> {
    v.map_values(|p: (String, String)| (p.0@, p.1@))
}

impl View for Choices {
    type V = Map<Seq<char>, Seq<char>>;

    closed spec fn view(&self) -> Map<Seq<char>, Seq<char>> {
        pairs_map(pair_texts(self.entries@))
    }
}

impl Clone for Choices {
    fn clone(&self) -> (c: Self)
        ensures
            c@ == self@,
    {
        proof {
            use_type_invariant(self);
        }
        let ghost all = pair_texts(self.entries@);
        let mut entries: Vec<(String, String)> = Vec::new();
        for i in 0..self.entries.len()
            invariant
                all == pair_texts(self.entries@),
                keys_distinct(all),
                pair_texts(entries@) == all.take(i as int),
        {
            let k = self.entries[i].0.clone();
            let v = self.entries[i].1.clone();
            let ghost prev = entries@;
            entries.push((k, v));
            assert(all[i as int] == (k@, v@));
            assert(entries@ == prev.push((k, v)));
            assert(pair_texts(entries@) =~= pair_texts(prev).push((k@, v@)));
            assert(all.take(i + 1) =~= all.take(i as int).push(all[i as int]));
        }
        assert(all.take(all.len() as int) =~= all);
        Choices { entries }
    }
}

impl Choices {
    /// Each key is held by one entry only.
    #[verifier::type_invariant]
    closed spec fn well_formed(self) -> bool {
        keys_distinct(pair_texts(self.entries@))
    }

    /// No choices.
    pub fn new() -> (c: Self)
        ensures
            c@ == Map::<Seq<char>, Seq<char>>::empty(),
    {
        let entries: Vec<(String, String)> = Vec::new();
        assert(pair_texts(entries@).len() == 0);
        Choices { entries }
    }

    /// The position of the last entry with key `key`, if any.
    fn position(&self, key: &str) -> (r: Option<usize>)
        ensures
            match r {
                Some(i) => last_key_at(pair_texts(self.entries@), key@, i as int),
                None => forall|j: int|
                    0 <= j < self.entries@.len() ==> pair_texts(self.entries@)[j].0 != key@,
            },
    {
        let ghost s = pair_texts(self.entries@);
        let mut j = self.entries.len();
        while j > 0
            invariant
                j <= self.entries@.len(),
                s == pair_texts(self.entries@),
                forall|m: int| j <= m < s.len() ==> s[m].0 != key@,
            decreases j,
        {
            if str_eq(self.entries[j - 1].0.as_str(), key) {
                return Some(j - 1);
            }
            j = j - 1;
        }
        None
    }

    /// The value chosen for `key`, if any.
    pub fn get(&self, key: &str) -> (r: Option<&String>)
        ensures
            match r {
                Some(v) => self@.contains_key(key@) && v@ == self@[key@],
                None => !self@.contains_key(key@),
            },
    {
        proof {
            lemma_pairs_map_lookup(pair_texts(self.entries@), key@);
        }
        match self.position(key) {
            Some(i) => Some(&self.entries[i].1),
            None => None,
        }
    }

    /// Sets the value chosen for `key`.
    pub fn insert(&mut self, key: String, value: String)
        ensures
            final(self)@ == old(self)@.insert(key@, value@),
    {
        proof {
            use_type_invariant(&*self);
        }
        let ghost before = self.entries@;
        let found = self.position(key.as_str());
        let mut entries: Vec<(String, String)> = Vec::new();
        std::mem::swap(&mut entries, &mut self.entries);
        match found {
            Some(i) => {
                proof {
                    lemma_pairs_map_update(pair_texts(before), key@, value@, i as int);
                }
                entries.set(i, (key, value));
                assert(pair_texts(entries@) =~= pair_texts(before).update(i as int, (key@, value@)));
                assert(forall|j: int|
                    0 <= j < before.len() ==> #[trigger] pair_texts(entries@)[j].0 == pair_texts(
                        before,
                    )[j].0);
            },
            None => {
                entries.push((key, value));
                assert(pair_texts(entries@).drop_last() =~= pair_texts(before));
                assert(forall|j: int|
                    0 <= j < before.len() ==> #[trigger] pair_texts(entries@)[j].0 == pair_texts(
                        before,
                    )[j].0);
            },
        }
        self.entries = entries;
    }
}


// ---------------------------------------------------------------------------
// Spell slots
// ---------------------------------------------------------------------------

/// A pool of spell slots at one level.
#[derive(Debug, Copy, PartialEq, Eq)]
pub struct SpellSlotPool {
    current: u8,
    max: u8,
}

/// Abstract state of a slot pool.
pub ghost struct SlotCount {
    pub current: u8,
    pub max: u8,
}

impl View for SpellSlotPool {
    type V = SlotCount;

    closed spec fn view(&self) -> SlotCount {
        SlotCount { current: self.current, max: self.max }
    }
}

impl Clone for SpellSlotPool {
    fn clone(&self) -> (r: Self)
        ensures
            r == *self,
    {
        *self
    }
}

impl SpellSlotPool {
    /// Never more slots available than the maximum.
    #[verifier::type_invariant]
    spec fn within_max(self) -> bool {
        self.current <= self.max
    }

    /// A full pool of `max` slots.
    pub fn new(max: u8) -> (p: Self)
        ensures
            p@ == (SlotCount { current: max, max }),
    {
        SpellSlotPool { current: max, max }
    }

    /// A pool of `max` slots with none available.
    pub fn empty(max: u8) -> (p: Self)
        ensures
            p@ == (SlotCount { current: 0, max }),
    {
        SpellSlotPool { current: 0, max }
    }

    pub fn current(&self) -> (r: u8)
        ensures
            r == self@.current,
            r <= self@.max,
    {
        proof {
            use_type_invariant(self);
        }
        self.current
    }

    pub fn max(&self) -> (r: u8)
        ensures
            r == self@.max,
    {
        self.max
    }

    /// Whether any slot is available.
    pub fn has_slots(&self) -> (b: bool)
        ensures
            b == (self@.current > 0),
    {
        self.current > 0
    }

    /// Spends one slot, if one is available.
    pub fn use_slot(&mut self)
        ensures
            final(self)@ == (if old(self)@.current > 0 {
                SlotCount { current: (old(self)@.current - 1) as u8, max: old(self)@.max }
            } else {
                old(self)@
            }),
    {
        proof {
            use_type_invariant(&*self);
        }
        if self.current > 0 {
            self.current = self.current - 1;
        }
    }

    /// Makes every slot available again.
    pub fn restore_all(&mut self)
        ensures
            final(self)@ == (SlotCount { current: old(self)@.max, max: old(self)@.max }),
    {
        self.current = self.max;
    }

    /// Makes `amount` more slots available, never more than the maximum.
    pub fn restore(&mut self, amount: u8)
        requires
            old(self)@.current + amount <= u8::MAX,
        ensures
            final(self)@ == (SlotCount {
                current: min_u8((old(self)@.current + amount) as u8, old(self)@.max),
                max: old(self)@.max,
            }),
    {
        let total = self.current + amount;
        self.current = if total < self.max { total } else { self.max };
    }
}

/// The smaller of two bytes.
pub open spec fn min_u8(a: u8, b: u8) -> u8 {
    if a < b { a } else { b }
}

// ---------------------------------------------------------------------------
// Known spells
// ---------------------------------------------------------------------------

/// A spell that the character knows.
#[derive(Debug, Clone, PartialEq, Eq)]
pub struct KnownSpell {
    spell_id: String,
    source: String,
    notes: Option<String>,
}

/// Abstract state of a known spell.
pub ghost struct KnownSpellView {
    pub spell_id: Seq<char>,
    pub source: Seq<char>,
    pub notes: Option<Seq<char>>,
}

impl View for KnownSpell {
    type V = KnownSpellView;

    closed spec fn view(&self) -> KnownSpellView {
        KnownSpellView {
            spell_id: self.spell_id@,
            source: self.source@,
            notes: opt_text(self.notes),
        }
    }
}

impl KnownSpell {
    /// A spell known from `source` (such as "class", "feat" or "item"),
    /// without notes.
    pub fn new(spell_id: &str, source: &str) -> (k: Self)
        ensures
            k@ == (KnownSpellView { spell_id: spell_id@, source: source@, notes: None }),
    {
        KnownSpell { spell_id: spell_id.to_owned(), source: source.to_owned(), notes: None }
    }

    pub fn spell_id(&self) -> (r: &str)
        ensures
            r@ == self@.spell_id,
    {
        self.spell_id.as_str()
    }

    pub fn source(&self) -> (r: &str)
        ensures
            r@ == self@.source,
    {
        self.source.as_str()
    }

    pub fn notes(&self) -> (r: Option<&str>)
        ensures
            opt_str_text(r) == self@.notes,
    {
        opt_as_str(&self.notes)
    }

    /// This spell with the given notes.
    pub fn with_notes(self, notes: &str) -> (k: Self)
        ensures
            k@ == (KnownSpellView { notes: Some(notes@), ..self@ }),
    {
        KnownSpell { notes: Some(notes.to_owned()), ..self }
    }
}

/// The abstract states of known spells.
pub open spec fn known_views(v: Seq<KnownSpell>) -> Seq<KnownSpellView> {
    v.map_values(|k: KnownSpell| k@)
}


// ---------------------------------------------------------------------------
// Spellcasting
// ---------------------------------------------------------------------------

/// The abstract states of the pools in a slot map.
pub open spec fn slot_counts(m: Map<u8, SpellSlotPool>) -> Map<u8, SlotCount> {
    m.map_values(|p: SpellSlotPool| p@)
}

/// The abstract state of an optional pool.
pub open spec fn opt_count(o: Option<SpellSlotPool>) -> Option<SlotCount> {
    match o {
        Some(p) => Some(p@),
        None => None,
    }
}

/// A pool with every slot available.
pub open spec fn refilled(c: SlotCount) -> SlotCount {
    SlotCount { current: c.max, max: c.max }
}

/// A pool with one slot spent.
pub open spec fn spent(c: SlotCount) -> SlotCount {
    SlotCount { current: (c.current - 1) as u8, max: c.max }
}

/// Slot recovery: from `level` down to level 1, each pool gets back as many
/// slots as it lacks and as the remaining budget pays for, a slot of level
/// `l` costing `l`; recovery stops when the budget is spent.
pub open spec fn recovered(m: Map<u8, SlotCount>, level: int, remaining: int) -> Map<u8, SlotCount>
    decreases level,
{
    if level < 1 || remaining <= 0 {
        m
    } else if m.contains_key(level as u8) {
        let c = m[level as u8];
        let room = c.max - c.current;
        let share = remaining / level;
        let amount = if room < share { room } else { share };
        recovered(
            m.insert(level as u8, SlotCount { current: (c.current + amount) as u8, max: c.max }),
            level - 1,
            remaining - amount * level,
        )
    } else {
        recovered(m, level - 1, remaining)
    }
}

/// Whether a spell with this id is among the known spells.
pub open spec fn knows_spell(known: Seq<KnownSpellView>, spell_id: Seq<char>) -> bool {
    exists|i: int| 0 <= i < known.len() && known[i].spell_id == spell_id
}

/// The test "differs from `x`".
pub open spec fn other_than(x: Seq<char>) -> spec_fn(Seq<char>) -> bool {
    |t: Seq<char>| t != x
}

/// Text sequence with one more entry, unless it already holds it.
pub open spec fn with_text(s: Seq<Seq<char>>, t: Seq<char>) -> Seq<Seq<char>> {
    if s.contains(t) {
        s
    } else {
        s.push(t)
    }
}

/// A character's spellcasting data.
#[derive(Debug, Clone, PartialEq)]
pub struct CharacterSpells {
    cantrips: Vec<String>,
    known: Vec<KnownSpell>,
    prepared: Vec<String>,
    slots: HashMap<u8, SpellSlotPool>,
    pact_slots: Option<SpellSlotPool>,
    spellcasting_ability: Option<String>,
}

/// Abstract state of a character's spellcasting data.
pub ghost struct CharacterSpellsView {
    /// Cantrips the character knows.
    pub cantrips: Seq<Seq<char>>,
    /// Spells the character knows (for known-spell casters).
    pub known: Seq<KnownSpellView>,
    /// Currently prepared spell ids.
    pub prepared: Seq<Seq<char>>,
    /// Spell slots by level.
    pub slots: Map<u8, SlotCount>,
    /// Pact magic slots.
    pub pact_slots: Option<SlotCount>,
    /// Primary spellcasting ability (such as "INT").
    pub spellcasting_ability: Option<Seq<char>>,
}

impl View for CharacterSpells {
    type V = CharacterSpellsView;

    closed spec fn view(&self) -> CharacterSpellsView {
        CharacterSpellsView {
            cantrips: texts(self.cantrips@),
            known: known_views(self.known@),
            prepared: texts(self.prepared@),
            slots: slot_counts(self.slots@),
            pact_slots: opt_count(self.pact_slots),
            spellcasting_ability: opt_text(self.spellcasting_ability),
        }
    }
}

/// The state of a character with no spellcasting at all.
pub open spec fn no_spells() -> CharacterSpellsView {
    CharacterSpellsView {
        cantrips: Seq::empty(),
        known: Seq::empty(),
        prepared: Seq::empty(),
        slots: Map::empty(),
        pact_slots: None,
        spellcasting_ability: None,
    }
}

/// Refills every pool of a slot map.
fn refill_slots(slots: &mut HashMap<u8, SpellSlotPool>)
    ensures
        slot_counts(final(slots)@) == slot_counts(old(slots)@).map_values(
            |c: SlotCount| refilled(c),
        ),
{
    let ghost start = slots@;
    let mut l: u16 = 0;
    while l < 256
        invariant
            l <= 256,
            slots@.dom() == start.dom(),
            forall|k: u8|
                #![trigger slots@[k]]
                slots@.contains_key(k) ==> (k < l ==> slots@[k]@ == refilled(start[k]@)) && (k
                    >= l ==> slots@[k] == start[k]),
        decreases 256 - l,
    {
        let key = l as u8;
        let found: Option<SpellSlotPool> = match slots.get(&key) {
            Some(p) => Some(*p),
            None => None,
        };
        if let Some(mut pool) = found {
            pool.restore_all();
            slots.insert(key, pool);
        }
        l = l + 1;
    }
    assert(slot_counts(slots@) =~= slot_counts(start).map_values(|c: SlotCount| refilled(c)));
}

/// Recovers slots of a slot map as `recovered` describes.
fn recover_slots(slots: &mut HashMap<u8, SpellSlotPool>, max_level: u8, total_levels: u8)
    ensures
        slot_counts(final(slots)@) == recovered(
            slot_counts(old(slots)@),
            max_level as int,
            total_levels as int,
        ),
{
    let ghost goal = recovered(slot_counts(slots@), max_level as int, total_levels as int);
    let mut level: u8 = max_level;
    let mut remaining: u8 = total_levels;
    while level >= 1 && remaining > 0
        invariant
            goal == recovered(slot_counts(slots@), level as int, remaining as int),
        decreases level,
    {
        let found: Option<SpellSlotPool> = match slots.get(&level) {
            Some(p) => Some(*p),
            None => None,
        };
        if let Some(mut pool) = found {
            proof {
                use_type_invariant(&pool);
            }
            let room = pool.max() - pool.current();
            let share = remaining / level;
            let amount = if room < share { room } else { share };
            assert(amount * level <= remaining) by (nonlinear_arith)
                requires
                    amount <= share,
                    share == remaining / level,
                    level >= 1,
            ;
            pool.restore(amount);
            let ghost before = slots@;
            slots.insert(level, pool);
            assert(slot_counts(slots@) =~= slot_counts(before).insert(level, pool@));
            remaining = remaining - amount * level;
        }
        level = level - 1;
    }
}

impl Default for CharacterSpells {
    fn default() -> (s: Self)
        ensures
            s@ == no_spells(),
    {
        CharacterSpells::new()
    }
}

impl CharacterSpells {
    /// Spellcasting data with nothing known, prepared or slotted.
    pub fn new() -> (s: Self)
        ensures
            s@ == no_spells(),
    {
        let s = CharacterSpells {
            cantrips: Vec::new(),
            known: Vec::new(),
            prepared: Vec::new(),
            slots: HashMap::new(),
            pact_slots: None,
            spellcasting_ability: None,
        };
        assert(s@.cantrips =~= Seq::empty());
        assert(s@.known =~= Seq::empty());
        assert(s@.prepared =~= Seq::empty());
        assert(s@.slots =~= Map::empty());
        s
    }

    pub fn cantrips(&self) -> (r: &[String])
        ensures
            texts(r@) == self@.cantrips,
    {
        self.cantrips.as_slice()
    }

    pub fn known(&self) -> (r: &[KnownSpell])
        ensures
            known_views(r@) == self@.known,
    {
        self.known.as_slice()
    }

    pub fn prepared(&self) -> (r: &[String])
        ensures
            texts(r@) == self@.prepared,
    {
        self.prepared.as_slice()
    }

    pub fn slots(&self) -> (r: &HashMap<u8, SpellSlotPool>)
        ensures
            slot_counts(r@) == self@.slots,
    {
        &self.slots
    }

    /// Mutable access to the slot pools; the other parts stay as they are.
    pub fn slots_mut(&mut self) -> (r: &mut HashMap<u8, SpellSlotPool>)
        ensures
            slot_counts(r@) == old(self)@.slots,
            final(self)@ == (CharacterSpellsView { slots: slot_counts(final(r)@), ..old(self)@ }),
    {
        &mut self.slots
    }

    pub fn pact_slots(&self) -> (r: Option<&SpellSlotPool>)
        ensures
            match r {
                Some(p) => self@.pact_slots == Some(p@),
                None => self@.pact_slots is None,
            },
    {
        match &self.pact_slots {
            Some(p) => Some(p),
            None => None,
        }
    }

    pub fn spellcasting_ability(&self) -> (r: Option<&str>)
        ensures
            opt_str_text(r) == self@.spellcasting_ability,
    {
        opt_as_str(&self.spellcasting_ability)
    }

    /// This data with the given pact magic slots.
    pub fn with_pact_slots(self, pact_slots: SpellSlotPool) -> (s: Self)
        ensures
            s@ == (CharacterSpellsView { pact_slots: Some(pact_slots@), ..self@ }),
    {
        CharacterSpells { pact_slots: Some(pact_slots), ..self }
    }

    /// This data with the given spellcasting ability.
    pub fn with_spellcasting_ability(self, ability: &str) -> (s: Self)
        ensures
            s@ == (CharacterSpellsView { spellcasting_ability: Some(ability@), ..self@ }),
    {
        CharacterSpells { spellcasting_ability: Some(ability.to_owned()), ..self }
    }

    /// Adds a cantrip, unless it is already known.
    pub fn add_cantrip(&mut self, spell_id: &str)
        ensures
            final(self)@ == (CharacterSpellsView {
                cantrips: with_text(old(self)@.cantrips, spell_id@),
                ..old(self)@
            }),
    {
        if !contains_text(&self.cantrips, spell_id) {
            let ghost before = self.cantrips@;
            self.cantrips.push(spell_id.to_owned());
            assert(texts(self.cantrips@) =~= texts(before).push(spell_id@));
        }
    }

    /// Learns a spell from `source`, unless a spell with that id is already
    /// known.
    pub fn learn_spell(&mut self, spell_id: &str, source: &str)
        ensures
            final(self)@ == (CharacterSpellsView {
                known: if knows_spell(old(self)@.known, spell_id@) {
                    old(self)@.known
                } else {
                    old(self)@.known.push(
                        KnownSpellView { spell_id: spell_id@, source: source@, notes: None },
                    )
                },
                ..old(self)@
            }),
    {
        let spell = KnownSpell::new(spell_id, source);
        let mut i: usize = 0;
        while i < self.known.len()
            invariant
                i <= self.known@.len(),
                forall|m: int| 0 <= m < i ==> known_views(self.known@)[m].spell_id != spell_id@,
            decreases self.known@.len() - i,
        {
            if str_eq(self.known[i].spell_id(), spell_id) {
                assert(known_views(self.known@)[i as int].spell_id == spell_id@);
                return;
            }
            i = i + 1;
        }
        let ghost before = self.known@;
        self.known.push(spell);
        assert(known_views(self.known@) =~= known_views(before).push(spell@));
    }

    /// Prepares a spell, unless it is already prepared.
    pub fn prepare_spell(&mut self, spell_id: &str)
        ensures
            final(self)@ == (CharacterSpellsView {
                prepared: with_text(old(self)@.prepared, spell_id@),
                ..old(self)@
            }),
    {
        if !contains_text(&self.prepared, spell_id) {
            let ghost before = self.prepared@;
            self.prepared.push(spell_id.to_owned());
            assert(texts(self.prepared@) =~= texts(before).push(spell_id@));
        }
    }

    /// Unprepares a spell: every prepared entry with that id goes.
    pub fn unprepare_spell(&mut self, spell_id: &str)
        ensures
            final(self)@ == (CharacterSpellsView {
                prepared: old(self)@.prepared.filter(other_than(spell_id@)),
                ..old(self)@
            }),
    {
        let ghost all = texts(self.prepared@);
        let mut kept: Vec<String> = Vec::new();
        for i in 0..self.prepared.len()
            invariant
                all == texts(self.prepared@),
                texts(kept@) == all.take(i as int).filter(other_than(spell_id@)),
        {
            assert(all.take(i + 1).drop_last() =~= all.take(i as int));
            assert(all.take(i + 1).last() == all[i as int]);
            proof {
                reveal(Seq::filter);
            }
            if !str_eq(self.prepared[i].as_str(), spell_id) {
                let ghost before = kept@;
                kept.push(self.prepared[i].clone());
                assert(texts(kept@) =~= texts(before).push(all[i as int]));
            }
        }
        assert(all.take(all.len() as int) =~= all);
        self.prepared = kept;
    }

    /// Spends a slot of `level`; false when there is no pool of that level or
    /// it has no slot left.
    pub fn use_slot(&mut self, level: u8) -> (used: bool)
        ensures
            used == (old(self)@.slots.contains_key(level) && old(self)@.slots[level].current > 0),
            final(self)@ == (if used {
                CharacterSpellsView {
                    slots: old(self)@.slots.insert(level, spent(old(self)@.slots[level])),
                    ..old(self)@
                }
            } else {
                old(self)@
            }),
    {
        let found: Option<SpellSlotPool> = match self.slots.get(&level) {
            Some(p) => Some(*p),
            None => None,
        };
        if let Some(mut pool) = found {
            if pool.current() > 0 {
                pool.use_slot();
                let ghost before = self.slots@;
                self.slots.insert(level, pool);
                assert(slot_counts(self.slots@) =~= slot_counts(before).insert(level, pool@));
                return true;
            }
        }
        false
    }

    /// Refills every slot pool, pact slots included (as after a long rest).
    pub fn restore_all_slots(&mut self)
        ensures
            final(self)@ == (CharacterSpellsView {
                slots: old(self)@.slots.map_values(|c: SlotCount| refilled(c)),
                pact_slots: match old(self)@.pact_slots {
                    Some(c) => Some(refilled(c)),
                    None => None,
                },
                ..old(self)@
            }),
    {
        refill_slots(&mut self.slots);
        if let Some(mut pact) = self.pact_slots {
            pact.restore_all();
            self.pact_slots = Some(pact);
        }
    }

    /// Recovers slots from `max_level` downwards for a budget of
    /// `total_levels` slot levels (as Arcane Recovery does).
    pub fn restore_slots_up_to(&mut self, max_level: u8, total_levels: u8)
        ensures
            final(self)@ == (CharacterSpellsView {
                slots: recovered(old(self)@.slots, max_level as int, total_levels as int),
                ..old(self)@
            }),
    {
        recover_slots(&mut self.slots, max_level, total_levels);
    }
}


// ---------------------------------------------------------------------------
// Feats
// ---------------------------------------------------------------------------

/// A feat that the character has acquired.
#[derive(Debug, Clone, PartialEq, Eq)]
pub struct AcquiredFeat {
    feat_id: String,
    acquired_at_level: Option<u8>,
    choices: Choices,
    notes: Option<String>,
}

/// Abstract state of an acquired feat.
pub ghost struct AcquiredFeatView {
    pub feat_id: Seq<char>,
    /// Level at which the feat was acquired.
    pub acquired_at_level: Option<u8>,
    /// Choices made when acquiring the feat (such as the stat to increase).
    pub choices: Map<Seq<char>, Seq<char>>,
    pub notes: Option<Seq<char>>,
}

impl View for AcquiredFeat {
    type V = AcquiredFeatView;

    closed spec fn view(&self) -> AcquiredFeatView {
        AcquiredFeatView {
            feat_id: self.feat_id@,
            acquired_at_level: self.acquired_at_level,
            choices: self.choices@,
            notes: opt_text(self.notes),
        }
    }
}

impl AcquiredFeat {
    /// A feat acquired at the given level, with no choices or notes.
    pub fn new(feat_id: &str, acquired_at_level: Option<u8>) -> (f: Self)
        ensures
            f@ == (AcquiredFeatView {
                feat_id: feat_id@,
                acquired_at_level,
                choices: Map::empty(),
                notes: None,
            }),
    {
        AcquiredFeat {
            feat_id: feat_id.to_owned(),
            acquired_at_level,
            choices: Choices::new(),
            notes: None,
        }
    }

    pub fn feat_id(&self) -> (r: &str)
        ensures
            r@ == self@.feat_id,
    {
        self.feat_id.as_str()
    }

    pub fn acquired_at_level(&self) -> (r: Option<u8>)
        ensures
            r == self@.acquired_at_level,
    {
        self.acquired_at_level
    }

    pub fn choices(&self) -> (r: &Choices)
        ensures
            r@ == self@.choices,
    {
        &self.choices
    }

    /// Mutable access to the choices; the rest stays as it is.
    pub fn choices_mut(&mut self) -> (r: &mut Choices)
        ensures
            r@ == old(self)@.choices,
            final(self)@ == (AcquiredFeatView { choices: final(r)@, ..old(self)@ }),
    {
        &mut self.choices
    }

    pub fn notes(&self) -> (r: Option<&str>)
        ensures
            opt_str_text(r) == self@.notes,
    {
        opt_as_str(&self.notes)
    }

    /// This feat with the given notes.
    pub fn with_notes(self, notes: &str) -> (f: Self)
        ensures
            f@ == (AcquiredFeatView { notes: Some(notes@), ..self@ }),
    {
        AcquiredFeat { notes: Some(notes.to_owned()), ..self }
    }

    /// This feat with `value` chosen for `key`.
    pub fn with_choice(self, key: &str, value: &str) -> (f: Self)
        ensures
            f@ == (AcquiredFeatView { choices: self@.choices.insert(key@, value@), ..self@ }),
    {
        let mut f = self;
        f.choices.insert(key.to_owned(), value.to_owned());
        f
    }
}

/// The abstract states of acquired feats.
pub open spec fn feat_views(v: Seq<AcquiredFeat>) -> Seq<AcquiredFeatView> {
    v.map_values(|f: AcquiredFeat| f@)
}

/// Whether a feat with this id is among `feats`.
pub open spec fn has_feat_id(feats: Seq<AcquiredFeatView>, feat_id: Seq<char>) -> bool {
    exists|i: int| 0 <= i < feats.len() && feats[i].feat_id == feat_id
}

/// `i` is the first position of a feat with this id.
pub open spec fn first_feat_at(feats: Seq<AcquiredFeatView>, feat_id: Seq<char>, i: int) -> bool {
    &&& 0 <= i < feats.len()
    &&& feats[i].feat_id == feat_id
    &&& forall|j: int| 0 <= j < i ==> feats[j].feat_id != feat_id
}

/// A character's acquired feats.
#[derive(Debug, Clone, PartialEq, Eq)]
pub struct CharacterFeats {
    feats: Vec<AcquiredFeat>,
}

impl View for CharacterFeats {
    type V = Seq<AcquiredFeatView>;

    closed spec fn view(&self) -> Seq<AcquiredFeatView> {
        feat_views(self.feats@)
    }
}

impl Default for CharacterFeats {
    fn default() -> (f: Self)
        ensures
            f@ == Seq::<AcquiredFeatView>::empty(),
    {
        CharacterFeats::new()
    }
}

impl CharacterFeats {
    /// No feats.
    pub fn new() -> (f: Self)
        ensures
            f@ == Seq::<AcquiredFeatView>::empty(),
    {
        let f = CharacterFeats { feats: Vec::new() };
        assert(f@ =~= Seq::<AcquiredFeatView>::empty());
        f
    }

    pub fn feats(&self) -> (r: &[AcquiredFeat])
        ensures
            feat_views(r@) == self@,
    {
        self.feats.as_slice()
    }

    /// Acquires a feat at the given level (a feat may be acquired more than
    /// once).
    pub fn acquire(&mut self, feat_id: &str, level: Option<u8>)
        ensures
            final(self)@ == old(self)@.push(
                AcquiredFeatView {
                    feat_id: feat_id@,
                    acquired_at_level: level,
                    choices: Map::empty(),
                    notes: None,
                },
            ),
    {
        let feat = AcquiredFeat::new(feat_id, level);
        let ghost before = self.feats@;
        self.feats.push(feat);
        assert(feat_views(self.feats@) =~= feat_views(before).push(feat@));
    }

    /// The position of the first feat with this id.
    fn position(&self, feat_id: &str) -> (r: Option<usize>)
        ensures
            match r {
                Some(i) => first_feat_at(self@, feat_id@, i as int),
                None => !has_feat_id(self@, feat_id@),
            },
    {
        for i in 0..self.feats.len()
            invariant
                forall|j: int| 0 <= j < i ==> self@[j].feat_id != feat_id@,
        {
            if str_eq(self.feats[i].feat_id(), feat_id) {
                return Some(i);
            }
        }
        None
    }

    /// Whether the character has a feat with this id.
    pub fn has_feat(&self, feat_id: &str) -> (b: bool)
        ensures
            b == has_feat_id(self@, feat_id@),
    {
        self.position(feat_id).is_some()
    }

    /// The first feat with this id, to change in place.
    pub fn get_mut(&mut self, feat_id: &str) -> (r: Option<&mut AcquiredFeat>)
        ensures
            r is Some <==> has_feat_id(old(self)@, feat_id@),
            match r {
                Some(f) => forall|i: int|
                    first_feat_at(old(self)@, feat_id@, i) ==> f@ == old(self)@[i] && final(self)@
                        == old(self)@.update(i, final(f)@),
                None => final(self)@ == old(self)@,
            },
    {
        match self.position(feat_id) {
            Some(i) => {
                let f = &mut self.feats[i];
                Some(f)
            },
            None => None,
        }
    }
}


// ---------------------------------------------------------------------------
// Class features
// ---------------------------------------------------------------------------

/// A class feature that the character has active.
#[derive(Debug, Clone, PartialEq, Eq)]
pub struct ActiveFeature {
    feature_id: String,
    uses_remaining: Option<u8>,
    uses_max: Option<u8>,
    choices: Choices,
}

/// Abstract state of an active feature.
pub ghost struct ActiveFeatureView {
    pub feature_id: Seq<char>,
    /// Uses left, where uses are counted.
    pub uses_remaining: Option<u8>,
    /// Maximum uses, where uses are counted.
    pub uses_max: Option<u8>,
    pub choices: Map<Seq<char>, Seq<char>>,
}

impl View for ActiveFeature {
    type V = ActiveFeatureView;

    closed spec fn view(&self) -> ActiveFeatureView {
        ActiveFeatureView {
            feature_id: self.feature_id@,
            uses_remaining: self.uses_remaining,
            uses_max: self.uses_max,
            choices: self.choices@,
        }
    }
}

/// Whether a feature can be used now: uncounted uses are unlimited.
pub open spec fn can_use(f: ActiveFeatureView) -> bool {
    match f.uses_remaining {
        Some(u) => u > 0,
        None => true,
    }
}

/// A feature after one use: a counted use is spent where one is left.
pub open spec fn after_use(f: ActiveFeatureView) -> ActiveFeatureView {
    match f.uses_remaining {
        Some(u) => if u > 0 {
            ActiveFeatureView { uses_remaining: Some((u - 1) as u8), ..f }
        } else {
            f
        },
        None => f,
    }
}

/// A feature with its counted uses restored to the maximum.
pub open spec fn uses_restored(f: ActiveFeatureView) -> ActiveFeatureView {
    match (f.uses_remaining, f.uses_max) {
        (Some(_), Some(m)) => ActiveFeatureView { uses_remaining: Some(m), ..f },
        _ => f,
    }
}

impl ActiveFeature {
    /// A feature with uncounted uses and no choices.
    pub fn new(feature_id: &str) -> (f: Self)
        ensures
            f@ == (ActiveFeatureView {
                feature_id: feature_id@,
                uses_remaining: None,
                uses_max: None,
                choices: Map::empty(),
            }),
    {
        ActiveFeature {
            feature_id: feature_id.to_owned(),
            uses_remaining: None,
            uses_max: None,
            choices: Choices::new(),
        }
    }

    pub fn feature_id(&self) -> (r: &str)
        ensures
            r@ == self@.feature_id,
    {
        self.feature_id.as_str()
    }

    pub fn uses_remaining(&self) -> (r: Option<u8>)
        ensures
            r == self@.uses_remaining,
    {
        self.uses_remaining
    }

    pub fn uses_max(&self) -> (r: Option<u8>)
        ensures
            r == self@.uses_max,
    {
        self.uses_max
    }

    pub fn choices(&self) -> (r: &Choices)
        ensures
            r@ == self@.choices,
    {
        &self.choices
    }

    /// Mutable access to the choices; the rest stays as it is.
    pub fn choices_mut(&mut self) -> (r: &mut Choices)
        ensures
            r@ == old(self)@.choices,
            final(self)@ == (ActiveFeatureView { choices: final(r)@, ..old(self)@ }),
    {
        &mut self.choices
    }

    /// This feature with counted uses.
    pub fn with_uses(self, remaining: u8, max: u8) -> (f: Self)
        ensures
            f@ == (ActiveFeatureView {
                uses_remaining: Some(remaining),
                uses_max: Some(max),
                ..self@
            }),
    {
        ActiveFeature { uses_remaining: Some(remaining), uses_max: Some(max), ..self }
    }

    /// This feature with `value` chosen for `key`.
    pub fn with_choice(self, key: &str, value: &str) -> (f: Self)
        ensures
            f@ == (ActiveFeatureView { choices: self@.choices.insert(key@, value@), ..self@ }),
    {
        let mut f = self;
        f.choices.insert(key.to_owned(), value.to_owned());
        f
    }

    /// Uses the feature once: true when it could be used.
    pub fn use_once(&mut self) -> (used: bool)
        ensures
            used == can_use(old(self)@),
            final(self)@ == after_use(old(self)@),
    {
        match self.uses_remaining {
            Some(uses) => {
                if uses > 0 {
                    self.uses_remaining = Some(uses - 1);
                    true
                } else {
                    false
                }
            },
            None => true,
        }
    }

    /// Restores counted uses to the maximum.
    pub fn restore_uses(&mut self)
        ensures
            final(self)@ == uses_restored(old(self)@),
    {
        if let (Some(_), Some(max)) = (self.uses_remaining, self.uses_max) {
            self.uses_remaining = Some(max);
        }
    }
}

/// The abstract states of active features.
pub open spec fn feature_views(v: Seq<ActiveFeature>) -> Seq<ActiveFeatureView> {
    v.map_values(|f: ActiveFeature| f@)
}

/// Whether a feature with this id is among `features`.
pub open spec fn has_feature_id(features: Seq<ActiveFeatureView>, feature_id: Seq<char>) -> bool {
    exists|i: int| 0 <= i < features.len() && features[i].feature_id == feature_id
}

/// `i` is the first position of a feature with this id.
pub open spec fn first_feature_at(
    features: Seq<ActiveFeatureView>,
    feature_id: Seq<char>,
    i: int,
) -> bool {
    &&& 0 <= i < features.len()
    &&& features[i].feature_id == feature_id
    &&& forall|j: int| 0 <= j < i ==> features[j].feature_id != feature_id
}

/// A character's active class features.
#[derive(Debug, Clone, PartialEq, Eq)]
pub struct CharacterFeatures {
    features: Vec<ActiveFeature>,
}

impl View for CharacterFeatures {
    type V = Seq<ActiveFeatureView>;

    closed spec fn view(&self) -> Seq<ActiveFeatureView> {
        feature_views(self.features@)
    }
}

impl Default for CharacterFeatures {
    fn default() -> (f: Self)
        ensures
            f@ == Seq::<ActiveFeatureView>::empty(),
    {
        CharacterFeatures::new()
    }
}

impl CharacterFeatures {
    /// No features.
    pub fn new() -> (f: Self)
        ensures
            f@ == Seq::<ActiveFeatureView>::empty(),
    {
        let f = CharacterFeatures { features: Vec::new() };
        assert(f@ =~= Seq::<ActiveFeatureView>::empty());
        f
    }

    pub fn features(&self) -> (r: &[ActiveFeature])
        ensures
            feature_views(r@) == self@,
    {
        self.features.as_slice()
    }

    /// Adds a feature with uncounted uses.
    pub fn add(&mut self, feature_id: &str)
        ensures
            final(self)@ == old(self)@.push(
                ActiveFeatureView {
                    feature_id: feature_id@,
                    uses_remaining: None,
                    uses_max: None,
                    choices: Map::empty(),
                },
            ),
    {
        let feature = ActiveFeature::new(feature_id);
        let ghost before = self.features@;
        self.features.push(feature);
        assert(feature_views(self.features@) =~= feature_views(before).push(feature@));
    }

    /// Adds a feature with `max_uses` uses, all available.
    pub fn add_with_uses(&mut self, feature_id: &str, max_uses: u8)
        ensures
            final(self)@ == old(self)@.push(
                ActiveFeatureView {
                    feature_id: feature_id@,
                    uses_remaining: Some(max_uses),
                    uses_max: Some(max_uses),
                    choices: Map::empty(),
                },
            ),
    {
        let feature = ActiveFeature::new(feature_id).with_uses(max_uses, max_uses);
        let ghost before = self.features@;
        self.features.push(feature);
        assert(feature_views(self.features@) =~= feature_views(before).push(feature@));
    }

    /// The position of the first feature with this id.
    fn position(&self, feature_id: &str) -> (r: Option<usize>)
        ensures
            match r {
                Some(i) => first_feature_at(self@, feature_id@, i as int),
                None => !has_feature_id(self@, feature_id@),
            },
    {
        for i in 0..self.features.len()
            invariant
                forall|j: int| 0 <= j < i ==> self@[j].feature_id != feature_id@,
        {
            if str_eq(self.features[i].feature_id(), feature_id) {
                return Some(i);
            }
        }
        None
    }

    /// The first feature with this id, to change in place.
    pub fn get_mut(&mut self, feature_id: &str) -> (r: Option<&mut ActiveFeature>)
        ensures
            r is Some <==> has_feature_id(old(self)@, feature_id@),
            match r {
                Some(f) => forall|i: int|
                    first_feature_at(old(self)@, feature_id@, i) ==> f@ == old(self)@[i]
                        && final(self)@ == old(self)@.update(i, final(f)@),
                None => final(self)@ == old(self)@,
            },
    {
        match self.position(feature_id) {
            Some(i) => {
                let f = &mut self.features[i];
                Some(f)
            },
            None => None,
        }
    }

    /// Uses the first feature with this id once: true when there is one and
    /// it could be used.
    pub fn use_feature(&mut self, feature_id: &str) -> (used: bool)
        ensures
            !has_feature_id(old(self)@, feature_id@) ==> !used && final(self)@ == old(self)@,
            forall|i: int|
                first_feature_at(old(self)@, feature_id@, i) ==> used == can_use(old(self)@[i])
                    && final(self)@ == old(self)@.update(i, after_use(old(self)@[i])),
    {
        if let Some(feature) = self.get_mut(feature_id) {
            return feature.use_once();
        }
        false
    }

    /// Restores the counted uses of every feature (as after a rest).
    pub fn restore_all_uses(&mut self)
        ensures
            final(self)@ == old(self)@.map_values(|f: ActiveFeatureView| uses_restored(f)),
    {
        let ghost start = self@;
        let n = self.features.len();
        let mut i: usize = 0;
        while i < n
            invariant
                n == start.len(),
                i <= n,
                self.features@.len() == start.len(),
                self@.len() == start.len(),
                forall|j: int| 0 <= j < i ==> self@[j] == uses_restored(start[j]),
                forall|j: int| i <= j < start.len() ==> self@[j] == start[j],
            decreases n - i,
        {
            let ghost before = self.features@;
            self.features[i].restore_uses();
            assert(self.features@[i as int]@ == uses_restored(before[i as int]@));
            assert(self.features@.len() == before.len());
            assert forall|j: int| 0 <= j < i + 1 implies self@[j] == uses_restored(start[j]) by {
                assert(feature_views(before)[j] == before[j]@);
                if j < i {
                    assert(self.features@[j] == before[j]);
                } else {
                    assert(before[j]@ == start[j]);
                }
            }
            i = i + 1;
        }
        assert(self@ =~= start.map_values(|f: ActiveFeatureView| uses_restored(f)));
    }
}

// ---------------------------------------------------------------------------
// Identity and class levels
// ---------------------------------------------------------------------------

/// A class level entry for multiclass characters.
#[derive(Debug, Clone, PartialEq, Eq)]
pub struct ClassLevel {
    class_id: String,
    subclass: Option<String>,
    level: u8,
}

/// Abstract state of a class level entry.
pub ghost struct ClassLevelView {
    pub class_id: Seq<char>,
    pub subclass: Option<Seq<char>>,
    /// Number of levels in this class.
    pub level: u8,
}

impl View for ClassLevel {
    type V = ClassLevelView;

    closed spec fn view(&self) -> ClassLevelView {
        ClassLevelView {
            class_id: self.class_id@,
            subclass: opt_text(self.subclass),
            level: self.level,
        }
    }
}

impl ClassLevel {
    /// `level` levels in a class, without a subclass.
    pub fn new(class_id: &str, level: u8) -> (c: Self)
        ensures
            c@ == (ClassLevelView { class_id: class_id@, subclass: None, level }),
    {
        ClassLevel { class_id: class_id.to_owned(), subclass: None, level }
    }

    pub fn class_id(&self) -> (r: &str)
        ensures
            r@ == self@.class_id,
    {
        self.class_id.as_str()
    }

    pub fn subclass(&self) -> (r: Option<&str>)
        ensures
            opt_str_text(r) == self@.subclass,
    {
        opt_as_str(&self.subclass)
    }

    pub fn level(&self) -> (r: u8)
        ensures
            r == self@.level,
    {
        self.level
    }

    /// This entry with the given subclass.
    pub fn with_subclass(self, subclass: &str) -> (c: Self)
        ensures
            c@ == (ClassLevelView { subclass: Some(subclass@), ..self@ }),
    {
        ClassLevel { subclass: Some(subclass.to_owned()), ..self }
    }

    /// Adds levels to this class.
    pub fn add_levels(&mut self, levels: u8)
        requires
            old(self)@.level + levels <= u8::MAX,
        ensures
            final(self)@ == (ClassLevelView {
                level: (old(self)@.level + levels) as u8,
                ..old(self)@
            }),
    {
        self.level = self.level + levels;
    }
}

/// The abstract states of class level entries.
pub open spec fn class_views(v: Seq<ClassLevel>) -> Seq<ClassLevelView> {
    v.map_values(|c: ClassLevel| c@)
}

/// The sum of the levels of all classes.
pub open spec fn level_sum(classes: Seq<ClassLevelView>) -> int
    decreases classes.len(),
{
    if classes.len() == 0 {
        0
    } else {
        level_sum(classes.drop_last()) + classes.last().level
    }
}

/// A prefix never sums to more than the whole.
pub proof fn lemma_level_sum_prefix(classes: Seq<ClassLevelView>, i: int)
    requires
        0 <= i <= classes.len(),
    ensures
        0 <= level_sum(classes.take(i)) <= level_sum(classes),
    decreases classes.len(),
{
    if i < classes.len() {
        lemma_level_sum_prefix(classes.drop_last(), i);
        assert(classes.drop_last().take(i) =~= classes.take(i));
    } else {
        assert(classes.take(i) =~= classes);
        if classes.len() > 0 {
            lemma_level_sum_prefix(classes.drop_last(), i - 1);
            assert(classes.drop_last().take(i - 1) =~= classes.drop_last());
        }
    }
}

/// Whether a class with this id is among `classes`.
pub open spec fn has_class_id(classes: Seq<ClassLevelView>, class_id: Seq<char>) -> bool {
    exists|i: int| 0 <= i < classes.len() && classes[i].class_id == class_id
}

/// `i` is the first position of a class with this id.
pub open spec fn first_class_at(classes: Seq<ClassLevelView>, class_id: Seq<char>, i: int) -> bool {
    &&& 0 <= i < classes.len()
    &&& classes[i].class_id == class_id
    &&& forall|j: int| 0 <= j < i ==> classes[j].class_id != class_id
}

/// The position of the last class with the highest level (0 for an empty
/// list).
pub open spec fn last_highest(classes: Seq<ClassLevelView>) -> int
    decreases classes.len(),
{
    if classes.len() <= 1 {
        0
    } else {
        let k = last_highest(classes.drop_last());
        if classes.last().level >= classes[k].level {
            classes.len() - 1
        } else {
            k
        }
    }
}

/// The classes after adding `levels` levels of `class_id`: the first entry
/// of that class grows, or a new entry is appended.
pub open spec fn classes_after_adding(
    classes: Seq<ClassLevelView>,
    class_id: Seq<char>,
    levels: u8,
) -> Seq<ClassLevelView> {
    if has_class_id(classes, class_id) {
        let i = choose|i: int| first_class_at(classes, class_id, i);
        classes.update(
            i,
            ClassLevelView { level: (classes[i].level + levels) as u8, ..classes[i] },
        )
    } else {
        classes.push(ClassLevelView { class_id, subclass: None, level: levels })
    }
}

/// Character identity: race, classes and background.
#[derive(Debug, Clone, PartialEq, Eq)]
pub struct CharacterIdentity {
    race: Option<String>,
    subrace: Option<String>,
    classes: Vec<ClassLevel>,
    background: Option<String>,
    alignment: Option<String>,
    total_level: u8,
}

/// Abstract state of a character identity.
pub ghost struct CharacterIdentityView {
    /// Race or ancestry id.
    pub race: Option<Seq<char>>,
    /// Subrace or heritage id.
    pub subrace: Option<Seq<char>>,
    pub classes: Seq<ClassLevelView>,
    pub background: Option<Seq<char>>,
    pub alignment: Option<Seq<char>>,
    /// Total character level.
    pub total_level: u8,
}

impl View for CharacterIdentity {
    type V = CharacterIdentityView;

    closed spec fn view(&self) -> CharacterIdentityView {
        CharacterIdentityView {
            race: opt_text(self.race),
            subrace: opt_text(self.subrace),
            classes: class_views(self.classes@),
            background: opt_text(self.background),
            alignment: opt_text(self.alignment),
            total_level: self.total_level,
        }
    }
}

/// The identity of a character with no race, class or background yet.
pub open spec fn blank_identity() -> CharacterIdentityView {
    CharacterIdentityView {
        race: None,
        subrace: None,
        classes: Seq::empty(),
        background: None,
        alignment: None,
        total_level: 0,
    }
}

impl Default for CharacterIdentity {
    fn default() -> (i: Self)
        ensures
            i@ == blank_identity(),
    {
        CharacterIdentity::new()
    }
}

impl CharacterIdentity {
    /// An identity with no race, class or background.
    pub fn new() -> (i: Self)
        ensures
            i@ == blank_identity(),
    {
        let i = CharacterIdentity {
            race: None,
            subrace: None,
            classes: Vec::new(),
            background: None,
            alignment: None,
            total_level: 0,
        };
        assert(i@.classes =~= Seq::<ClassLevelView>::empty());
        i
    }

    pub fn race(&self) -> (r: Option<&str>)
        ensures
            opt_str_text(r) == self@.race,
    {
        opt_as_str(&self.race)
    }

    pub fn subrace(&self) -> (r: Option<&str>)
        ensures
            opt_str_text(r) == self@.subrace,
    {
        opt_as_str(&self.subrace)
    }

    pub fn classes(&self) -> (r: &[ClassLevel])
        ensures
            class_views(r@) == self@.classes,
    {
        self.classes.as_slice()
    }

    pub fn background(&self) -> (r: Option<&str>)
        ensures
            opt_str_text(r) == self@.background,
    {
        opt_as_str(&self.background)
    }

    pub fn alignment(&self) -> (r: Option<&str>)
        ensures
            opt_str_text(r) == self@.alignment,
    {
        opt_as_str(&self.alignment)
    }

    pub fn total_level(&self) -> (r: u8)
        ensures
            r == self@.total_level,
    {
        self.total_level
    }

    /// This identity with the given race.
    pub fn with_race(self, race: &str) -> (i: Self)
        ensures
            i@ == (CharacterIdentityView { race: Some(race@), ..self@ }),
    {
        CharacterIdentity { race: Some(race.to_owned()), ..self }
    }

    /// This identity with the given subrace.
    pub fn with_subrace(self, subrace: &str) -> (i: Self)
        ensures
            i@ == (CharacterIdentityView { subrace: Some(subrace@), ..self@ }),
    {
        CharacterIdentity { subrace: Some(subrace.to_owned()), ..self }
    }

    /// This identity with the given background.
    pub fn with_background(self, background: &str) -> (i: Self)
        ensures
            i@ == (CharacterIdentityView { background: Some(background@), ..self@ }),
    {
        CharacterIdentity { background: Some(background.to_owned()), ..self }
    }

    /// This identity with the given alignment.
    pub fn with_alignment(self, alignment: &str) -> (i: Self)
        ensures
            i@ == (CharacterIdentityView { alignment: Some(alignment@), ..self@ }),
    {
        CharacterIdentity { alignment: Some(alignment.to_owned()), ..self }
    }

    /// The position of the first class with this id.
    fn position(&self, class_id: &str) -> (r: Option<usize>)
        ensures
            match r {
                Some(i) => first_class_at(self@.classes, class_id@, i as int),
                None => !has_class_id(self@.classes, class_id@),
            },
    {
        for i in 0..self.classes.len()
            invariant
                forall|j: int| 0 <= j < i ==> self@.classes[j].class_id != class_id@,
        {
            if str_eq(self.classes[i].class_id(), class_id) {
                return Some(i);
            }
        }
        None
    }

    /// The sum of the levels of all classes.
    fn sum_levels(&self) -> (total: u8)
        requires
            level_sum(self@.classes) <= u8::MAX,
        ensures
            total == level_sum(self@.classes),
    {
        let ghost cs = self@.classes;
        let mut total: u8 = 0;
        for i in 0..self.classes.len()
            invariant
                cs == self@.classes,
                level_sum(cs) <= u8::MAX,
                total == level_sum(cs.take(i as int)),
        {
            assert(cs.take(i + 1).drop_last() =~= cs.take(i as int));
            proof {
                lemma_level_sum_prefix(cs, i + 1);
            }
            total = total + self.classes[i].level();
        }
        assert(cs.take(cs.len() as int) =~= cs);
        total
    }

    /// Adds `levels` levels of a class: the first entry of that class grows,
    /// or a new entry is appended; the total level is the sum again.
    pub fn add_class(&mut self, class_id: &str, levels: u8)
        requires
            level_sum(old(self)@.classes) + levels <= u8::MAX,
        ensures
            final(self)@ == (CharacterIdentityView {
                classes: classes_after_adding(old(self)@.classes, class_id@, levels),
                total_level: (level_sum(old(self)@.classes) + levels) as u8,
                ..old(self)@
            }),
    {
        let ghost cs = self@.classes;
        match self.position(class_id) {
            Some(i) => {
                proof {
                    lemma_level_le_sum(cs, i as int);
                    lemma_level_sum_update(cs, i as int, levels);
                    let j = choose|j: int| first_class_at(cs, class_id@, j);
                    assert(first_class_at(cs, class_id@, i as int));
                    assert(j == i);
                }
                let ghost before = self.classes@;
                let c = &mut self.classes[i];
                c.add_levels(levels);
                assert(class_views(self.classes@) =~= cs.update(
                    i as int,
                    ClassLevelView { level: (cs[i as int].level + levels) as u8, ..cs[i as int] },
                ));
            },
            None => {
                let ghost before = self.classes@;
                self.classes.push(ClassLevel::new(class_id, levels));
                assert(class_views(self.classes@).drop_last() =~= cs);
            },
        }
        assert(self@.classes == classes_after_adding(cs, class_id@, levels));
        self.total_level = self.sum_levels();
    }

    /// The level in the first class with this id, 0 when there is none.
    pub fn class_level(&self, class_id: &str) -> (level: u8)
        ensures
            !has_class_id(self@.classes, class_id@) ==> level == 0,
            forall|i: int|
                first_class_at(self@.classes, class_id@, i) ==> level == self@.classes[i].level,
    {
        match self.position(class_id) {
            Some(i) => self.classes[i].level(),
            None => 0,
        }
    }

    /// The primary class: the highest level one, the last of several equal.
    pub fn primary_class(&self) -> (r: Option<&ClassLevel>)
        ensures
            match r {
                Some(c) => self@.classes.len() > 0 && c@ == self@.classes[last_highest(
                    self@.classes,
                )],
                None => self@.classes.len() == 0,
            },
    {
        if self.classes.len() == 0 {
            return None;
        }
        let ghost cs = self@.classes;
        let mut best: usize = 0;
        for i in 1..self.classes.len()
            invariant
                cs == self@.classes,
                cs.len() > 0,
                1 <= i <= cs.len(),
                best < i,
                best == last_highest(cs.take(i as int)),
        {
            assert(cs.take(i + 1).drop_last() =~= cs.take(i as int));
            assert(cs.take(i as int)[best as int] == cs[best as int]);
            if self.classes[i].level() >= self.classes[best].level() {
                best = i;
            }
        }
        assert(cs.take(cs.len() as int) =~= cs);
        Some(&self.classes[best])
    }
}

/// One entry's level is at most the sum.
pub proof fn lemma_level_le_sum(classes: Seq<ClassLevelView>, i: int)
    requires
        0 <= i < classes.len(),
    ensures
        classes[i].level <= level_sum(classes),
{
    lemma_level_sum_prefix(classes, i + 1);
    lemma_level_sum_prefix(classes, i);
    assert(classes.take(i + 1).drop_last() =~= classes.take(i));
}

/// Raising the level of one entry raises the sum by the same amount.
pub proof fn lemma_level_sum_update(classes: Seq<ClassLevelView>, i: int, levels: u8)
    requires
        0 <= i < classes.len(),
        classes[i].level + levels <= u8::MAX,
    ensures
        level_sum(
            classes.update(
                i,
                ClassLevelView { level: (classes[i].level + levels) as u8, ..classes[i] },
            ),
        ) == level_sum(classes) + levels,
    decreases classes.len(),
{
    let u = classes.update(
        i,
        ClassLevelView { level: (classes[i].level + levels) as u8, ..classes[i] },
    );
    if i == classes.len() - 1 {
        assert(u.drop_last() =~= classes.drop_last());
    } else {
        lemma_level_sum_update(classes.drop_last(), i, levels);
        assert(u.drop_last() =~= classes.drop_last().update(
            i,
            ClassLevelView { level: (classes[i].level + levels) as u8, ..classes[i] },
        ));
    }
}

} // verus!
