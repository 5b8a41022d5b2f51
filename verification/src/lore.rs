//! Lore: world knowledge split into discoverable chunks.

use crate::error::DomainError;
use crate::ids::{CharacterId, LoreChunkId, LoreId, WorldId};
use crate::text::{append_str, joined, lemma_joined_push, lowercase, str_eq, to_lowercase};
use crate::value_objects::Timestamp;
use vstd::prelude::*;

verus! {

/// Category of lore.
#[derive(Debug, Clone, Copy, PartialEq, Eq, Structural, Hash)]
pub enum LoreCategory {
    /// Historical events
    Historical,
    /// Myths and legends
    Legend,
    /// Secrets known to few
    Secret,
    /// Common knowledge
    Common,
    /// Technical or scholarly knowledge
    Technical,
    /// Political knowledge
    Political,
    /// Natural world
    Natural,
    /// Religious knowledge
    Religious,
    /// Unknown category (forward compatibility)
    Unknown,
}

/// The category whose lower-case name is `s`, if any.
pub open spec fn lore_category_named(s: Seq<char>) -> Option<LoreCategory> {
    if s == "historical"@ {
        Some(LoreCategory::Historical)
    } else     if s == "legend"@ {
        Some(LoreCategory::Legend)
    } else     if s == "secret"@ {
        Some(LoreCategory::Secret)
    } else     if s == "common"@ {
        Some(LoreCategory::Common)
    } else     if s == "technical"@ {
        Some(LoreCategory::Technical)
    } else     if s == "political"@ {
        Some(LoreCategory::Political)
    } else     if s == "natural"@ {
        Some(LoreCategory::Natural)
    } else     if s == "religious"@ {
        Some(LoreCategory::Religious)
    } else     if s == "unknown"@ {
        Some(LoreCategory::Unknown)
    } else {
        None
    }
}

impl LoreCategory {
    /// All categories except `Unknown`, for UI dropdowns.
    pub fn all() -> (r: &'static [LoreCategory])
        ensures
            r@ == seq![
                LoreCategory::Historical,
                LoreCategory::Legend,
                LoreCategory::Secret,
                LoreCategory::Common,
                LoreCategory::Technical,
                LoreCategory::Political,
                LoreCategory::Natural,
                LoreCategory::Religious,
            ],
    {
        &[
            LoreCategory::Historical,
            LoreCategory::Legend,
            LoreCategory::Secret,
            LoreCategory::Common,
            LoreCategory::Technical,
            LoreCategory::Political,
            LoreCategory::Natural,
            LoreCategory::Religious,
        ]
    }

    /// Human-readable name.
    pub fn display_name(&self) -> (r: &'static str)
        ensures
            r == match self {
                LoreCategory::Historical => "Historical",
                LoreCategory::Legend => "Legend",
                LoreCategory::Secret => "Secret",
                LoreCategory::Common => "Common",
                LoreCategory::Technical => "Technical",
                LoreCategory::Political => "Political",
                LoreCategory::Natural => "Natural",
                LoreCategory::Religious => "Religious",
                LoreCategory::Unknown => "Unknown",
            },
    {
        match self {
            LoreCategory::Historical => "Historical",
            LoreCategory::Legend => "Legend",
            LoreCategory::Secret => "Secret",
            LoreCategory::Common => "Common",
            LoreCategory::Technical => "Technical",
            LoreCategory::Political => "Political",
            LoreCategory::Natural => "Natural",
            LoreCategory::Religious => "Religious",
            LoreCategory::Unknown => "Unknown",
        }
    }

    /// The category whose lower-case name is `text`, if any.
    pub fn from_lowercase(text: &str) -> (r: Option<Self>)
        ensures
            r == lore_category_named(text@),
    {
        if str_eq(text, "historical") {
            return Some(LoreCategory::Historical);
        }
        if str_eq(text, "legend") {
            return Some(LoreCategory::Legend);
        }
        if str_eq(text, "secret") {
            return Some(LoreCategory::Secret);
        }
        if str_eq(text, "common") {
            return Some(LoreCategory::Common);
        }
        if str_eq(text, "technical") {
            return Some(LoreCategory::Technical);
        }
        if str_eq(text, "political") {
            return Some(LoreCategory::Political);
        }
        if str_eq(text, "natural") {
            return Some(LoreCategory::Natural);
        }
        if str_eq(text, "religious") {
            return Some(LoreCategory::Religious);
        }
        if str_eq(text, "unknown") {
            return Some(LoreCategory::Unknown);
        }
        None
    }

    /// Parses a category name in any letter case.
    pub fn parse_name(s: &str) -> (r: Result<Self, DomainError>)
        ensures
            match lore_category_named(lowercase(s@)) {
                Some(c) => r matches Ok(x) && x == c,
                None => r matches Err(DomainError::Parse(m)) && m@ == "Invalid lore category '"@
                    + s@
                    + "'. Valid categories: historical, legend, secret, common, technical, political, natural, religious"@,
            },
    {
        let lower = to_lowercase(s);
        match Self::from_lowercase(lower.as_str()) {
            Some(c) => Ok(c),
            None => {
                let mut m = String::new();
                append_str(&mut m, "Invalid lore category '");
                append_str(&mut m, s);
                append_str(
                    &mut m,
                    "'. Valid categories: historical, legend, secret, common, technical, political, natural, religious",
                );
                Err(DomainError::Parse(m))
            },
        }
    }
}

impl std::str::FromStr for LoreCategory {
    type Err = DomainError;

    fn from_str(s: &str) -> (r: Result<Self, Self::Err>)
        ensures
            match lore_category_named(lowercase(s@)) {
                Some(c) => r matches Ok(x) && x == c,
                None => r matches Err(DomainError::Parse(m)) && m@ == "Invalid lore category '"@
                    + s@
                    + "'. Valid categories: historical, legend, secret, common, technical, political, natural, religious"@,
            },
    {
        LoreCategory::parse_name(s)
    }
}

/// A discoverable piece of a lore entry.
#[derive(Debug, Clone, PartialEq)]
pub struct LoreChunk {
    pub id: LoreChunkId,
    /// Position of this chunk within its lore entry.
    pub order: u32,
    /// Optional title.
    pub title: Option<String>,
    /// Text of the chunk.
    pub content: String,
    /// Hint on how players might discover this chunk.
    pub discovery_hint: Option<String>,
}

impl LoreChunk {
    /// A chunk with a fresh id, order 0 and no title or hint.
    pub fn new(content: &str) -> (c: Self)
        ensures
            c.order == 0,
            c.title is None,
            c.content@ == content@,
            c.discovery_hint is None,
    {
        LoreChunk {
            id: LoreChunkId::new(),
            order: 0,
            title: None,
            content: content.to_owned(),
            discovery_hint: None,
        }
    }

    /// This chunk with the given title.
    pub fn with_title(self, title: &str) -> (c: Self)
        ensures
            c.id == self.id,
            c.order == self.order,
            c.title matches Some(t) && t@ == title@,
            c.content == self.content,
            c.discovery_hint == self.discovery_hint,
    {
        LoreChunk { title: Some(title.to_owned()), ..self }
    }

    /// This chunk at the given position.
    pub fn with_order(self, order: u32) -> (c: Self)
        ensures
            c == (LoreChunk { order, ..self }),
    {
        LoreChunk { order, ..self }
    }

    /// This chunk with the given discovery hint.
    pub fn with_discovery_hint(self, hint: &str) -> (c: Self)
        ensures
            c.id == self.id,
            c.order == self.order,
            c.title == self.title,
            c.content == self.content,
            c.discovery_hint matches Some(h) && h@ == hint@,
    {
        LoreChunk { discovery_hint: Some(hint.to_owned()), ..self }
    }
}

/// How a character came to know a piece of lore.
#[derive(Debug, Clone, PartialEq)]
pub enum LoreDiscoverySource {
    ReadBook { book_name: String },
    Conversation { npc_id: crate::ids::CharacterId, npc_name: String },
    Investigation,
    DmGranted { reason: Option<String> },
    CommonKnowledge,
    LlmDiscovered { context: String },
}


/// Separator between chunk texts when they are read together.
pub open spec fn chunk_separator() -> Seq<char> {
    seq!['\n', '\n']
}

/// The texts of the chunks, in order.
pub open spec fn chunk_texts(chunks: Seq<LoreChunk>) -> Seq<Seq<char>> {
    chunks.map_values(|c: LoreChunk| c.content@)
}

/// The texts of the chunks whose id is among `ids`, in chunk order.
pub open spec fn selected_texts(chunks: Seq<LoreChunk>, ids: Seq<LoreChunkId>) -> Seq<Seq<char>>
    decreases chunks.len(),
{
    if chunks.len() == 0 {
        Seq::empty()
    } else {
        let rest = selected_texts(chunks.drop_last(), ids);
        if ids.contains(chunks.last().id) {
            rest.push(chunks.last().content@)
        } else {
            rest
        }
    }
}

/// `i` is the first chunk with id `id`.
pub open spec fn first_chunk_at(chunks: Seq<LoreChunk>, id: LoreChunkId, i: int) -> bool {
    &&& 0 <= i < chunks.len()
    &&& chunks[i].id == id
    &&& forall|j: int| 0 <= j < i ==> chunks[j].id != id
}

/// The known chunk ids after adding `new` ones in order, each only if it was
/// not known yet.
pub open spec fn with_added_ids(known: Seq<LoreChunkId>, new: Seq<LoreChunkId>) -> Seq<LoreChunkId>
    decreases new.len(),
{
    if new.len() == 0 {
        known
    } else {
        let base = with_added_ids(known, new.drop_last());
        if base.contains(new.last()) {
            base
        } else {
            base.push(new.last())
        }
    }
}

/// The known chunk ids after `add_chunks`: knowledge of every chunk (no ids
/// listed) stays whole; otherwise the new ids are added as `with_added_ids`
/// says.
pub open spec fn knowledge_after_adding(known: Seq<LoreChunkId>, new: Seq<LoreChunkId>) -> Seq<LoreChunkId> {
    if known.len() == 0 {
        known
    } else {
        with_added_ids(known, new)
    }
}

/// Whether `id` is among `ids`.
fn contains_chunk_id(ids: &[LoreChunkId], id: LoreChunkId) -> (b: bool)
    ensures
        b == ids@.contains(id),
{
    let mut i: usize = 0;
    while i < ids.len()
        invariant
            i <= ids.len(),
            forall|j: int| 0 <= j < i ==> ids@[j] != id,
        decreases ids.len() - i,
    {
        if ids[i] == id {
            assert(ids@[i as int] == id);
            return true;
        }
        i = i + 1;
    }
    false
}

/// A piece of world knowledge that characters can discover chunk by chunk.
#[derive(Debug, Clone, PartialEq)]
pub struct Lore {
    pub id: LoreId,
    pub world_id: WorldId,
    /// Title of the entry.
    pub title: String,
    /// Brief summary for the game master.
    pub summary: String,
    pub category: LoreCategory,
    /// Discoverable pieces of this lore.
    pub chunks: Vec<LoreChunk>,
    /// Whether every character in the world knows this lore.
    pub is_common_knowledge: bool,
    /// Tags for filtering and searching.
    pub tags: Vec<String>,
    pub created_at: Timestamp,
    pub updated_at: Timestamp,
}

impl Lore {
    /// A lore entry with a fresh id, no summary, chunks or tags, not common
    /// knowledge, created and updated at `now`.
    pub fn new(world_id: WorldId, title: &str, category: LoreCategory, now: Timestamp) -> (l: Self)
        ensures
            l.world_id == world_id,
            l.title@ == title@,
            l.summary@ == Seq::<char>::empty(),
            l.category == category,
            l.chunks@.len() == 0,
            !l.is_common_knowledge,
            l.tags@.len() == 0,
            l.created_at == now,
            l.updated_at == now,
    {
        Lore {
            id: LoreId::new(),
            world_id,
            title: title.to_string(),
            summary: String::new(),
            category,
            chunks: Vec::new(),
            is_common_knowledge: false,
            tags: Vec::new(),
            created_at: now,
            updated_at: now,
        }
    }

    /// This entry with the given summary.
    pub fn with_summary(self, summary: &str) -> (l: Self)
        ensures
            l.summary@ == summary@,
            l == (Lore { summary: l.summary, ..self }),
    {
        Lore { summary: summary.to_string(), ..self }
    }

    /// This entry with one more chunk at the end: fresh id, no title or hint,
    /// and its position (the former number of chunks, as `u32`) as its order.
    pub fn with_chunk(self, content: &str) -> (l: Self)
        ensures
            l.chunks@.len() == self.chunks@.len() + 1,
            l.chunks@.drop_last() == self.chunks@,
            l.chunks@.last().order == self.chunks@.len() as u32,
            l.chunks@.last().title is None,
            l.chunks@.last().content@ == content@,
            l.chunks@.last().discovery_hint is None,
            l == (Lore { chunks: l.chunks, ..self }),
    {
        let mut s = self;
        let order = s.chunks.len() as u32;
        let chunk = LoreChunk {
            id: LoreChunkId::new(),
            order,
            title: None,
            content: content.to_string(),
            discovery_hint: None,
        };
        let ghost before = s.chunks@;
        s.chunks.push(chunk);
        assert(s.chunks@.drop_last() =~= before);
        s
    }

    /// This entry with the given chunks.
    pub fn with_chunks(self, chunks: Vec<LoreChunk>) -> (l: Self)
        ensures
            l == (Lore { chunks, ..self }),
    {
        Lore { chunks, ..self }
    }

    /// This entry, known to every character.
    pub fn as_common_knowledge(self) -> (l: Self)
        ensures
            l == (Lore { is_common_knowledge: true, ..self }),
    {
        Lore { is_common_knowledge: true, ..self }
    }

    /// This entry with the given tags.
    pub fn with_tags(self, tags: Vec<String>) -> (l: Self)
        ensures
            l == (Lore { tags, ..self }),
    {
        Lore { tags, ..self }
    }

    /// The texts of all chunks, in order, separated by blank lines.
    pub fn full_text(&self) -> (s: String)
        ensures
            s@ == joined(chunk_texts(self.chunks@), chunk_separator()),
    {
        let mut s = String::new();
        let mut i: usize = 0;
        while i < self.chunks.len()
            invariant
                i <= self.chunks@.len(),
                s@ == joined(chunk_texts(self.chunks@.take(i as int)), chunk_separator()),
            decreases self.chunks@.len() - i,
        {
            proof {
                lemma_joined_push(
                    chunk_texts(self.chunks@.take(i as int)),
                    self.chunks@[i as int].content@,
                    chunk_separator(),
                );
                assert(chunk_texts(self.chunks@.take(i + 1)) =~= chunk_texts(
                    self.chunks@.take(i as int),
                ).push(self.chunks@[i as int].content@));
            }
            if i > 0 {
                append_str(&mut s, "\n\n");
                proof {
                    reveal_strlit("\n\n");
                }
            }
            append_str(&mut s, self.chunks[i].content.as_str());
            i = i + 1;
        }
        assert(self.chunks@.take(i as int) =~= self.chunks@);
        s
    }

    /// The texts of the chunks whose id is among `chunk_ids`, in chunk order,
    /// separated by blank lines.
    pub fn text_for_chunks(&self, chunk_ids: &[LoreChunkId]) -> (s: String)
        ensures
            s@ == joined(selected_texts(self.chunks@, chunk_ids@), chunk_separator()),
    {
        let mut s = String::new();
        let mut any = false;
        let mut i: usize = 0;
        while i < self.chunks.len()
            invariant
                i <= self.chunks@.len(),
                s@ == joined(selected_texts(self.chunks@.take(i as int), chunk_ids@), chunk_separator()),
                any == (selected_texts(self.chunks@.take(i as int), chunk_ids@).len() > 0),
            decreases self.chunks@.len() - i,
        {
            let ghost before = selected_texts(self.chunks@.take(i as int), chunk_ids@);
            assert(self.chunks@.take(i + 1).drop_last() =~= self.chunks@.take(i as int));
            if contains_chunk_id(chunk_ids, self.chunks[i].id) {
                proof {
                    lemma_joined_push(before, self.chunks@[i as int].content@, chunk_separator());
                }
                if any {
                    append_str(&mut s, "\n\n");
                    proof {
                        reveal_strlit("\n\n");
                    }
                }
                append_str(&mut s, self.chunks[i].content.as_str());
                any = true;
            }
            i = i + 1;
        }
        assert(self.chunks@.take(i as int) =~= self.chunks@);
        s
    }

    /// The first chunk with the given id, if any.
    pub fn get_chunk(&self, chunk_id: LoreChunkId) -> (r: Option<&LoreChunk>)
        ensures
            match r {
                Some(c) => exists|i: int| first_chunk_at(self.chunks@, chunk_id, i) && *c == self.chunks@[i],
                None => forall|i: int| 0 <= i < self.chunks@.len() ==> self.chunks@[i].id != chunk_id,
            },
    {
        let mut i: usize = 0;
        while i < self.chunks.len()
            invariant
                i <= self.chunks@.len(),
                forall|j: int| 0 <= j < i ==> self.chunks@[j].id != chunk_id,
            decreases self.chunks@.len() - i,
        {
            if self.chunks[i].id == chunk_id {
                assert(first_chunk_at(self.chunks@, chunk_id, i as int));
                return Some(&self.chunks[i]);
            }
            i = i + 1;
        }
        None
    }

    /// The ids of all chunks, in order.
    pub fn chunk_ids(&self) -> (r: Vec<LoreChunkId>)
        ensures
            r@ == self.chunks@.map_values(|c: LoreChunk| c.id),
    {
        let mut r: Vec<LoreChunkId> = Vec::new();
        let mut i: usize = 0;
        while i < self.chunks.len()
            invariant
                i <= self.chunks@.len(),
                r@ =~= self.chunks@.take(i as int).map_values(|c: LoreChunk| c.id),
            decreases self.chunks@.len() - i,
        {
            r.push(self.chunks[i].id);
            i = i + 1;
        }
        assert(self.chunks@.take(i as int) =~= self.chunks@);
        r
    }
}

/// What a character knows of a lore entry, and how they came to know it.
#[derive(Debug, Clone, PartialEq)]
pub struct LoreKnowledge {
    pub lore_id: LoreId,
    /// The knowing character, player or not.
    pub character_id: CharacterId,
    /// The chunks known; empty means all of them.
    pub known_chunk_ids: Vec<LoreChunkId>,
    pub discovery_source: LoreDiscoverySource,
    /// When it was discovered (game time).
    pub discovered_at: Timestamp,
    pub notes: Option<String>,
}

impl LoreKnowledge {
    /// Knowledge of the whole entry.
    pub fn full(
        lore_id: LoreId,
        character_id: CharacterId,
        source: LoreDiscoverySource,
        game_time: Timestamp,
    ) -> (k: Self)
        ensures
            k == (LoreKnowledge {
                lore_id,
                character_id,
                known_chunk_ids: k.known_chunk_ids,
                discovery_source: source,
                discovered_at: game_time,
                notes: None,
            }),
            k.known_chunk_ids@.len() == 0,
    {
        LoreKnowledge {
            lore_id,
            character_id,
            known_chunk_ids: Vec::new(),
            discovery_source: source,
            discovered_at: game_time,
            notes: None,
        }
    }

    /// Knowledge of the given chunks only.
    pub fn partial(
        lore_id: LoreId,
        character_id: CharacterId,
        chunk_ids: Vec<LoreChunkId>,
        source: LoreDiscoverySource,
        game_time: Timestamp,
    ) -> (k: Self)
        ensures
            k == (LoreKnowledge {
                lore_id,
                character_id,
                known_chunk_ids: chunk_ids,
                discovery_source: source,
                discovered_at: game_time,
                notes: None,
            }),
    {
        LoreKnowledge {
            lore_id,
            character_id,
            known_chunk_ids: chunk_ids,
            discovery_source: source,
            discovered_at: game_time,
            notes: None,
        }
    }

    /// This knowledge with the given notes.
    pub fn with_notes(self, notes: &str) -> (k: Self)
        ensures
            k.notes matches Some(n) && n@ == notes@,
            k == (LoreKnowledge { notes: k.notes, ..self }),
    {
        LoreKnowledge { notes: Some(notes.to_string()), ..self }
    }

    /// Whether every chunk is known (no particular chunks are listed).
    pub fn knows_all(&self) -> (b: bool)
        ensures
            b == (self.known_chunk_ids@.len() == 0),
    {
        self.known_chunk_ids.len() == 0
    }

    /// Adds the given chunk ids, in order, skipping those already known;
    /// knowledge of every chunk (no ids listed) stays as it is.
    pub fn add_chunks(&mut self, new_chunk_ids: &[LoreChunkId])
        ensures
            final(self).known_chunk_ids@ == knowledge_after_adding(
                old(self).known_chunk_ids@,
                new_chunk_ids@,
            ),
            *final(self) == (LoreKnowledge {
                known_chunk_ids: final(self).known_chunk_ids,
                ..*old(self)
            }),
    {
        if self.known_chunk_ids.len() == 0 {
            return;
        }
        let ghost start = self.known_chunk_ids@;
        let mut i: usize = 0;
        while i < new_chunk_ids.len()
            invariant
                i <= new_chunk_ids@.len(),
                self.known_chunk_ids@ == with_added_ids(start, new_chunk_ids@.take(i as int)),
                *self == (LoreKnowledge { known_chunk_ids: self.known_chunk_ids, ..*old(self) }),
            decreases new_chunk_ids@.len() - i,
        {
            let id = new_chunk_ids[i];
            assert(new_chunk_ids@.take(i + 1).drop_last() =~= new_chunk_ids@.take(i as int));
            if !contains_chunk_id(self.known_chunk_ids.as_slice(), id) {
                self.known_chunk_ids.push(id);
            }
            i = i + 1;
        }
        assert(new_chunk_ids@.take(i as int) =~= new_chunk_ids@);
    }
}

/// Adding chunks never takes knowledge away: knowledge of every chunk stays
/// whole, and partial knowledge keeps every id it had and gains the added
/// ones, nothing else.
pub proof fn law_adding_chunks_never_reduces_knowledge(known: Seq<LoreChunkId>, new: Seq<LoreChunkId>, id: LoreChunkId)
    ensures
        known.len() == 0 ==> knowledge_after_adding(known, new).len() == 0,
        known.len() > 0 ==> (knowledge_after_adding(known, new).contains(id) <==> (known.contains(id)
            || new.contains(id))),
{
    law_added_chunks_are_known(known, new, id);
}

/// After chunk ids are added, every formerly known id and every added id is
/// known, and nothing else is.
pub proof fn law_added_chunks_are_known(known: Seq<LoreChunkId>, new: Seq<LoreChunkId>, id: LoreChunkId)
    ensures
        with_added_ids(known, new).contains(id) <==> (known.contains(id) || new.contains(id)),
    decreases new.len(),
{
    if new.len() > 0 {
        law_added_chunks_are_known(known, new.drop_last(), id);
        let base = with_added_ids(known, new.drop_last());
        if new.contains(id) && !new.drop_last().contains(id) {
            assert(new.last() == id) by {
                let k = choose|k: int| 0 <= k < new.len() && new[k] == id;
                if k < new.len() - 1 {
                    assert(new.drop_last()[k] == id);
                }
            }
        }
        if new.drop_last().contains(id) {
            let k = choose|k: int| 0 <= k < new.drop_last().len() && new.drop_last()[k] == id;
            assert(new[k] == id);
        }
        if !base.contains(new.last()) {
            assert(base.push(new.last()).last() == new.last());
            if base.push(new.last()).contains(id) {
                let k = choose|k: int| 0 <= k < base.len() + 1 && base.push(new.last())[k] == id;
                if k < base.len() {
                    assert(base[k] == id);
                }
            }
            if base.contains(id) {
                let k = choose|k: int| 0 <= k < base.len() && base[k] == id;
                assert(base.push(new.last())[k] == id);
            }
        }
        if new.last() == id {
            assert(new[new.len() - 1] == id);
        }
    }
}

/// Adding chunk ids keeps a list free of repeats.
pub proof fn law_added_chunks_stay_distinct(known: Seq<LoreChunkId>, new: Seq<LoreChunkId>)
    requires
        known.no_duplicates(),
    ensures
        with_added_ids(known, new).no_duplicates(),
    decreases new.len(),
{
    if new.len() > 0 {
        law_added_chunks_stay_distinct(known, new.drop_last());
        let base = with_added_ids(known, new.drop_last());
        if !base.contains(new.last()) {
            assert forall|a: int, b: int|
                0 <= a < b < base.len() + 1 implies base.push(new.last())[a] != base.push(
                new.last(),
            )[b] by {
                if b == base.len() {
                    assert(base[a] != new.last());
                }
            }
        }
    }
}

/// Adding ids that are all known already changes nothing; in particular,
/// adding the same ids a second time changes nothing.
pub proof fn law_adding_known_chunks_is_idempotent(known: Seq<LoreChunkId>, new: Seq<LoreChunkId>)
    requires
        forall|i: int| 0 <= i < new.len() ==> known.contains(#[trigger] new[i]),
    ensures
        with_added_ids(known, new) == known,
    decreases new.len(),
{
    if new.len() > 0 {
        assert forall|i: int| 0 <= i < new.drop_last().len() implies known.contains(
            #[trigger] new.drop_last()[i],
        ) by {
            assert(new.drop_last()[i] == new[i]);
        }
        law_adding_known_chunks_is_idempotent(known, new.drop_last());
        assert(known.contains(new[new.len() - 1]));
    }
}

/// Reading the chunks of every id a lore entry has gives its full text.
pub proof fn law_all_chunk_ids_give_full_text(chunks: Seq<LoreChunk>, ids: Seq<LoreChunkId>)
    requires
        forall|i: int| 0 <= i < chunks.len() ==> ids.contains(#[trigger] chunks[i].id),
    ensures
        selected_texts(chunks, ids) == chunk_texts(chunks),
    decreases chunks.len(),
{
    if chunks.len() > 0 {
        assert forall|i: int| 0 <= i < chunks.drop_last().len() implies ids.contains(
            #[trigger] chunks.drop_last()[i].id,
        ) by {
            assert(chunks.drop_last()[i] == chunks[i]);
        }
        law_all_chunk_ids_give_full_text(chunks.drop_last(), ids);
        assert(ids.contains(chunks[chunks.len() - 1].id));
        assert(chunk_texts(chunks) =~= chunk_texts(chunks.drop_last()).push(chunks.last().content@));
    }
}

} // verus!
