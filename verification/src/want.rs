//! Character wants: how visible they are to players and the roles others play.

use crate::ids::WantId;
use crate::narrative::{is_nan_bits, key_of, nan_bits, order_key};
use crate::text::{opt_as_str, opt_str_text, opt_text, texts};
use crate::value_objects::Timestamp;
use vstd::prelude::*;

verus! {

/// How much the player knows about an NPC's want.
#[derive(Debug, Clone, Copy, PartialEq, Eq, Structural, Hash)]
pub enum WantVisibility {
    /// Player knows this motivation openly
    Known,
    /// Player suspects something but doesn't know details
    Suspected,
    /// Player has no idea (default)
    Hidden,
}

impl Default for WantVisibility {
    fn default() -> (d: Self)
        ensures
            d == WantVisibility::Hidden,
    {
        WantVisibility::Hidden
    }
}

impl WantVisibility {
    /// Visibility from the stored "known to player" flag.
    pub fn from_storage(known: bool) -> (v: Self)
        ensures
            v == if known {
                WantVisibility::Known
            } else {
                WantVisibility::Hidden
            },
    {
        if known {
            WantVisibility::Known
        } else {
            WantVisibility::Hidden
        }
    }

    /// Whether the player knows this want.
    pub fn is_known(&self) -> (b: bool)
        ensures
            b == (*self == WantVisibility::Known),
    {
        match self {
            WantVisibility::Known => true,
            _ => false,
        }
    }

    /// Whether the player has some awareness of this want.
    pub fn is_at_least_suspected(&self) -> (b: bool)
        ensures
            b == (*self == WantVisibility::Known || *self == WantVisibility::Suspected),
    {
        match self {
            WantVisibility::Known | WantVisibility::Suspected => true,
            _ => false,
        }
    }
}

/// Kind of thing a want is directed at.
#[derive(Debug, Clone, Copy, PartialEq, Eq, Structural, Hash)]
pub enum WantTargetType {
    Character,
    Item,
    Goal,
    Unknown,
}

/// Role a character sees another playing in its want.
#[derive(Debug, Clone, Copy, PartialEq, Eq, Structural, Hash)]
pub enum ActantialRole {
    /// Helps the want
    Helper,
    /// Opposes the want
    Opponent,
    /// Initiated the want
    Sender,
    /// Benefits from the want
    Receiver,
    /// Unknown role (forward compatibility)
    Unknown,
}


/// Bits of the single-precision number 0.0.
pub const ZERO_BITS: u32 = 0x0000_0000u32;

/// Bits of the single-precision number 0.5.
pub const HALF_BITS: u32 = 0x3f00_0000u32;

/// Bits of the single-precision number 0.8.
pub const FOUR_FIFTHS_BITS: u32 = 0x3f4c_cccdu32;

/// Bits of the single-precision number 1.0.
pub const ONE_BITS: u32 = 0x3f80_0000u32;

/// The number with bits `b` held within 0.0 to 1.0: below 0.0 gives 0.0, above
/// 1.0 gives 1.0, a NaN (no number at all) gives 0.0, and anything else is
/// kept as it is.
pub open spec fn clamp_unit(b: u32) -> u32 {
    if is_nan_bits(b) {
        ZERO_BITS
    } else if order_key(b) < 0 {
        ZERO_BITS
    } else if order_key(b) > order_key(ONE_BITS) {
        ONE_BITS
    } else {
        b
    }
}

/// Whether the number with bits `a` is greater than the one with bits `b`
/// (false with a NaN).
pub open spec fn bits_gt(a: u32, b: u32) -> bool {
    !is_nan_bits(a) && !is_nan_bits(b) && order_key(a) > order_key(b)
}

fn clamp_unit_bits(b: u32) -> (r: u32)
    ensures
        r == clamp_unit(b),
{
    if nan_bits(b) {
        ZERO_BITS
    } else if key_of(b) < 0 {
        ZERO_BITS
    } else if key_of(b) > key_of(ONE_BITS) {
        ONE_BITS
    } else {
        b
    }
}

/// How an NPC with a want of this intensity deflects questions about it.
pub open spec fn deflection_for(intensity: u32) -> Seq<char> {
    if bits_gt(intensity, FOUR_FIFTHS_BITS) {
        "Become visibly uncomfortable; firmly redirect conversation"@
    } else if bits_gt(intensity, HALF_BITS) {
        "Give a vague, non-committal response"@
    } else {
        "Smoothly change the subject"@
    }
}

/// Abstract state of a want.
pub ghost struct WantView {
    pub id: WantId,
    pub description: Seq<char>,
    /// Bits of the intensity, a single-precision number.
    pub intensity: u32,
    pub visibility: WantVisibility,
    pub created_at: Timestamp,
    pub deflection_behavior: Option<Seq<char>>,
    pub tells: Seq<Seq<char>>,
}

/// What an NPC wants, how strongly, and how much of it players can see.
#[derive(Debug, Clone)]
pub struct Want {
    id: WantId,
    description: String,
    /// Bits of a single-precision number from 0.0 to 1.0.
    intensity: u32,
    visibility: WantVisibility,
    created_at: Timestamp,
    deflection_behavior: Option<String>,
    tells: Vec<String>,
}

impl View for Want {
    type V = WantView;

    closed spec fn view(&self) -> WantView {
        WantView {
            id: self.id,
            description: self.description@,
            intensity: self.intensity,
            visibility: self.visibility,
            created_at: self.created_at,
            deflection_behavior: opt_text(self.deflection_behavior),
            tells: texts(self.tells@),
        }
    }
}

impl Want {
    /// A hidden want with a fresh id, no deflection or tells, and the given
    /// intensity (bits of a single-precision number) held within 0.0 to 1.0.
    pub fn new_with_intensity(description: &str, intensity: u32, now: Timestamp) -> (w: Self)
        ensures
            w@ == (WantView {
                id: w@.id,
                description: description@,
                intensity: clamp_unit(intensity),
                visibility: WantVisibility::Hidden,
                created_at: now,
                deflection_behavior: None,
                tells: Seq::empty(),
            }),
    {
        let w = Want {
            id: WantId::new(),
            description: description.to_string(),
            intensity: clamp_unit_bits(intensity),
            visibility: WantVisibility::Hidden,
            created_at: now,
            deflection_behavior: None,
            tells: Vec::new(),
        };
        assert(texts(w.tells@) =~= Seq::<Seq<char>>::empty());
        w
    }

    /// A hidden want of intensity 0.5.
    pub fn new(description: &str, now: Timestamp) -> (w: Self)
        ensures
            w@ == (WantView {
                id: w@.id,
                description: description@,
                intensity: HALF_BITS,
                visibility: WantVisibility::Hidden,
                created_at: now,
                deflection_behavior: None,
                tells: Seq::empty(),
            }),
    {
        proof {
            assert(!is_nan_bits(HALF_BITS)) by (bit_vector);
            assert((HALF_BITS & 0x8000_0000u32) == 0) by (bit_vector);
            assert((HALF_BITS & 0x7fff_ffffu32) == HALF_BITS) by (bit_vector);
            assert((ONE_BITS & 0x8000_0000u32) == 0) by (bit_vector);
            assert((ONE_BITS & 0x7fff_ffffu32) == ONE_BITS) by (bit_vector);
        }
        Self::new_with_intensity(description, HALF_BITS, now)
    }

    pub fn id(&self) -> (r: WantId)
        ensures
            r == self@.id,
    {
        self.id
    }

    pub fn description(&self) -> (r: &str)
        ensures
            r@ == self@.description,
    {
        self.description.as_str()
    }

    /// Bits of the intensity, a single-precision number from 0.0 to 1.0.
    pub fn intensity(&self) -> (r: u32)
        ensures
            r == self@.intensity,
    {
        self.intensity
    }

    pub fn visibility(&self) -> (r: WantVisibility)
        ensures
            r == self@.visibility,
    {
        self.visibility
    }

    pub fn created_at(&self) -> (r: Timestamp)
        ensures
            r == self@.created_at,
    {
        self.created_at
    }

    pub fn deflection_behavior(&self) -> (r: Option<&str>)
        ensures
            opt_str_text(r) == self@.deflection_behavior,
    {
        opt_as_str(&self.deflection_behavior)
    }

    /// Behaviours that give the want away.
    pub fn tells(&self) -> (r: &[String])
        ensures
            texts(r@) == self@.tells,
    {
        self.tells.as_slice()
    }

    /// This want with the given intensity (bits), held within 0.0 to 1.0.
    pub fn with_intensity(self, intensity: u32) -> (w: Self)
        ensures
            w@ == (WantView { intensity: clamp_unit(intensity), ..self@ }),
    {
        Want { intensity: clamp_unit_bits(intensity), ..self }
    }

    pub fn with_visibility(self, visibility: WantVisibility) -> (w: Self)
        ensures
            w@ == (WantView { visibility, ..self@ }),
    {
        Want { visibility, ..self }
    }

    /// This want, known to the player.
    pub fn known(self) -> (w: Self)
        ensures
            w@ == (WantView { visibility: WantVisibility::Known, ..self@ }),
    {
        Want { visibility: WantVisibility::Known, ..self }
    }

    /// This want with the given deflection behaviour.
    pub fn with_deflection(self, behavior: &str) -> (w: Self)
        ensures
            w@ == (WantView { deflection_behavior: Some(behavior@), ..self@ }),
    {
        Want { deflection_behavior: Some(behavior.to_string()), ..self }
    }

    pub fn with_tells(self, tells: Vec<String>) -> (w: Self)
        ensures
            w@ == (WantView { tells: texts(tells@), ..self@ }),
    {
        Want { tells, ..self }
    }

    /// This want with one more tell at the end.
    pub fn add_tell(self, tell: &str) -> (w: Self)
        ensures
            w@ == (WantView { tells: self@.tells.push(tell@), ..self@ }),
    {
        let mut w = self;
        let ghost before = w.tells@;
        w.tells.push(tell.to_string());
        assert(texts(w.tells@) =~= texts(before).push(tell@));
        w
    }

    pub fn with_id(self, id: WantId) -> (w: Self)
        ensures
            w@ == (WantView { id, ..self@ }),
    {
        Want { id, ..self }
    }

    pub fn with_description(self, description: &str) -> (w: Self)
        ensures
            w@ == (WantView { description: description@, ..self@ }),
    {
        Want { description: description.to_string(), ..self }
    }

    pub fn with_created_at(self, created_at: Timestamp) -> (w: Self)
        ensures
            w@ == (WantView { created_at, ..self@ }),
    {
        Want { created_at, ..self }
    }

    /// How the NPC deflects by default: more strongly the more intense the
    /// want (above 0.8, above 0.5, otherwise).
    pub fn default_deflection(&self) -> (s: String)
        ensures
            s@ == deflection_for(self@.intensity),
    {
        let a = !nan_bits(self.intensity) && key_of(self.intensity) > key_of(FOUR_FIFTHS_BITS);
        proof {
            assert(!is_nan_bits(FOUR_FIFTHS_BITS)) by (bit_vector);
            assert(!is_nan_bits(HALF_BITS)) by (bit_vector);
        }
        if a {
            proof {
                reveal_strlit("Become visibly uncomfortable; firmly redirect conversation");
            }
            "Become visibly uncomfortable; firmly redirect conversation".to_string()
        } else if !nan_bits(self.intensity) && key_of(self.intensity) > key_of(HALF_BITS) {
            "Give a vague, non-committal response".to_string()
        } else {
            "Smoothly change the subject".to_string()
        }
    }

    /// The deflection set for this want, or else the default one.
    pub fn effective_deflection(&self) -> (s: String)
        ensures
            s@ == match self@.deflection_behavior {
                Some(d) => d,
                None => deflection_for(self@.intensity),
            },
    {
        match &self.deflection_behavior {
            Some(d) => d.clone(),
            None => self.default_deflection(),
        }
    }
}

/// A want held by a character, with its priority.
#[derive(Debug, Clone)]
pub struct CharacterWant {
    pub want: Want,
    /// 1 is the most important.
    pub priority: u32,
    pub acquired_at: Timestamp,
}

impl CharacterWant {
    pub fn new(want: Want, priority: u32, now: Timestamp) -> (c: Self)
        ensures
            c.want@ == want@,
            c.priority == priority,
            c.acquired_at == now,
    {
        CharacterWant { want, priority, acquired_at: now }
    }

    pub fn with_priority(self, priority: u32) -> (c: Self)
        ensures
            c.want@ == self.want@,
            c.priority == priority,
            c.acquired_at == self.acquired_at,
    {
        CharacterWant { priority, ..self }
    }

    /// Whether the player knows this want.
    pub fn is_known(&self) -> (b: bool)
        ensures
            b == (self.want@.visibility == WantVisibility::Known),
    {
        self.want.visibility().is_known()
    }

    /// Whether the player at least suspects this want.
    pub fn is_at_least_suspected(&self) -> (b: bool)
        ensures
            b == (self.want@.visibility == WantVisibility::Known || self.want@.visibility
                == WantVisibility::Suspected),
    {
        self.want.visibility().is_at_least_suspected()
    }
}

/// Why a character sees another as playing a role in one of its wants.
#[derive(Debug, Clone)]
pub struct ActantialView {
    pub want_id: WantId,
    pub reason: String,
    pub assigned_at: Timestamp,
}

impl ActantialView {
    pub fn new(want_id: WantId, reason: &str, now: Timestamp) -> (v: Self)
        ensures
            v.want_id == want_id,
            v.reason@ == reason@,
            v.assigned_at == now,
    {
        ActantialView { want_id, reason: reason.to_string(), assigned_at: now }
    }

    pub fn with_reason(self, reason: &str) -> (v: Self)
        ensures
            v.want_id == self.want_id,
            v.reason@ == reason@,
            v.assigned_at == self.assigned_at,
    {
        ActantialView { reason: reason.to_string(), ..self }
    }
}

/// An intensity, once held within 0.0 to 1.0, stays where it is when held
/// again; every input, a NaN too, ends up a number from 0.0 to 1.0; and a
/// number already in that range is kept.
pub proof fn law_clamp_unit_is_stable(b: u32)
    ensures
        clamp_unit(clamp_unit(b)) == clamp_unit(b),
        !is_nan_bits(clamp_unit(b)),
        0 <= order_key(clamp_unit(b)) <= order_key(ONE_BITS),
        !is_nan_bits(b) && 0 <= order_key(b) <= order_key(ONE_BITS) ==> clamp_unit(b) == b,
{
    assert(!is_nan_bits(ZERO_BITS)) by (bit_vector);
    assert(!is_nan_bits(ONE_BITS)) by (bit_vector);
    assert((ONE_BITS & 0x8000_0000u32) == 0) by (bit_vector);
    assert((ONE_BITS & 0x7fff_ffffu32) == ONE_BITS) by (bit_vector);
    assert((ZERO_BITS & 0x8000_0000u32) == 0) by (bit_vector);
    assert((ZERO_BITS & 0x7fff_ffffu32) == 0) by (bit_vector);
}

} // verus!
