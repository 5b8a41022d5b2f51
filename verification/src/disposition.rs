//! NPC disposition (emotional stance) and relationship (social distance)
//! levels toward a player character.

use crate::narrative::{is_nan_bits, key_of, nan_bits, order_key, Sentiment};
use crate::text::{append_str, is_ascii_text, lemma_ascii_case, lowercase, str_eq, to_lowercase, uppercase};
use vstd::prelude::*;

verus! {

/// How an NPC emotionally feels about a specific PC.
#[derive(Debug, Clone, Copy, PartialEq, Eq, Structural, Hash)]
pub enum DispositionLevel {
    Hostile,
    Suspicious,
    Dismissive,
    Neutral,
    Respectful,
    Friendly,
    Grateful,
}

impl Default for DispositionLevel {
    fn default() -> (d: Self)
        ensures
            d == DispositionLevel::Neutral,
    {
        DispositionLevel::Neutral
    }
}

/// The level named by an already lower-cased text, if any.
pub open spec fn dispositionlevel_named(s: Seq<char>) -> Option<DispositionLevel> {
        if s == "hostile"@ {
            Some(DispositionLevel::Hostile)
        } else         if s == "suspicious"@ {
            Some(DispositionLevel::Suspicious)
        } else         if s == "dismissive"@ {
            Some(DispositionLevel::Dismissive)
        } else         if s == "neutral"@ {
            Some(DispositionLevel::Neutral)
        } else         if s == "respectful"@ {
            Some(DispositionLevel::Respectful)
        } else         if s == "friendly"@ {
            Some(DispositionLevel::Friendly)
        } else         if s == "grateful"@ {
            Some(DispositionLevel::Grateful)
        } else {
            None
        }
}

impl DispositionLevel {
    /// Get all disposition levels for UI dropdowns.
    pub fn all() -> (r: &'static [DispositionLevel])
        ensures
            r@ == all_dispositions(),
    {
        &[DispositionLevel::Hostile, DispositionLevel::Suspicious, DispositionLevel::Dismissive, DispositionLevel::Neutral, DispositionLevel::Respectful, DispositionLevel::Friendly, DispositionLevel::Grateful]
    }

    /// Human-readable name.
    pub fn display_name(&self) -> (r: &'static str)
        ensures
            r == match self {
                DispositionLevel::Hostile => "Hostile",
                DispositionLevel::Suspicious => "Suspicious",
                DispositionLevel::Dismissive => "Dismissive",
                DispositionLevel::Neutral => "Neutral",
                DispositionLevel::Respectful => "Respectful",
                DispositionLevel::Friendly => "Friendly",
                DispositionLevel::Grateful => "Grateful",
            },
    {
        match self {
            DispositionLevel::Hostile => "Hostile",
            DispositionLevel::Suspicious => "Suspicious",
            DispositionLevel::Dismissive => "Dismissive",
            DispositionLevel::Neutral => "Neutral",
            DispositionLevel::Respectful => "Respectful",
            DispositionLevel::Friendly => "Friendly",
            DispositionLevel::Grateful => "Grateful",
        }
    }

    /// Emoji for the UI.
    pub fn emoji(&self) -> (r: &'static str)
        ensures
            r == match self {
                DispositionLevel::Hostile => "😠",
                DispositionLevel::Suspicious => "🤨",
                DispositionLevel::Dismissive => "😒",
                DispositionLevel::Neutral => "😐",
                DispositionLevel::Respectful => "🤝",
                DispositionLevel::Friendly => "😊",
                DispositionLevel::Grateful => "🙏",
            },
    {
        match self {
            DispositionLevel::Hostile => "😠",
            DispositionLevel::Suspicious => "🤨",
            DispositionLevel::Dismissive => "😒",
            DispositionLevel::Neutral => "😐",
            DispositionLevel::Respectful => "🤝",
            DispositionLevel::Friendly => "😊",
            DispositionLevel::Grateful => "🙏",
        }
    }

    /// The level named by an already lower-cased text, if any.
    pub fn from_lowercase(lower: &str) -> (r: Option<Self>)
        ensures
            r == dispositionlevel_named(lower@),
    {
        if str_eq(lower, "hostile") {
            return Some(DispositionLevel::Hostile);
        }
        if str_eq(lower, "suspicious") {
            return Some(DispositionLevel::Suspicious);
        }
        if str_eq(lower, "dismissive") {
            return Some(DispositionLevel::Dismissive);
        }
        if str_eq(lower, "neutral") {
            return Some(DispositionLevel::Neutral);
        }
        if str_eq(lower, "respectful") {
            return Some(DispositionLevel::Respectful);
        }
        if str_eq(lower, "friendly") {
            return Some(DispositionLevel::Friendly);
        }
        if str_eq(lower, "grateful") {
            return Some(DispositionLevel::Grateful);
        }
        None
    }

    /// Parses a level name in any letter case; the error names the text.
    pub fn parse_name(s: &str) -> (r: Result<Self, String>)
        ensures
            match dispositionlevel_named(lowercase(s@)) {
                Some(l) => r == Ok::<DispositionLevel, String>(l),
                None => r matches Err(m) && m@ == "Unknown disposition level: "@ + s@,
            },
    {
        let lower = to_lowercase(s);
        match Self::from_lowercase(lower.as_str()) {
            Some(l) => Ok(l),
            None => {
                let mut m = String::new();
                append_str(&mut m, "Unknown disposition level: ");
                append_str(&mut m, s);
                Err(m)
            },
        }
    }
}

/// Long-term relationship level (social distance) between an NPC and a PC.
#[derive(Debug, Clone, Copy, PartialEq, Eq, Structural, Hash)]
pub enum RelationshipLevel {
    Ally,
    Friend,
    Acquaintance,
    Stranger,
    Rival,
    Enemy,
    Nemesis,
}

impl Default for RelationshipLevel {
    fn default() -> (d: Self)
        ensures
            d == RelationshipLevel::Stranger,
    {
        RelationshipLevel::Stranger
    }
}

/// The level named by an already lower-cased text, if any.
pub open spec fn relationshiplevel_named(s: Seq<char>) -> Option<RelationshipLevel> {
        if s == "ally"@ {
            Some(RelationshipLevel::Ally)
        } else         if s == "friend"@ {
            Some(RelationshipLevel::Friend)
        } else         if s == "acquaintance"@ {
            Some(RelationshipLevel::Acquaintance)
        } else         if s == "stranger"@ {
            Some(RelationshipLevel::Stranger)
        } else         if s == "rival"@ {
            Some(RelationshipLevel::Rival)
        } else         if s == "enemy"@ {
            Some(RelationshipLevel::Enemy)
        } else         if s == "nemesis"@ {
            Some(RelationshipLevel::Nemesis)
        } else {
            None
        }
}

impl RelationshipLevel {
    /// Get all relationship levels for UI dropdowns.
    pub fn all() -> (r: &'static [RelationshipLevel])
        ensures
            r@ == all_relationships(),
    {
        &[RelationshipLevel::Ally, RelationshipLevel::Friend, RelationshipLevel::Acquaintance, RelationshipLevel::Stranger, RelationshipLevel::Rival, RelationshipLevel::Enemy, RelationshipLevel::Nemesis]
    }

    /// Human-readable name.
    pub fn display_name(&self) -> (r: &'static str)
        ensures
            r == match self {
                RelationshipLevel::Ally => "Ally",
                RelationshipLevel::Friend => "Friend",
                RelationshipLevel::Acquaintance => "Acquaintance",
                RelationshipLevel::Stranger => "Stranger",
                RelationshipLevel::Rival => "Rival",
                RelationshipLevel::Enemy => "Enemy",
                RelationshipLevel::Nemesis => "Nemesis",
            },
    {
        match self {
            RelationshipLevel::Ally => "Ally",
            RelationshipLevel::Friend => "Friend",
            RelationshipLevel::Acquaintance => "Acquaintance",
            RelationshipLevel::Stranger => "Stranger",
            RelationshipLevel::Rival => "Rival",
            RelationshipLevel::Enemy => "Enemy",
            RelationshipLevel::Nemesis => "Nemesis",
        }
    }

    /// Emoji for the UI.
    pub fn emoji(&self) -> (r: &'static str)
        ensures
            r == match self {
                RelationshipLevel::Ally => "🤝",
                RelationshipLevel::Friend => "😄",
                RelationshipLevel::Acquaintance => "👋",
                RelationshipLevel::Stranger => "❓",
                RelationshipLevel::Rival => "😒",
                RelationshipLevel::Enemy => "⚔️",
                RelationshipLevel::Nemesis => "💀",
            },
    {
        match self {
            RelationshipLevel::Ally => "🤝",
            RelationshipLevel::Friend => "😄",
            RelationshipLevel::Acquaintance => "👋",
            RelationshipLevel::Stranger => "❓",
            RelationshipLevel::Rival => "😒",
            RelationshipLevel::Enemy => "⚔️",
            RelationshipLevel::Nemesis => "💀",
        }
    }

    /// The level named by an already lower-cased text, if any.
    pub fn from_lowercase(lower: &str) -> (r: Option<Self>)
        ensures
            r == relationshiplevel_named(lower@),
    {
        if str_eq(lower, "ally") {
            return Some(RelationshipLevel::Ally);
        }
        if str_eq(lower, "friend") {
            return Some(RelationshipLevel::Friend);
        }
        if str_eq(lower, "acquaintance") {
            return Some(RelationshipLevel::Acquaintance);
        }
        if str_eq(lower, "stranger") {
            return Some(RelationshipLevel::Stranger);
        }
        if str_eq(lower, "rival") {
            return Some(RelationshipLevel::Rival);
        }
        if str_eq(lower, "enemy") {
            return Some(RelationshipLevel::Enemy);
        }
        if str_eq(lower, "nemesis") {
            return Some(RelationshipLevel::Nemesis);
        }
        None
    }

    /// Parses a level name in any letter case; the error names the text.
    pub fn parse_name(s: &str) -> (r: Result<Self, String>)
        ensures
            match relationshiplevel_named(lowercase(s@)) {
                Some(l) => r == Ok::<RelationshipLevel, String>(l),
                None => r matches Err(m) && m@ == "Unknown relationship level: "@ + s@,
            },
    {
        let lower = to_lowercase(s);
        match Self::from_lowercase(lower.as_str()) {
            Some(l) => Ok(l),
            None => {
                let mut m = String::new();
                append_str(&mut m, "Unknown relationship level: ");
                append_str(&mut m, s);
                Err(m)
            },
        }
    }
}


impl std::str::FromStr for DispositionLevel {
    type Err = String;

    fn from_str(s: &str) -> (r: Result<Self, Self::Err>)
        ensures
            match dispositionlevel_named(lowercase(s@)) {
                Some(l) => r == Ok::<DispositionLevel, String>(l),
                None => r matches Err(m) && m@ == "Unknown disposition level: "@ + s@,
            },
    {
        DispositionLevel::parse_name(s)
    }
}

impl std::str::FromStr for RelationshipLevel {
    type Err = String;

    fn from_str(s: &str) -> (r: Result<Self, Self::Err>)
        ensures
            match relationshiplevel_named(lowercase(s@)) {
                Some(l) => r == Ok::<RelationshipLevel, String>(l),
                None => r matches Err(m) && m@ == "Unknown relationship level: "@ + s@,
            },
    {
        RelationshipLevel::parse_name(s)
    }
}


// ---------------------------------------------------------------------------
// Sentiment thresholds
// ---------------------------------------------------------------------------

/// Whether the number with bits `b` is at least the one with bits `t`
/// (false with a NaN).
pub open spec fn bits_at_least(b: u32, t: u32) -> bool {
    !is_nan_bits(b) && !is_nan_bits(t) && order_key(b) >= order_key(t)
}

fn at_least_bits(b: u32, t: u32) -> (r: bool)
    ensures
        r == bits_at_least(b, t),
{
    !nan_bits(b) && !nan_bits(t) && key_of(b) >= key_of(t)
}

/// Bits of 0.6, 0.3, 0.1, -0.1, -0.3 and -0.5: the lower bounds of the
/// dispositions from grateful down to suspicious.
pub const GRATEFUL_FROM: u32 = 0x3f19_999au32;
pub const FRIENDLY_FROM: u32 = 0x3e99_999au32;
pub const RESPECTFUL_FROM: u32 = 0x3dcc_cccdu32;
pub const NEUTRAL_FROM: u32 = 0xbdcc_cccdu32;
pub const DISMISSIVE_FROM: u32 = 0xbe99_999au32;
pub const SUSPICIOUS_FROM: u32 = 0xbf00_0000u32;

/// The disposition a sentiment (bits of a single-precision number) stands
/// for: grateful from 0.6, friendly from 0.3, respectful from 0.1, neutral
/// from -0.1, dismissive from -0.3, suspicious from -0.5, otherwise (NaN
/// too) hostile.
pub open spec fn disposition_for(b: u32) -> DispositionLevel {
    if bits_at_least(b, GRATEFUL_FROM) {
        DispositionLevel::Grateful
    } else if bits_at_least(b, FRIENDLY_FROM) {
        DispositionLevel::Friendly
    } else if bits_at_least(b, RESPECTFUL_FROM) {
        DispositionLevel::Respectful
    } else if bits_at_least(b, NEUTRAL_FROM) {
        DispositionLevel::Neutral
    } else if bits_at_least(b, DISMISSIVE_FROM) {
        DispositionLevel::Dismissive
    } else if bits_at_least(b, SUSPICIOUS_FROM) {
        DispositionLevel::Suspicious
    } else {
        DispositionLevel::Hostile
    }
}

/// Bits of the typical sentiment of each disposition: 0.7, 0.5, 0.2, 0.0,
/// -0.2, -0.4 and -0.8.
pub open spec fn base_sentiment_bits(d: DispositionLevel) -> u32 {
    match d {
        DispositionLevel::Grateful => 0x3f33_3333u32,
        DispositionLevel::Friendly => 0x3f00_0000u32,
        DispositionLevel::Respectful => 0x3e4c_cccdu32,
        DispositionLevel::Neutral => 0x0000_0000u32,
        DispositionLevel::Dismissive => 0xbe4c_cccdu32,
        DispositionLevel::Suspicious => 0xbecc_cccdu32,
        DispositionLevel::Hostile => 0xbf4c_cccdu32,
    }
}

/// Bits of the interaction modifier of each relationship level: 0.5, 0.3,
/// 0.1, 0.0, -0.2, -0.4 and -0.6.
pub open spec fn modifier_bits(r: RelationshipLevel) -> u32 {
    match r {
        RelationshipLevel::Ally => 0x3f00_0000u32,
        RelationshipLevel::Friend => 0x3e99_999au32,
        RelationshipLevel::Acquaintance => 0x3dcc_cccdu32,
        RelationshipLevel::Stranger => 0x0000_0000u32,
        RelationshipLevel::Rival => 0xbe4c_cccdu32,
        RelationshipLevel::Enemy => 0xbecc_cccdu32,
        RelationshipLevel::Nemesis => 0xbf19_999au32,
    }
}

/// Rank of a disposition, from hostile (0) to grateful (6).
pub open spec fn disposition_rank(d: DispositionLevel) -> int {
    match d {
        DispositionLevel::Hostile => 0,
        DispositionLevel::Suspicious => 1,
        DispositionLevel::Dismissive => 2,
        DispositionLevel::Neutral => 3,
        DispositionLevel::Respectful => 4,
        DispositionLevel::Friendly => 5,
        DispositionLevel::Grateful => 6,
    }
}

impl DispositionLevel {
    /// The disposition a sentiment stands for (see `disposition_for`).
    pub fn from_sentiment(sentiment: Sentiment) -> (d: Self)
        ensures
            d == disposition_for(sentiment.bits),
    {
        let b = sentiment.bits;
        if at_least_bits(b, GRATEFUL_FROM) {
            DispositionLevel::Grateful
        } else if at_least_bits(b, FRIENDLY_FROM) {
            DispositionLevel::Friendly
        } else if at_least_bits(b, RESPECTFUL_FROM) {
            DispositionLevel::Respectful
        } else if at_least_bits(b, NEUTRAL_FROM) {
            DispositionLevel::Neutral
        } else if at_least_bits(b, DISMISSIVE_FROM) {
            DispositionLevel::Dismissive
        } else if at_least_bits(b, SUSPICIOUS_FROM) {
            DispositionLevel::Suspicious
        } else {
            DispositionLevel::Hostile
        }
    }

    /// The typical sentiment of this disposition.
    pub fn base_sentiment(&self) -> (s: Sentiment)
        ensures
            s.bits == base_sentiment_bits(*self),
    {
        let bits: u32 = match self {
            DispositionLevel::Grateful => 0x3f33_3333u32,
            DispositionLevel::Friendly => 0x3f00_0000u32,
            DispositionLevel::Respectful => 0x3e4c_cccdu32,
            DispositionLevel::Neutral => 0x0000_0000u32,
            DispositionLevel::Dismissive => 0xbe4c_cccdu32,
            DispositionLevel::Suspicious => 0xbecc_cccdu32,
            DispositionLevel::Hostile => 0xbf4c_cccdu32,
        };
        Sentiment::from_bits(bits)
    }
}

impl RelationshipLevel {
    /// How much this relationship shifts interactions.
    pub fn interaction_modifier(&self) -> (s: Sentiment)
        ensures
            s.bits == modifier_bits(*self),
    {
        let bits: u32 = match self {
            RelationshipLevel::Ally => 0x3f00_0000u32,
            RelationshipLevel::Friend => 0x3e99_999au32,
            RelationshipLevel::Acquaintance => 0x3dcc_cccdu32,
            RelationshipLevel::Stranger => 0x0000_0000u32,
            RelationshipLevel::Rival => 0xbe4c_cccdu32,
            RelationshipLevel::Enemy => 0xbecc_cccdu32,
            RelationshipLevel::Nemesis => 0xbf19_999au32,
        };
        Sentiment::from_bits(bits)
    }
}

/// The positions of the constants in the order of numbers.
proof fn lemma_threshold_keys()
    ensures
        !is_nan_bits(GRATEFUL_FROM) && order_key(GRATEFUL_FROM) == 0x3f19_999a,
        !is_nan_bits(FRIENDLY_FROM) && order_key(FRIENDLY_FROM) == 0x3e99_999a,
        !is_nan_bits(RESPECTFUL_FROM) && order_key(RESPECTFUL_FROM) == 0x3dcc_cccd,
        !is_nan_bits(NEUTRAL_FROM) && order_key(NEUTRAL_FROM) == -0x3dcc_cccd,
        !is_nan_bits(DISMISSIVE_FROM) && order_key(DISMISSIVE_FROM) == -0x3e99_999a,
        !is_nan_bits(SUSPICIOUS_FROM) && order_key(SUSPICIOUS_FROM) == -0x3f00_0000,
        !is_nan_bits(0x3f33_3333u32) && order_key(0x3f33_3333u32) == 0x3f33_3333,
        !is_nan_bits(0x3f00_0000u32) && order_key(0x3f00_0000u32) == 0x3f00_0000,
        !is_nan_bits(0x3e4c_cccdu32) && order_key(0x3e4c_cccdu32) == 0x3e4c_cccd,
        !is_nan_bits(0u32) && order_key(0u32) == 0,
        !is_nan_bits(0xbe4c_cccdu32) && order_key(0xbe4c_cccdu32) == -0x3e4c_cccd,
        !is_nan_bits(0xbecc_cccdu32) && order_key(0xbecc_cccdu32) == -0x3ecc_cccd,
        !is_nan_bits(0xbf4c_cccdu32) && order_key(0xbf4c_cccdu32) == -0x3f4c_cccd,
        !is_nan_bits(0xbf19_999au32) && order_key(0xbf19_999au32) == -0x3f19_999a,
{
    assert(0xbf19_999au32 & 0x7f80_0000u32 != 0x7f80_0000u32 && 0xbf19_999au32 & 0x8000_0000u32 != 0 && 0xbf19_999au32 & 0x7fff_ffffu32 == 0x3f19_999au32) by (bit_vector);
    assert(0x3f19_999au32 & 0x7f80_0000u32 != 0x7f80_0000u32 && 0x3f19_999au32 & 0x8000_0000u32 == 0 && 0x3f19_999au32 & 0x7fff_ffffu32 == 0x3f19_999au32) by (bit_vector);
    assert(0x3e99_999au32 & 0x7f80_0000u32 != 0x7f80_0000u32 && 0x3e99_999au32 & 0x8000_0000u32 == 0 && 0x3e99_999au32 & 0x7fff_ffffu32 == 0x3e99_999au32) by (bit_vector);
    assert(0x3dcc_cccdu32 & 0x7f80_0000u32 != 0x7f80_0000u32 && 0x3dcc_cccdu32 & 0x8000_0000u32 == 0 && 0x3dcc_cccdu32 & 0x7fff_ffffu32 == 0x3dcc_cccdu32) by (bit_vector);
    assert(0xbdcc_cccdu32 & 0x7f80_0000u32 != 0x7f80_0000u32 && 0xbdcc_cccdu32 & 0x8000_0000u32 != 0 && 0xbdcc_cccdu32 & 0x7fff_ffffu32 == 0x3dcc_cccdu32) by (bit_vector);
    assert(0xbe99_999au32 & 0x7f80_0000u32 != 0x7f80_0000u32 && 0xbe99_999au32 & 0x8000_0000u32 != 0 && 0xbe99_999au32 & 0x7fff_ffffu32 == 0x3e99_999au32) by (bit_vector);
    assert(0xbf00_0000u32 & 0x7f80_0000u32 != 0x7f80_0000u32 && 0xbf00_0000u32 & 0x8000_0000u32 != 0 && 0xbf00_0000u32 & 0x7fff_ffffu32 == 0x3f00_0000u32) by (bit_vector);
    assert(0x3f33_3333u32 & 0x7f80_0000u32 != 0x7f80_0000u32 && 0x3f33_3333u32 & 0x8000_0000u32 == 0 && 0x3f33_3333u32 & 0x7fff_ffffu32 == 0x3f33_3333u32) by (bit_vector);
    assert(0x3f00_0000u32 & 0x7f80_0000u32 != 0x7f80_0000u32 && 0x3f00_0000u32 & 0x8000_0000u32 == 0 && 0x3f00_0000u32 & 0x7fff_ffffu32 == 0x3f00_0000u32) by (bit_vector);
    assert(0x3e4c_cccdu32 & 0x7f80_0000u32 != 0x7f80_0000u32 && 0x3e4c_cccdu32 & 0x8000_0000u32 == 0 && 0x3e4c_cccdu32 & 0x7fff_ffffu32 == 0x3e4c_cccdu32) by (bit_vector);
    assert(0u32 & 0x7f80_0000u32 != 0x7f80_0000u32 && 0u32 & 0x8000_0000u32 == 0 && 0u32 & 0x7fff_ffffu32 == 0u32) by (bit_vector);
    assert(0xbe4c_cccdu32 & 0x7f80_0000u32 != 0x7f80_0000u32 && 0xbe4c_cccdu32 & 0x8000_0000u32 != 0 && 0xbe4c_cccdu32 & 0x7fff_ffffu32 == 0x3e4c_cccdu32) by (bit_vector);
    assert(0xbecc_cccdu32 & 0x7f80_0000u32 != 0x7f80_0000u32 && 0xbecc_cccdu32 & 0x8000_0000u32 != 0 && 0xbecc_cccdu32 & 0x7fff_ffffu32 == 0x3ecc_cccdu32) by (bit_vector);
    assert(0xbf4c_cccdu32 & 0x7f80_0000u32 != 0x7f80_0000u32 && 0xbf4c_cccdu32 & 0x8000_0000u32 != 0 && 0xbf4c_cccdu32 & 0x7fff_ffffu32 == 0x3f4c_cccdu32) by (bit_vector);
}

/// Each disposition's typical sentiment stands for that disposition.
pub proof fn law_base_sentiment_round_trip(d: DispositionLevel)
    ensures
        disposition_for(base_sentiment_bits(d)) == d,
{
    lemma_threshold_keys();
}

/// A higher sentiment never stands for a lower disposition.
pub proof fn law_disposition_is_monotone(a: u32, b: u32)
    requires
        !is_nan_bits(a),
        !is_nan_bits(b),
        order_key(a) <= order_key(b),
    ensures
        disposition_rank(disposition_for(a)) <= disposition_rank(disposition_for(b)),
{
    lemma_threshold_keys();
}

/// The display name of each disposition level.
pub open spec fn disposition_name(x: DispositionLevel) -> &'static str {
    match x {
        DispositionLevel::Hostile => "Hostile",
        DispositionLevel::Suspicious => "Suspicious",
        DispositionLevel::Dismissive => "Dismissive",
        DispositionLevel::Neutral => "Neutral",
        DispositionLevel::Respectful => "Respectful",
        DispositionLevel::Friendly => "Friendly",
        DispositionLevel::Grateful => "Grateful",
    }
}

/// Each disposition level's display name parses back to it in any letter case (as it is,
/// all upper-case or all lower-case), and no two names are alike.
pub proof fn law_disposition_name_round_trip(x: DispositionLevel, y: DispositionLevel)
    ensures
        dispositionlevel_named(lowercase(disposition_name(x)@)) == Some(x),
        dispositionlevel_named(lowercase(uppercase(disposition_name(x)@))) == Some(x),
        dispositionlevel_named(lowercase(lowercase(disposition_name(x)@))) == Some(x),
        x != y ==> disposition_name(x)@ != disposition_name(y)@,
{
    lemma_disposition_name(x);
    lemma_disposition_name(y);
}

proof fn lemma_disposition_name(x: DispositionLevel)
    ensures
        is_ascii_text(disposition_name(x)@),
        dispositionlevel_named(lowercase(disposition_name(x)@)) == Some(x),
        lowercase(uppercase(disposition_name(x)@)) == lowercase(disposition_name(x)@),
        lowercase(lowercase(disposition_name(x)@)) == lowercase(disposition_name(x)@),
{
    match x {
        DispositionLevel::Hostile => {
            reveal_strlit("Hostile");
            reveal_strlit("hostile");
            assert(is_ascii_text("Hostile"@));
            assert(lowercase("Hostile"@) =~= "hostile"@);
            lemma_ascii_case("Hostile"@);
        },
        DispositionLevel::Suspicious => {
            reveal_strlit("Suspicious");
            reveal_strlit("hostile");
            reveal_strlit("suspicious");
            assert(is_ascii_text("Suspicious"@));
            assert(lowercase("Suspicious"@) =~= "suspicious"@);
            assert("suspicious"@.len() != "hostile"@.len());
            lemma_ascii_case("Suspicious"@);
        },
        DispositionLevel::Dismissive => {
            reveal_strlit("Dismissive");
            reveal_strlit("hostile");
            reveal_strlit("suspicious");
            reveal_strlit("dismissive");
            assert(is_ascii_text("Dismissive"@));
            assert(lowercase("Dismissive"@) =~= "dismissive"@);
            assert("dismissive"@.len() != "hostile"@.len());
            assert("dismissive"@[0] != "suspicious"@[0]);
            lemma_ascii_case("Dismissive"@);
        },
        DispositionLevel::Neutral => {
            reveal_strlit("Neutral");
            reveal_strlit("hostile");
            reveal_strlit("suspicious");
            reveal_strlit("dismissive");
            reveal_strlit("neutral");
            assert(is_ascii_text("Neutral"@));
            assert(lowercase("Neutral"@) =~= "neutral"@);
            assert("neutral"@[0] != "hostile"@[0]);
            assert("neutral"@.len() != "suspicious"@.len());
            assert("neutral"@.len() != "dismissive"@.len());
            lemma_ascii_case("Neutral"@);
        },
        DispositionLevel::Respectful => {
            reveal_strlit("Respectful");
            reveal_strlit("hostile");
            reveal_strlit("suspicious");
            reveal_strlit("dismissive");
            reveal_strlit("neutral");
            reveal_strlit("respectful");
            assert(is_ascii_text("Respectful"@));
            assert(lowercase("Respectful"@) =~= "respectful"@);
            assert("respectful"@.len() != "hostile"@.len());
            assert("respectful"@[0] != "suspicious"@[0]);
            assert("respectful"@[0] != "dismissive"@[0]);
            assert("respectful"@.len() != "neutral"@.len());
            lemma_ascii_case("Respectful"@);
        },
        DispositionLevel::Friendly => {
            reveal_strlit("Friendly");
            reveal_strlit("hostile");
            reveal_strlit("suspicious");
            reveal_strlit("dismissive");
            reveal_strlit("neutral");
            reveal_strlit("respectful");
            reveal_strlit("friendly");
            assert(is_ascii_text("Friendly"@));
            assert(lowercase("Friendly"@) =~= "friendly"@);
            assert("friendly"@.len() != "hostile"@.len());
            assert("friendly"@.len() != "suspicious"@.len());
            assert("friendly"@.len() != "dismissive"@.len());
            assert("friendly"@.len() != "neutral"@.len());
            assert("friendly"@.len() != "respectful"@.len());
            lemma_ascii_case("Friendly"@);
        },
        DispositionLevel::Grateful => {
            reveal_strlit("Grateful");
            reveal_strlit("hostile");
            reveal_strlit("suspicious");
            reveal_strlit("dismissive");
            reveal_strlit("neutral");
            reveal_strlit("respectful");
            reveal_strlit("friendly");
            reveal_strlit("grateful");
            assert(is_ascii_text("Grateful"@));
            assert(lowercase("Grateful"@) =~= "grateful"@);
            assert("grateful"@.len() != "hostile"@.len());
            assert("grateful"@.len() != "suspicious"@.len());
            assert("grateful"@.len() != "dismissive"@.len());
            assert("grateful"@.len() != "neutral"@.len());
            assert("grateful"@.len() != "respectful"@.len());
            assert("grateful"@[0] != "friendly"@[0]);
            lemma_ascii_case("Grateful"@);
        },
    }
}

/// The display name of each relationship level.
pub open spec fn relationship_name(x: RelationshipLevel) -> &'static str {
    match x {
        RelationshipLevel::Ally => "Ally",
        RelationshipLevel::Friend => "Friend",
        RelationshipLevel::Acquaintance => "Acquaintance",
        RelationshipLevel::Stranger => "Stranger",
        RelationshipLevel::Rival => "Rival",
        RelationshipLevel::Enemy => "Enemy",
        RelationshipLevel::Nemesis => "Nemesis",
    }
}

/// Each relationship level's display name parses back to it in any letter case (as it is,
/// all upper-case or all lower-case), and no two names are alike.
pub proof fn law_relationship_name_round_trip(x: RelationshipLevel, y: RelationshipLevel)
    ensures
        relationshiplevel_named(lowercase(relationship_name(x)@)) == Some(x),
        relationshiplevel_named(lowercase(uppercase(relationship_name(x)@))) == Some(x),
        relationshiplevel_named(lowercase(lowercase(relationship_name(x)@))) == Some(x),
        x != y ==> relationship_name(x)@ != relationship_name(y)@,
{
    lemma_relationship_name(x);
    lemma_relationship_name(y);
}

proof fn lemma_relationship_name(x: RelationshipLevel)
    ensures
        is_ascii_text(relationship_name(x)@),
        relationshiplevel_named(lowercase(relationship_name(x)@)) == Some(x),
        lowercase(uppercase(relationship_name(x)@)) == lowercase(relationship_name(x)@),
        lowercase(lowercase(relationship_name(x)@)) == lowercase(relationship_name(x)@),
{
    match x {
        RelationshipLevel::Ally => {
            reveal_strlit("Ally");
            reveal_strlit("ally");
            assert(is_ascii_text("Ally"@));
            assert(lowercase("Ally"@) =~= "ally"@);
            lemma_ascii_case("Ally"@);
        },
        RelationshipLevel::Friend => {
            reveal_strlit("Friend");
            reveal_strlit("ally");
            reveal_strlit("friend");
            assert(is_ascii_text("Friend"@));
            assert(lowercase("Friend"@) =~= "friend"@);
            assert("friend"@.len() != "ally"@.len());
            lemma_ascii_case("Friend"@);
        },
        RelationshipLevel::Acquaintance => {
            reveal_strlit("Acquaintance");
            reveal_strlit("ally");
            reveal_strlit("friend");
            reveal_strlit("acquaintance");
            assert(is_ascii_text("Acquaintance"@));
            assert(lowercase("Acquaintance"@) =~= "acquaintance"@);
            assert("acquaintance"@.len() != "ally"@.len());
            assert("acquaintance"@.len() != "friend"@.len());
            lemma_ascii_case("Acquaintance"@);
        },
        RelationshipLevel::Stranger => {
            reveal_strlit("Stranger");
            reveal_strlit("ally");
            reveal_strlit("friend");
            reveal_strlit("acquaintance");
            reveal_strlit("stranger");
            assert(is_ascii_text("Stranger"@));
            assert(lowercase("Stranger"@) =~= "stranger"@);
            assert("stranger"@.len() != "ally"@.len());
            assert("stranger"@.len() != "friend"@.len());
            assert("stranger"@.len() != "acquaintance"@.len());
            lemma_ascii_case("Stranger"@);
        },
        RelationshipLevel::Rival => {
            reveal_strlit("Rival");
            reveal_strlit("ally");
            reveal_strlit("friend");
            reveal_strlit("acquaintance");
            reveal_strlit("stranger");
            reveal_strlit("rival");
            assert(is_ascii_text("Rival"@));
            assert(lowercase("Rival"@) =~= "rival"@);
            assert("rival"@.len() != "ally"@.len());
            assert("rival"@.len() != "friend"@.len());
            assert("rival"@.len() != "acquaintance"@.len());
            assert("rival"@.len() != "stranger"@.len());
            lemma_ascii_case("Rival"@);
        },
        RelationshipLevel::Enemy => {
            reveal_strlit("Enemy");
            reveal_strlit("ally");
            reveal_strlit("friend");
            reveal_strlit("acquaintance");
            reveal_strlit("stranger");
            reveal_strlit("rival");
            reveal_strlit("enemy");
            assert(is_ascii_text("Enemy"@));
            assert(lowercase("Enemy"@) =~= "enemy"@);
            assert("enemy"@.len() != "ally"@.len());
            assert("enemy"@.len() != "friend"@.len());
            assert("enemy"@.len() != "acquaintance"@.len());
            assert("enemy"@.len() != "stranger"@.len());
            assert("enemy"@[0] != "rival"@[0]);
            lemma_ascii_case("Enemy"@);
        },
        RelationshipLevel::Nemesis => {
            reveal_strlit("Nemesis");
            reveal_strlit("ally");
            reveal_strlit("friend");
            reveal_strlit("acquaintance");
            reveal_strlit("stranger");
            reveal_strlit("rival");
            reveal_strlit("enemy");
            reveal_strlit("nemesis");
            assert(is_ascii_text("Nemesis"@));
            assert(lowercase("Nemesis"@) =~= "nemesis"@);
            assert("nemesis"@.len() != "ally"@.len());
            assert("nemesis"@.len() != "friend"@.len());
            assert("nemesis"@.len() != "acquaintance"@.len());
            assert("nemesis"@.len() != "stranger"@.len());
            assert("nemesis"@.len() != "rival"@.len());
            assert("nemesis"@.len() != "enemy"@.len());
            lemma_ascii_case("Nemesis"@);
        },
    }
}

/// The disposition levels, coldest first.
pub open spec fn all_dispositions() -> Seq<DispositionLevel> {
    seq![
        DispositionLevel::Hostile,
        DispositionLevel::Suspicious,
        DispositionLevel::Dismissive,
        DispositionLevel::Neutral,
        DispositionLevel::Respectful,
        DispositionLevel::Friendly,
        DispositionLevel::Grateful,
    ]
}

/// The relationship levels, closest first.
pub open spec fn all_relationships() -> Seq<RelationshipLevel> {
    seq![
        RelationshipLevel::Ally,
        RelationshipLevel::Friend,
        RelationshipLevel::Acquaintance,
        RelationshipLevel::Stranger,
        RelationshipLevel::Rival,
        RelationshipLevel::Enemy,
        RelationshipLevel::Nemesis,
    ]
}

/// The list of disposition levels holds every level once, from the coldest
/// typical sentiment to the warmest, with the default (neutral) in the middle.
pub proof fn law_dispositions_ordered_by_sentiment(d: DispositionLevel)
    ensures
        all_dispositions().contains(d),
        all_dispositions().no_duplicates(),
        all_dispositions()[3] == DispositionLevel::Neutral,
        forall|i: int, j: int|
            0 <= i < j < all_dispositions().len() ==> order_key(
                base_sentiment_bits(#[trigger] all_dispositions()[i]),
            ) < order_key(base_sentiment_bits(#[trigger] all_dispositions()[j])),
{
    lemma_threshold_keys();
    let l = all_dispositions();
    assert(l[disposition_rank(d)] == d);
    assert forall|i: int, j: int| 0 <= i < j < l.len() implies l[i] != l[j] by {
        assert(disposition_rank(l[i]) == i && disposition_rank(l[j]) == j);
    }
    assert forall|i: int, j: int| 0 <= i < j < l.len() implies order_key(
        base_sentiment_bits(#[trigger] l[i]),
    ) < order_key(base_sentiment_bits(#[trigger] l[j])) by {
        assert(disposition_rank(l[i]) == i && disposition_rank(l[j]) == j);
    }
}

/// Rank of a relationship level, from ally (0) to nemesis (6).
pub open spec fn relationship_rank(r: RelationshipLevel) -> int {
    match r {
        RelationshipLevel::Ally => 0,
        RelationshipLevel::Friend => 1,
        RelationshipLevel::Acquaintance => 2,
        RelationshipLevel::Stranger => 3,
        RelationshipLevel::Rival => 4,
        RelationshipLevel::Enemy => 5,
        RelationshipLevel::Nemesis => 6,
    }
}

/// The list of relationship levels holds every level once, from the largest
/// interaction modifier to the smallest, with the default (stranger, 0.0) in
/// the middle.
pub proof fn law_relationships_ordered_by_modifier(r: RelationshipLevel)
    ensures
        all_relationships().contains(r),
        all_relationships().no_duplicates(),
        all_relationships()[3] == RelationshipLevel::Stranger,
        modifier_bits(RelationshipLevel::Stranger) == 0,
        forall|i: int, j: int|
            0 <= i < j < all_relationships().len() ==> order_key(
                modifier_bits(#[trigger] all_relationships()[i]),
            ) > order_key(modifier_bits(#[trigger] all_relationships()[j])),
{
    lemma_threshold_keys();
    let l = all_relationships();
    assert(l[relationship_rank(r)] == r);
    assert forall|i: int, j: int| 0 <= i < j < l.len() implies l[i] != l[j] by {
        assert(relationship_rank(l[i]) == i && relationship_rank(l[j]) == j);
    }
    assert forall|i: int, j: int| 0 <= i < j < l.len() implies order_key(
        modifier_bits(#[trigger] l[i]),
    ) > order_key(modifier_bits(#[trigger] l[j])) by {
        assert(relationship_rank(l[i]) == i && relationship_rank(l[j]) == j);
    }
}

} // verus!
