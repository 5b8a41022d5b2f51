//! How a player character came to know where an NPC was.

use crate::error::DomainError;
use crate::ids::{CharacterId, LocationId, PlayerCharacterId, RegionId};
use crate::text::{append_str, lowercase, opt_as_str, opt_str_text, opt_text, str_eq, to_lowercase};
use crate::value_objects::Timestamp;
use vstd::prelude::*;

verus! {

/// How the PC learned about an NPC's whereabouts.
#[derive(Debug, Clone, Copy, PartialEq, Eq, Structural, Hash)]
pub enum ObservationType {
    /// PC saw the NPC directly
    Direct,
    /// PC heard about it from someone
    HeardAbout,
    /// PC deduced it from clues
    Deduced,
}

/// The type whose lower-case name is `s`, if any.
pub open spec fn observation_type_named(s: Seq<char>) -> Option<ObservationType> {
    if s == "direct"@ {
        Some(ObservationType::Direct)
    } else     if s == "heard_about"@ {
        Some(ObservationType::HeardAbout)
    } else     if s == "heardabout"@ {
        Some(ObservationType::HeardAbout)
    } else     if s == "deduced"@ {
        Some(ObservationType::Deduced)
    } else {
        None
    }
}

impl ObservationType {
    /// Human-readable name.
    pub fn display_name(&self) -> (r: &'static str)
        ensures
            r == match self {
                ObservationType::Direct => "Saw directly",
                ObservationType::HeardAbout => "Heard about",
                ObservationType::Deduced => "Deduced",
            },
    {
        match self {
            ObservationType::Direct => "Saw directly",
            ObservationType::HeardAbout => "Heard about",
            ObservationType::Deduced => "Deduced",
        }
    }

    /// Icon name for the UI.
    pub fn icon(&self) -> (r: &'static str)
        ensures
            r == match self {
                ObservationType::Direct => "eye",
                ObservationType::HeardAbout => "ear",
                ObservationType::Deduced => "brain",
            },
    {
        match self {
            ObservationType::Direct => "eye",
            ObservationType::HeardAbout => "ear",
            ObservationType::Deduced => "brain",
        }
    }

    /// The type whose lower-case name is `text`, if any.
    pub fn from_lowercase(text: &str) -> (r: Option<Self>)
        ensures
            r == observation_type_named(text@),
    {
        if str_eq(text, "direct") {
            return Some(ObservationType::Direct);
        }
        if str_eq(text, "heard_about") {
            return Some(ObservationType::HeardAbout);
        }
        if str_eq(text, "heardabout") {
            return Some(ObservationType::HeardAbout);
        }
        if str_eq(text, "deduced") {
            return Some(ObservationType::Deduced);
        }
        None
    }

    /// Parses a type name in any letter case.
    pub fn parse_name(s: &str) -> (r: Result<Self, DomainError>)
        ensures
            match observation_type_named(lowercase(s@)) {
                Some(t) => r matches Ok(x) && x == t,
                None => r matches Err(DomainError::Parse(m)) && m@ == "Invalid observation type: "@
                    + s@,
            },
    {
        let lower = to_lowercase(s);
        match Self::from_lowercase(lower.as_str()) {
            Some(t) => Ok(t),
            None => {
                let mut m = String::new();
                append_str(&mut m, "Invalid observation type: ");
                append_str(&mut m, s);
                Err(DomainError::Parse(m))
            },
        }
    }
}

impl std::str::FromStr for ObservationType {
    type Err = DomainError;

    fn from_str(s: &str) -> (r: Result<Self, Self::Err>)
        ensures
            match observation_type_named(lowercase(s@)) {
                Some(t) => r matches Ok(x) && x == t,
                None => r matches Err(DomainError::Parse(m)) && m@ == "Invalid observation type: "@
                    + s@,
            },
    {
        ObservationType::parse_name(s)
    }
}


/// Abstract state of an NPC observation.
pub ghost struct NpcObservationView {
    pub pc_id: PlayerCharacterId,
    pub npc_id: CharacterId,
    pub location_id: LocationId,
    pub region_id: RegionId,
    pub game_time: Timestamp,
    pub observation_type: ObservationType,
    pub is_revealed_to_player: bool,
    pub notes: Option<Seq<char>>,
    pub created_at: Timestamp,
}

/// A player character's knowledge of where an NPC was: what they believe,
/// which may differ from where the NPC really is.
#[derive(Debug, Clone)]
pub struct NpcObservation {
    pc_id: PlayerCharacterId,
    npc_id: CharacterId,
    location_id: LocationId,
    region_id: RegionId,
    game_time: Timestamp,
    observation_type: ObservationType,
    is_revealed_to_player: bool,
    notes: Option<String>,
    created_at: Timestamp,
}

impl View for NpcObservation {
    type V = NpcObservationView;

    closed spec fn view(&self) -> NpcObservationView {
        NpcObservationView {
            pc_id: self.pc_id,
            npc_id: self.npc_id,
            location_id: self.location_id,
            region_id: self.region_id,
            game_time: self.game_time,
            observation_type: self.observation_type,
            is_revealed_to_player: self.is_revealed_to_player,
            notes: opt_text(self.notes),
            created_at: self.created_at,
        }
    }
}

/// An observation without notes, of the given type and reveal.
pub open spec fn plain_observation(
    pc_id: PlayerCharacterId,
    npc_id: CharacterId,
    location_id: LocationId,
    region_id: RegionId,
    game_time: Timestamp,
    observation_type: ObservationType,
    is_revealed_to_player: bool,
    notes: Option<Seq<char>>,
    created_at: Timestamp,
) -> NpcObservationView {
    NpcObservationView {
        pc_id,
        npc_id,
        location_id,
        region_id,
        game_time,
        observation_type,
        is_revealed_to_player,
        notes,
        created_at,
    }
}

impl NpcObservation {
    /// The PC saw the NPC; the NPC's identity is revealed.
    pub fn direct(
        pc_id: PlayerCharacterId,
        npc_id: CharacterId,
        location_id: LocationId,
        region_id: RegionId,
        game_time: Timestamp,
        now: Timestamp,
    ) -> (o: Self)
        ensures
            o@ == plain_observation(pc_id, npc_id, location_id, region_id, game_time, ObservationType::Direct, true, None, now),
    {
        Self::direct_with_reveal(pc_id, npc_id, location_id, region_id, game_time, true, now)
    }

    /// The PC saw the NPC without learning who it was.
    pub fn direct_unrevealed(
        pc_id: PlayerCharacterId,
        npc_id: CharacterId,
        location_id: LocationId,
        region_id: RegionId,
        game_time: Timestamp,
        now: Timestamp,
    ) -> (o: Self)
        ensures
            o@ == plain_observation(pc_id, npc_id, location_id, region_id, game_time, ObservationType::Direct, false, None, now),
    {
        Self::direct_with_reveal(pc_id, npc_id, location_id, region_id, game_time, false, now)
    }

    fn direct_with_reveal(
        pc_id: PlayerCharacterId,
        npc_id: CharacterId,
        location_id: LocationId,
        region_id: RegionId,
        game_time: Timestamp,
        is_revealed_to_player: bool,
        now: Timestamp,
    ) -> (o: Self)
        ensures
            o@ == plain_observation(pc_id, npc_id, location_id, region_id, game_time, ObservationType::Direct, is_revealed_to_player, None, now),
    {
        NpcObservation {
            pc_id,
            npc_id,
            location_id,
            region_id,
            game_time,
            observation_type: ObservationType::Direct,
            is_revealed_to_player,
            notes: None,
            created_at: now,
        }
    }

    /// The PC was told where the NPC was.
    pub fn heard_about(
        pc_id: PlayerCharacterId,
        npc_id: CharacterId,
        location_id: LocationId,
        region_id: RegionId,
        game_time: Timestamp,
        notes: Option<String>,
        now: Timestamp,
    ) -> (o: Self)
        ensures
            o@ == plain_observation(pc_id, npc_id, location_id, region_id, game_time, ObservationType::HeardAbout, true, opt_text(notes), now),
    {
        NpcObservation {
            pc_id,
            npc_id,
            location_id,
            region_id,
            game_time,
            observation_type: ObservationType::HeardAbout,
            is_revealed_to_player: true,
            notes,
            created_at: now,
        }
    }

    /// The PC worked out where the NPC was.
    pub fn deduced(
        pc_id: PlayerCharacterId,
        npc_id: CharacterId,
        location_id: LocationId,
        region_id: RegionId,
        game_time: Timestamp,
        notes: Option<String>,
        now: Timestamp,
    ) -> (o: Self)
        ensures
            o@ == plain_observation(pc_id, npc_id, location_id, region_id, game_time, ObservationType::Deduced, true, opt_text(notes), now),
    {
        NpcObservation {
            pc_id,
            npc_id,
            location_id,
            region_id,
            game_time,
            observation_type: ObservationType::Deduced,
            is_revealed_to_player: true,
            notes,
            created_at: now,
        }
    }

    /// An observation from stored data.
    pub fn from_stored(
        pc_id: PlayerCharacterId,
        npc_id: CharacterId,
        location_id: LocationId,
        region_id: RegionId,
        game_time: Timestamp,
        observation_type: ObservationType,
        is_revealed_to_player: bool,
        notes: Option<String>,
        created_at: Timestamp,
    ) -> (o: Self)
        ensures
            o@ == plain_observation(pc_id, npc_id, location_id, region_id, game_time, observation_type, is_revealed_to_player, opt_text(notes), created_at),
    {
        NpcObservation {
            pc_id,
            npc_id,
            location_id,
            region_id,
            game_time,
            observation_type,
            is_revealed_to_player,
            notes,
            created_at,
        }
    }

    pub fn pc_id(&self) -> (r: PlayerCharacterId)
        ensures
            r == self@.pc_id,
    {
        self.pc_id
    }

    pub fn npc_id(&self) -> (r: CharacterId)
        ensures
            r == self@.npc_id,
    {
        self.npc_id
    }

    pub fn location_id(&self) -> (r: LocationId)
        ensures
            r == self@.location_id,
    {
        self.location_id
    }

    pub fn region_id(&self) -> (r: RegionId)
        ensures
            r == self@.region_id,
    {
        self.region_id
    }

    pub fn game_time(&self) -> (r: Timestamp)
        ensures
            r == self@.game_time,
    {
        self.game_time
    }

    pub fn observation_type(&self) -> (r: ObservationType)
        ensures
            r == self@.observation_type,
    {
        self.observation_type
    }

    pub fn is_revealed_to_player(&self) -> (r: bool)
        ensures
            r == self@.is_revealed_to_player,
    {
        self.is_revealed_to_player
    }

    pub fn notes(&self) -> (r: Option<&str>)
        ensures
            opt_str_text(r) == self@.notes,
    {
        opt_as_str(&self.notes)
    }

    pub fn created_at(&self) -> (r: Timestamp)
        ensures
            r == self@.created_at,
    {
        self.created_at
    }

    /// This observation with the given notes.
    pub fn with_notes(self, notes: &str) -> (o: Self)
        ensures
            o@ == (NpcObservationView { notes: Some(notes@), ..self@ }),
    {
        NpcObservation { notes: Some(notes.to_string()), ..self }
    }

    /// This observation with the NPC's identity revealed or not.
    pub fn with_revealed(self, revealed: bool) -> (o: Self)
        ensures
            o@ == (NpcObservationView { is_revealed_to_player: revealed, ..self@ }),
    {
        NpcObservation { is_revealed_to_player: revealed, ..self }
    }
}

/// An observation as shown to the player.
#[derive(Debug, Clone)]
pub struct ObservationSummary {
    pub npc_id: String,
    pub npc_name: String,
    pub npc_portrait: Option<String>,
    pub is_revealed_to_player: bool,
    pub location_name: String,
    pub region_name: String,
    pub game_time: Timestamp,
    pub observation_type: ObservationType,
    pub notes: Option<String>,
    /// How long ago, in game time, for display.
    pub time_ago_description: Option<String>,
}

impl ObservationSummary {
    /// A summary without portrait, notes or time description.
    pub fn new(
        npc_id: &str,
        npc_name: &str,
        is_revealed_to_player: bool,
        location_name: &str,
        region_name: &str,
        game_time: Timestamp,
        observation_type: ObservationType,
    ) -> (s: Self)
        ensures
            s.npc_id@ == npc_id@,
            s.npc_name@ == npc_name@,
            s.npc_portrait is None,
            s.is_revealed_to_player == is_revealed_to_player,
            s.location_name@ == location_name@,
            s.region_name@ == region_name@,
            s.game_time == game_time,
            s.observation_type == observation_type,
            s.notes is None,
            s.time_ago_description is None,
    {
        ObservationSummary {
            npc_id: npc_id.to_string(),
            npc_name: npc_name.to_string(),
            npc_portrait: None,
            is_revealed_to_player,
            location_name: location_name.to_string(),
            region_name: region_name.to_string(),
            game_time,
            observation_type,
            notes: None,
            time_ago_description: None,
        }
    }

    /// This summary with the given portrait.
    pub fn with_npc_portrait(self, portrait: &str) -> (s: Self)
        ensures
            s.npc_portrait matches Some(p) && p@ == portrait@,
            s == (ObservationSummary { npc_portrait: s.npc_portrait, ..self }),
    {
        ObservationSummary { npc_portrait: Some(portrait.to_string()), ..self }
    }

    /// This summary with the given notes.
    pub fn with_notes(self, notes: &str) -> (s: Self)
        ensures
            s.notes matches Some(n) && n@ == notes@,
            s == (ObservationSummary { notes: s.notes, ..self }),
    {
        ObservationSummary { notes: Some(notes.to_string()), ..self }
    }

    /// This summary with the given time description.
    pub fn with_time_ago_description(self, description: &str) -> (s: Self)
        ensures
            s.time_ago_description matches Some(d) && d@ == description@,
            s == (ObservationSummary { time_ago_description: s.time_ago_description, ..self }),
    {
        ObservationSummary { time_ago_description: Some(description.to_string()), ..self }
    }
}

} // verus!
