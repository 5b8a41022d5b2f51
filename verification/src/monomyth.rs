//! Stages of the monomyth (the Hero's Journey).

use crate::text::str_eq;
use vstd::prelude::*;

verus! {

/// The stage of the monomyth (Hero's Journey).
#[derive(Debug, Clone, Copy, PartialEq, Eq, Structural, Hash)]
pub enum MonomythStage {
    /// The hero's normal life before the adventure
    OrdinaryWorld,
    /// The hero receives a challenge or quest
    CallToAdventure,
    /// The hero hesitates or refuses the call
    RefusalOfTheCall,
    /// The hero encounters a mentor figure
    MeetingTheMentor,
    /// The hero commits to the adventure
    CrossingTheThreshold,
    /// The hero faces challenges and makes allies/enemies
    TestsAlliesEnemies,
    /// The hero approaches the main challenge
    ApproachToInnermostCave,
    /// The hero faces the greatest challenge
    Ordeal,
    /// The hero gains something from the ordeal
    Reward,
    /// The hero begins the journey home
    TheRoadBack,
    /// The hero is transformed by the experience
    Resurrection,
    /// The hero returns with new wisdom
    ReturnWithElixir,
}

impl Default for MonomythStage {
    fn default() -> (d: Self)
        ensures
            d == MonomythStage::OrdinaryWorld,
    {
        MonomythStage::OrdinaryWorld
    }
}

/// The stage whose PascalCase name is `s`, if any.
pub open spec fn monomyth_stage_named(s: Seq<char>) -> Option<MonomythStage> {
    if s == "OrdinaryWorld"@ {
        Some(MonomythStage::OrdinaryWorld)
    } else     if s == "CallToAdventure"@ {
        Some(MonomythStage::CallToAdventure)
    } else     if s == "RefusalOfTheCall"@ {
        Some(MonomythStage::RefusalOfTheCall)
    } else     if s == "MeetingTheMentor"@ {
        Some(MonomythStage::MeetingTheMentor)
    } else     if s == "CrossingTheThreshold"@ {
        Some(MonomythStage::CrossingTheThreshold)
    } else     if s == "TestsAlliesEnemies"@ {
        Some(MonomythStage::TestsAlliesEnemies)
    } else     if s == "ApproachToInnermostCave"@ {
        Some(MonomythStage::ApproachToInnermostCave)
    } else     if s == "Ordeal"@ {
        Some(MonomythStage::Ordeal)
    } else     if s == "Reward"@ {
        Some(MonomythStage::Reward)
    } else     if s == "TheRoadBack"@ {
        Some(MonomythStage::TheRoadBack)
    } else     if s == "Resurrection"@ {
        Some(MonomythStage::Resurrection)
    } else     if s == "ReturnWithElixir"@ {
        Some(MonomythStage::ReturnWithElixir)
    } else {
        None
    }
}

/// The PascalCase name of each stage.
pub open spec fn monomyth_stage_name(x: MonomythStage) -> &'static str {
    match x {
        MonomythStage::OrdinaryWorld => "OrdinaryWorld",
        MonomythStage::CallToAdventure => "CallToAdventure",
        MonomythStage::RefusalOfTheCall => "RefusalOfTheCall",
        MonomythStage::MeetingTheMentor => "MeetingTheMentor",
        MonomythStage::CrossingTheThreshold => "CrossingTheThreshold",
        MonomythStage::TestsAlliesEnemies => "TestsAlliesEnemies",
        MonomythStage::ApproachToInnermostCave => "ApproachToInnermostCave",
        MonomythStage::Ordeal => "Ordeal",
        MonomythStage::Reward => "Reward",
        MonomythStage::TheRoadBack => "TheRoadBack",
        MonomythStage::Resurrection => "Resurrection",
        MonomythStage::ReturnWithElixir => "ReturnWithElixir",
    }
}

/// Each stage's name parses back to that stage, and no two stages share a name.
pub proof fn law_monomyth_name_round_trip(x: MonomythStage, y: MonomythStage)
    ensures
        monomyth_stage_named(monomyth_stage_name(x)@) == Some(x),
        x != y ==> monomyth_stage_name(x)@ != monomyth_stage_name(y)@,
{
    lemma_monomyth_name(x);
    lemma_monomyth_name(y);
}

proof fn lemma_monomyth_name(x: MonomythStage)
    ensures
        monomyth_stage_named(monomyth_stage_name(x)@) == Some(x),
{
    match x {
        MonomythStage::OrdinaryWorld => {
            reveal_strlit("OrdinaryWorld");
        },
        MonomythStage::CallToAdventure => {
            reveal_strlit("OrdinaryWorld");
            reveal_strlit("CallToAdventure");
            assert("CallToAdventure"@.len() != "OrdinaryWorld"@.len());
        },
        MonomythStage::RefusalOfTheCall => {
            reveal_strlit("OrdinaryWorld");
            reveal_strlit("CallToAdventure");
            reveal_strlit("RefusalOfTheCall");
            assert("RefusalOfTheCall"@.len() != "OrdinaryWorld"@.len());
            assert("RefusalOfTheCall"@.len() != "CallToAdventure"@.len());
        },
        MonomythStage::MeetingTheMentor => {
            reveal_strlit("OrdinaryWorld");
            reveal_strlit("CallToAdventure");
            reveal_strlit("RefusalOfTheCall");
            reveal_strlit("MeetingTheMentor");
            assert("MeetingTheMentor"@.len() != "OrdinaryWorld"@.len());
            assert("MeetingTheMentor"@.len() != "CallToAdventure"@.len());
            assert("MeetingTheMentor"@[0] != "RefusalOfTheCall"@[0]);
        },
        MonomythStage::CrossingTheThreshold => {
            reveal_strlit("OrdinaryWorld");
            reveal_strlit("CallToAdventure");
            reveal_strlit("RefusalOfTheCall");
            reveal_strlit("MeetingTheMentor");
            reveal_strlit("CrossingTheThreshold");
            assert("CrossingTheThreshold"@.len() != "OrdinaryWorld"@.len());
            assert("CrossingTheThreshold"@.len() != "CallToAdventure"@.len());
            assert("CrossingTheThreshold"@.len() != "RefusalOfTheCall"@.len());
            assert("CrossingTheThreshold"@.len() != "MeetingTheMentor"@.len());
        },
        MonomythStage::TestsAlliesEnemies => {
            reveal_strlit("OrdinaryWorld");
            reveal_strlit("CallToAdventure");
            reveal_strlit("RefusalOfTheCall");
            reveal_strlit("MeetingTheMentor");
            reveal_strlit("CrossingTheThreshold");
            reveal_strlit("TestsAlliesEnemies");
            assert("TestsAlliesEnemies"@.len() != "OrdinaryWorld"@.len());
            assert("TestsAlliesEnemies"@.len() != "CallToAdventure"@.len());
            assert("TestsAlliesEnemies"@.len() != "RefusalOfTheCall"@.len());
            assert("TestsAlliesEnemies"@.len() != "MeetingTheMentor"@.len());
            assert("TestsAlliesEnemies"@.len() != "CrossingTheThreshold"@.len());
        },
        MonomythStage::ApproachToInnermostCave => {
            reveal_strlit("OrdinaryWorld");
            reveal_strlit("CallToAdventure");
            reveal_strlit("RefusalOfTheCall");
            reveal_strlit("MeetingTheMentor");
            reveal_strlit("CrossingTheThreshold");
            reveal_strlit("TestsAlliesEnemies");
            reveal_strlit("ApproachToInnermostCave");
            assert("ApproachToInnermostCave"@.len() != "OrdinaryWorld"@.len());
            assert("ApproachToInnermostCave"@.len() != "CallToAdventure"@.len());
            assert("ApproachToInnermostCave"@.len() != "RefusalOfTheCall"@.len());
            assert("ApproachToInnermostCave"@.len() != "MeetingTheMentor"@.len());
            assert("ApproachToInnermostCave"@.len() != "CrossingTheThreshold"@.len());
            assert("ApproachToInnermostCave"@.len() != "TestsAlliesEnemies"@.len());
        },
        MonomythStage::Ordeal => {
            reveal_strlit("OrdinaryWorld");
            reveal_strlit("CallToAdventure");
            reveal_strlit("RefusalOfTheCall");
            reveal_strlit("MeetingTheMentor");
            reveal_strlit("CrossingTheThreshold");
            reveal_strlit("TestsAlliesEnemies");
            reveal_strlit("ApproachToInnermostCave");
            reveal_strlit("Ordeal");
            assert("Ordeal"@.len() != "OrdinaryWorld"@.len());
            assert("Ordeal"@.len() != "CallToAdventure"@.len());
            assert("Ordeal"@.len() != "RefusalOfTheCall"@.len());
            assert("Ordeal"@.len() != "MeetingTheMentor"@.len());
            assert("Ordeal"@.len() != "CrossingTheThreshold"@.len());
            assert("Ordeal"@.len() != "TestsAlliesEnemies"@.len());
            assert("Ordeal"@.len() != "ApproachToInnermostCave"@.len());
        },
        MonomythStage::Reward => {
            reveal_strlit("OrdinaryWorld");
            reveal_strlit("CallToAdventure");
            reveal_strlit("RefusalOfTheCall");
            reveal_strlit("MeetingTheMentor");
            reveal_strlit("CrossingTheThreshold");
            reveal_strlit("TestsAlliesEnemies");
            reveal_strlit("ApproachToInnermostCave");
            reveal_strlit("Ordeal");
            reveal_strlit("Reward");
            assert("Reward"@.len() != "OrdinaryWorld"@.len());
            assert("Reward"@.len() != "CallToAdventure"@.len());
            assert("Reward"@.len() != "RefusalOfTheCall"@.len());
            assert("Reward"@.len() != "MeetingTheMentor"@.len());
            assert("Reward"@.len() != "CrossingTheThreshold"@.len());
            assert("Reward"@.len() != "TestsAlliesEnemies"@.len());
            assert("Reward"@.len() != "ApproachToInnermostCave"@.len());
            assert("Reward"@[0] != "Ordeal"@[0]);
        },
        MonomythStage::TheRoadBack => {
            reveal_strlit("OrdinaryWorld");
            reveal_strlit("CallToAdventure");
            reveal_strlit("RefusalOfTheCall");
            reveal_strlit("MeetingTheMentor");
            reveal_strlit("CrossingTheThreshold");
            reveal_strlit("TestsAlliesEnemies");
            reveal_strlit("ApproachToInnermostCave");
            reveal_strlit("Ordeal");
            reveal_strlit("Reward");
            reveal_strlit("TheRoadBack");
            assert("TheRoadBack"@.len() != "OrdinaryWorld"@.len());
            assert("TheRoadBack"@.len() != "CallToAdventure"@.len());
            assert("TheRoadBack"@.len() != "RefusalOfTheCall"@.len());
            assert("TheRoadBack"@.len() != "MeetingTheMentor"@.len());
            assert("TheRoadBack"@.len() != "CrossingTheThreshold"@.len());
            assert("TheRoadBack"@.len() != "TestsAlliesEnemies"@.len());
            assert("TheRoadBack"@.len() != "ApproachToInnermostCave"@.len());
            assert("TheRoadBack"@.len() != "Ordeal"@.len());
            assert("TheRoadBack"@.len() != "Reward"@.len());
        },
        MonomythStage::Resurrection => {
            reveal_strlit("OrdinaryWorld");
            reveal_strlit("CallToAdventure");
            reveal_strlit("RefusalOfTheCall");
            reveal_strlit("MeetingTheMentor");
            reveal_strlit("CrossingTheThreshold");
            reveal_strlit("TestsAlliesEnemies");
            reveal_strlit("ApproachToInnermostCave");
            reveal_strlit("Ordeal");
            reveal_strlit("Reward");
            reveal_strlit("TheRoadBack");
            reveal_strlit("Resurrection");
            assert("Resurrection"@.len() != "OrdinaryWorld"@.len());
            assert("Resurrection"@.len() != "CallToAdventure"@.len());
            assert("Resurrection"@.len() != "RefusalOfTheCall"@.len());
            assert("Resurrection"@.len() != "MeetingTheMentor"@.len());
            assert("Resurrection"@.len() != "CrossingTheThreshold"@.len());
            assert("Resurrection"@.len() != "TestsAlliesEnemies"@.len());
            assert("Resurrection"@.len() != "ApproachToInnermostCave"@.len());
            assert("Resurrection"@.len() != "Ordeal"@.len());
            assert("Resurrection"@.len() != "Reward"@.len());
            assert("Resurrection"@.len() != "TheRoadBack"@.len());
        },
        MonomythStage::ReturnWithElixir => {
            reveal_strlit("OrdinaryWorld");
            reveal_strlit("CallToAdventure");
            reveal_strlit("RefusalOfTheCall");
            reveal_strlit("MeetingTheMentor");
            reveal_strlit("CrossingTheThreshold");
            reveal_strlit("TestsAlliesEnemies");
            reveal_strlit("ApproachToInnermostCave");
            reveal_strlit("Ordeal");
            reveal_strlit("Reward");
            reveal_strlit("TheRoadBack");
            reveal_strlit("Resurrection");
            reveal_strlit("ReturnWithElixir");
            assert("ReturnWithElixir"@.len() != "OrdinaryWorld"@.len());
            assert("ReturnWithElixir"@.len() != "CallToAdventure"@.len());
            assert("ReturnWithElixir"@[2] != "RefusalOfTheCall"@[2]);
            assert("ReturnWithElixir"@[0] != "MeetingTheMentor"@[0]);
            assert("ReturnWithElixir"@.len() != "CrossingTheThreshold"@.len());
            assert("ReturnWithElixir"@.len() != "TestsAlliesEnemies"@.len());
            assert("ReturnWithElixir"@.len() != "ApproachToInnermostCave"@.len());
            assert("ReturnWithElixir"@.len() != "Ordeal"@.len());
            assert("ReturnWithElixir"@.len() != "Reward"@.len());
            assert("ReturnWithElixir"@.len() != "TheRoadBack"@.len());
            assert("ReturnWithElixir"@.len() != "Resurrection"@.len());
        },
    }
}

impl MonomythStage {
    /// PascalCase name of this stage.
    pub fn as_str(&self) -> (r: &'static str)
        ensures
            r == monomyth_stage_name(*self),
    {
        match self {
            MonomythStage::OrdinaryWorld => "OrdinaryWorld",
            MonomythStage::CallToAdventure => "CallToAdventure",
            MonomythStage::RefusalOfTheCall => "RefusalOfTheCall",
            MonomythStage::MeetingTheMentor => "MeetingTheMentor",
            MonomythStage::CrossingTheThreshold => "CrossingTheThreshold",
            MonomythStage::TestsAlliesEnemies => "TestsAlliesEnemies",
            MonomythStage::ApproachToInnermostCave => "ApproachToInnermostCave",
            MonomythStage::Ordeal => "Ordeal",
            MonomythStage::Reward => "Reward",
            MonomythStage::TheRoadBack => "TheRoadBack",
            MonomythStage::Resurrection => "Resurrection",
            MonomythStage::ReturnWithElixir => "ReturnWithElixir",
        }
    }

    /// Narrative function of this stage.
    pub fn description(&self) -> (r: &'static str)
        ensures
            r == match self {
                MonomythStage::OrdinaryWorld => "The hero's normal life before the adventure begins",
                MonomythStage::CallToAdventure => "Something disrupts the ordinary world",
                MonomythStage::RefusalOfTheCall => "The hero hesitates, showing their humanity",
                MonomythStage::MeetingTheMentor => "A guide appears to prepare the hero",
                MonomythStage::CrossingTheThreshold => "The hero commits and enters the special world",
                MonomythStage::TestsAlliesEnemies => "The hero learns the rules of the new world",
                MonomythStage::ApproachToInnermostCave => "The hero prepares for the central ordeal",
                MonomythStage::Ordeal => "The hero faces their greatest fear",
                MonomythStage::Reward => "The hero takes possession of the treasure",
                MonomythStage::TheRoadBack => "The hero deals with consequences of the ordeal",
                MonomythStage::Resurrection => "The hero is tested once more and transformed",
                MonomythStage::ReturnWithElixir => "The hero returns with something to share",
            },
    {
        match self {
            MonomythStage::OrdinaryWorld => "The hero's normal life before the adventure begins",
            MonomythStage::CallToAdventure => "Something disrupts the ordinary world",
            MonomythStage::RefusalOfTheCall => "The hero hesitates, showing their humanity",
            MonomythStage::MeetingTheMentor => "A guide appears to prepare the hero",
            MonomythStage::CrossingTheThreshold => "The hero commits and enters the special world",
            MonomythStage::TestsAlliesEnemies => "The hero learns the rules of the new world",
            MonomythStage::ApproachToInnermostCave => "The hero prepares for the central ordeal",
            MonomythStage::Ordeal => "The hero faces their greatest fear",
            MonomythStage::Reward => "The hero takes possession of the treasure",
            MonomythStage::TheRoadBack => "The hero deals with consequences of the ordeal",
            MonomythStage::Resurrection => "The hero is tested once more and transformed",
            MonomythStage::ReturnWithElixir => "The hero returns with something to share",
        }
    }

    /// The stage whose PascalCase name is `text`, if any.
    pub fn from_name(text: &str) -> (r: Option<Self>)
        ensures
            r == monomyth_stage_named(text@),
    {
        if str_eq(text, "OrdinaryWorld") {
            return Some(MonomythStage::OrdinaryWorld);
        }
        if str_eq(text, "CallToAdventure") {
            return Some(MonomythStage::CallToAdventure);
        }
        if str_eq(text, "RefusalOfTheCall") {
            return Some(MonomythStage::RefusalOfTheCall);
        }
        if str_eq(text, "MeetingTheMentor") {
            return Some(MonomythStage::MeetingTheMentor);
        }
        if str_eq(text, "CrossingTheThreshold") {
            return Some(MonomythStage::CrossingTheThreshold);
        }
        if str_eq(text, "TestsAlliesEnemies") {
            return Some(MonomythStage::TestsAlliesEnemies);
        }
        if str_eq(text, "ApproachToInnermostCave") {
            return Some(MonomythStage::ApproachToInnermostCave);
        }
        if str_eq(text, "Ordeal") {
            return Some(MonomythStage::Ordeal);
        }
        if str_eq(text, "Reward") {
            return Some(MonomythStage::Reward);
        }
        if str_eq(text, "TheRoadBack") {
            return Some(MonomythStage::TheRoadBack);
        }
        if str_eq(text, "Resurrection") {
            return Some(MonomythStage::Resurrection);
        }
        if str_eq(text, "ReturnWithElixir") {
            return Some(MonomythStage::ReturnWithElixir);
        }
        None
    }
}

impl std::str::FromStr for MonomythStage {
    type Err = ();

    fn from_str(s: &str) -> (r: Result<Self, Self::Err>)
        ensures
            r == match monomyth_stage_named(s@) {
                Some(stage) => Ok::<MonomythStage, ()>(stage),
                None => Err(()),
            },
    {
        match MonomythStage::from_name(s) {
            Some(stage) => Ok(stage),
            None => Err(()),
        }
    }
}

} // verus!
