//! Compendium content vocabulary: where content comes from and what kind it is.

use crate::text::{chars_of, str_eq, string_from_chars, to_lowercase, to_uppercase, lowercase, uppercase};
use vstd::prelude::*;

verus! {

/// Type of content source (for UI badges and filtering).
#[derive(Debug, Clone, Copy, PartialEq, Eq, Structural, Hash)]
pub enum SourceType {
    /// Official publisher content.
    Official,
    /// Third-party published content.
    ThirdParty,
    /// User-created homebrew content.
    Homebrew,
    /// System Reference Document (free/open content).
    Srd,
}

impl Default for SourceType {
    fn default() -> (d: Self)
        ensures
            d == SourceType::Official,
    {
        SourceType::Official
    }
}

impl SourceType {
    /// Display label.
    pub fn label(&self) -> (r: &'static str)
        ensures
            r == match self {
                SourceType::Official => "Official",
                SourceType::ThirdParty => "Third Party",
                SourceType::Homebrew => "Homebrew",
                SourceType::Srd => "SRD",
            },
    {
        match self {
            SourceType::Official => "Official",
            SourceType::ThirdParty => "Third Party",
            SourceType::Homebrew => "Homebrew",
            SourceType::Srd => "SRD",
        }
    }
}

/// The full name and source type of a known book code (already upper-cased).
pub open spec fn known_source(s: Seq<char>) -> Option<(&'static str, SourceType)> {
    if s == "PHB"@ {
        Some(("Player's Handbook", SourceType::Official))
    } else     if s == "DMG"@ {
        Some(("Dungeon Master's Guide", SourceType::Official))
    } else     if s == "MM"@ {
        Some(("Monster Manual", SourceType::Official))
    } else     if s == "XGE"@ || s == "XGTE"@ {
        Some(("Xanathar's Guide to Everything", SourceType::Official))
    } else     if s == "TCE"@ || s == "TCOE"@ {
        Some(("Tasha's Cauldron of Everything", SourceType::Official))
    } else     if s == "VGM"@ || s == "VGTM"@ {
        Some(("Volo's Guide to Monsters", SourceType::Official))
    } else     if s == "MTF"@ || s == "MTOF"@ {
        Some(("Mordenkainen's Tome of Foes", SourceType::Official))
    } else     if s == "SCAG"@ {
        Some(("Sword Coast Adventurer's Guide", SourceType::Official))
    } else     if s == "FTD"@ {
        Some(("Fizban's Treasury of Dragons", SourceType::Official))
    } else     if s == "MPMM"@ {
        Some(("Mordenkainen Presents: Monsters of the Multiverse", SourceType::Official))
    } else     if s == "BGG"@ || s == "BGGD"@ {
        Some(("Bigby Presents: Glory of the Giants", SourceType::Official))
    } else     if s == "BMT"@ {
        Some(("The Book of Many Things", SourceType::Official))
    } else     if s == "SRD"@ || s == "SRD5"@ {
        Some(("System Reference Document 5.1", SourceType::Srd))
    } else     if s == "BASIC"@ || s == "BASIC RULES"@ {
        Some(("Basic Rules", SourceType::Srd))
    } else     if s == "KP"@ || s == "KOBOLD"@ {
        Some(("Kobold Press", SourceType::ThirdParty))
    } else     if s == "MC"@ || s == "MCDM"@ {
        Some(("MCDM Productions", SourceType::ThirdParty))
    } else     if s == "HB"@ || s == "HOMEBREW"@ {
        Some(("Homebrew", SourceType::Homebrew))
    } else {
        None
    }
}

fn lookup_source(upper: &str) -> (r: Option<(&'static str, SourceType)>)
    ensures
        r == known_source(upper@),
{
        if str_eq(upper, "PHB") {
            return Some(("Player's Handbook", SourceType::Official));
        }
        if str_eq(upper, "DMG") {
            return Some(("Dungeon Master's Guide", SourceType::Official));
        }
        if str_eq(upper, "MM") {
            return Some(("Monster Manual", SourceType::Official));
        }
        if str_eq(upper, "XGE") || str_eq(upper, "XGTE") {
            return Some(("Xanathar's Guide to Everything", SourceType::Official));
        }
        if str_eq(upper, "TCE") || str_eq(upper, "TCOE") {
            return Some(("Tasha's Cauldron of Everything", SourceType::Official));
        }
        if str_eq(upper, "VGM") || str_eq(upper, "VGTM") {
            return Some(("Volo's Guide to Monsters", SourceType::Official));
        }
        if str_eq(upper, "MTF") || str_eq(upper, "MTOF") {
            return Some(("Mordenkainen's Tome of Foes", SourceType::Official));
        }
        if str_eq(upper, "SCAG") {
            return Some(("Sword Coast Adventurer's Guide", SourceType::Official));
        }
        if str_eq(upper, "FTD") {
            return Some(("Fizban's Treasury of Dragons", SourceType::Official));
        }
        if str_eq(upper, "MPMM") {
            return Some(("Mordenkainen Presents: Monsters of the Multiverse", SourceType::Official));
        }
        if str_eq(upper, "BGG") || str_eq(upper, "BGGD") {
            return Some(("Bigby Presents: Glory of the Giants", SourceType::Official));
        }
        if str_eq(upper, "BMT") {
            return Some(("The Book of Many Things", SourceType::Official));
        }
        if str_eq(upper, "SRD") || str_eq(upper, "SRD5") {
            return Some(("System Reference Document 5.1", SourceType::Srd));
        }
        if str_eq(upper, "BASIC") || str_eq(upper, "BASIC RULES") {
            return Some(("Basic Rules", SourceType::Srd));
        }
        if str_eq(upper, "KP") || str_eq(upper, "KOBOLD") {
            return Some(("Kobold Press", SourceType::ThirdParty));
        }
        if str_eq(upper, "MC") || str_eq(upper, "MCDM") {
            return Some(("MCDM Productions", SourceType::ThirdParty));
        }
        if str_eq(upper, "HB") || str_eq(upper, "HOMEBREW") {
            return Some(("Homebrew", SourceType::Homebrew));
        }
    None
}

/// Source information for a content item.
#[derive(Debug, Clone, PartialEq, Eq)]
pub struct ContentSource {
    /// Short code (e.g. "PHB", "XGE", "Homebrew").
    code: String,
    /// Full name (e.g. "Player's Handbook").
    name: String,
    /// Source type for categorization.
    source_type: SourceType,
    /// Page reference.
    page: Option<u32>,
}

/// Abstract state of a content source.
pub ghost struct ContentSourceView {
    pub code: Seq<char>,
    pub name: Seq<char>,
    pub source_type: SourceType,
    pub page: Option<u32>,
}

impl View for ContentSource {
    type V = ContentSourceView;

    closed spec fn view(&self) -> ContentSourceView {
        ContentSourceView {
            code: self.code@,
            name: self.name@,
            source_type: self.source_type,
            page: self.page,
        }
    }
}

impl ContentSource {
    /// A source with the given code, name and type, without a page.
    pub fn new(code: &str, name: &str, source_type: SourceType) -> (c: Self)
        ensures
            c@ == (ContentSourceView { code: code@, name: name@, source_type, page: None }),
    {
        ContentSource { code: code.to_owned(), name: name.to_owned(), source_type, page: None }
    }

    /// A source from a book code: the code is stored upper-cased, and known
    /// codes give their full name and type; unknown codes keep the code as
    /// the name and count as official.
    pub fn from_code(code: &str) -> (c: Self)
        ensures
            c@.code == uppercase(code@),
            c@.page is None,
            match known_source(uppercase(code@)) {
                Some((n, t)) => c@.name == n@ && c@.source_type == t,
                None => c@.name == code@ && c@.source_type == SourceType::Official,
            },
    {
        let upper = to_uppercase(code);
        match lookup_source(upper.as_str()) {
            Some((name, source_type)) => ContentSource {
                code: upper,
                name: name.to_owned(),
                source_type,
                page: None,
            },
            None => ContentSource {
                code: upper,
                name: code.to_owned(),
                source_type: SourceType::Official,
                page: None,
            },
        }
    }

    pub fn code(&self) -> (r: &str)
        ensures
            r@ == self@.code,
    {
        self.code.as_str()
    }

    pub fn name(&self) -> (r: &str)
        ensures
            r@ == self@.name,
    {
        self.name.as_str()
    }

    pub fn source_type(&self) -> (r: &SourceType)
        ensures
            *r == self@.source_type,
    {
        &self.source_type
    }

    pub fn page(&self) -> (r: Option<u32>)
        ensures
            r == self@.page,
    {
        self.page
    }

    /// This source with a page reference.
    pub fn with_page(self, page: u32) -> (c: Self)
        ensures
            c@ == (ContentSourceView { page: Some(page), ..self@ }),
    {
        ContentSource { page: Some(page), ..self }
    }

    /// This source with the given type.
    pub fn with_source_type(self, source_type: SourceType) -> (c: Self)
        ensures
            c@ == (ContentSourceView { source_type, ..self@ }),
    {
        ContentSource { source_type, ..self }
    }

    /// A homebrew source with the given name (code "HB").
    pub fn homebrew(name: &str) -> (c: Self)
        ensures
            c@ == (ContentSourceView {
                code: "HB"@,
                name: name@,
                source_type: SourceType::Homebrew,
                page: None,
            }),
    {
        ContentSource {
            code: "HB".to_owned(),
            name: name.to_owned(),
            source_type: SourceType::Homebrew,
            page: None,
        }
    }
}

/// Generic content types across game systems.
#[derive(Debug, Clone, PartialEq, Eq, Hash)]
pub enum ContentType {
    CharacterOrigin,
    CharacterClass,
    CharacterBackground,
    CharacterSuborigin,
    CharacterSubclass,
    Spell,
    Feat,
    Ability,
    ClassFeature,
    Weapon,
    Armor,
    Item,
    MagicItem,
    /// Custom content type for system-specific needs.
    Custom(String),
}

/// `s` with every space replaced by an underscore.
pub open spec fn spaces_to_underscores(s: Seq<char>) -> Seq<char> {
    s.map_values(|c: char| if c == ' ' { '_' } else { c })
}

impl ContentType {
    /// Human-readable name.
    pub open spec fn spec_display_name(&self) -> Seq<char> {
        match self {
            ContentType::CharacterOrigin => "Origin"@,
            ContentType::CharacterClass => "Class"@,
            ContentType::CharacterBackground => "Background"@,
            ContentType::CharacterSuborigin => "Subrace"@,
            ContentType::CharacterSubclass => "Subclass"@,
            ContentType::Spell => "Spell"@,
            ContentType::Feat => "Feat"@,
            ContentType::Ability => "Ability"@,
            ContentType::ClassFeature => "Class Feature"@,
            ContentType::Weapon => "Weapon"@,
            ContentType::Armor => "Armor"@,
            ContentType::Item => "Item"@,
            ContentType::MagicItem => "Magic Item"@,
            ContentType::Custom(name) => name@,
        }
    }

    /// Human-readable name.
    pub fn display_name(&self) -> (r: &str)
        ensures
            r@ == self.spec_display_name(),
    {
        match self {
            ContentType::CharacterOrigin => "Origin",
            ContentType::CharacterClass => "Class",
            ContentType::CharacterBackground => "Background",
            ContentType::CharacterSuborigin => "Subrace",
            ContentType::CharacterSubclass => "Subclass",
            ContentType::Spell => "Spell",
            ContentType::Feat => "Feat",
            ContentType::Ability => "Ability",
            ContentType::ClassFeature => "Class Feature",
            ContentType::Weapon => "Weapon",
            ContentType::Armor => "Armor",
            ContentType::Item => "Item",
            ContentType::MagicItem => "Magic Item",
            ContentType::Custom(name) => name.as_str(),
        }
    }

    /// Machine-readable slug: a fixed slug per type, and for custom types the
    /// lower-cased name with spaces turned into underscores.
    pub open spec fn spec_slug(&self) -> Seq<char> {
        match self {
            ContentType::CharacterOrigin => "origin"@,
            ContentType::CharacterClass => "class"@,
            ContentType::CharacterBackground => "background"@,
            ContentType::CharacterSuborigin => "suborigin"@,
            ContentType::CharacterSubclass => "subclass"@,
            ContentType::Spell => "spell"@,
            ContentType::Feat => "feat"@,
            ContentType::Ability => "ability"@,
            ContentType::ClassFeature => "class_feature"@,
            ContentType::Weapon => "weapon"@,
            ContentType::Armor => "armor"@,
            ContentType::Item => "item"@,
            ContentType::MagicItem => "magic_item"@,
            ContentType::Custom(name) => spaces_to_underscores(lowercase(name@)),
        }
    }

    /// Machine-readable slug.
    pub fn slug(&self) -> (r: String)
        ensures
            r@ == self.spec_slug(),
    {
        match self {
            ContentType::CharacterOrigin => "origin".to_owned(),
            ContentType::CharacterClass => "class".to_owned(),
            ContentType::CharacterBackground => "background".to_owned(),
            ContentType::CharacterSuborigin => "suborigin".to_owned(),
            ContentType::CharacterSubclass => "subclass".to_owned(),
            ContentType::Spell => "spell".to_owned(),
            ContentType::Feat => "feat".to_owned(),
            ContentType::Ability => "ability".to_owned(),
            ContentType::ClassFeature => "class_feature".to_owned(),
            ContentType::Weapon => "weapon".to_owned(),
            ContentType::Armor => "armor".to_owned(),
            ContentType::Item => "item".to_owned(),
            ContentType::MagicItem => "magic_item".to_owned(),
            ContentType::Custom(name) => {
                let lower = to_lowercase(name.as_str());
                let v = chars_of(lower.as_str());
                let mut w: Vec<char> = Vec::new();
                for i in 0..v.len()
                    invariant
                        v@ == lowercase(name@),
                        w@ == spaces_to_underscores(v@.take(i as int)),
                {
                    let c = v[i];
                    w.push(if c == ' ' { '_' } else { c });
                    assert(v@.take(i + 1) =~= v@.take(i as int).push(c));
                    assert(w@ =~= spaces_to_underscores(v@.take(i + 1)));
                }
                assert(v@.take(v.len() as int) =~= v@);
                string_from_chars(&w)
            },
        }
    }
}

} // verus!
