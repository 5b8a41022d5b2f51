//! Domain model for a tabletop role-playing world builder: challenges and
//! their resolution rules, character content (spells, feats, features),
//! narrative triggers and the small vocabulary types they share.

pub mod text;
pub mod ids;
pub mod error;
pub mod resolution;
pub mod challenge;
pub mod disposition;
pub mod monomyth;
pub mod common;
pub mod lore;
pub mod observation;
pub mod location;
pub mod skill;
pub mod want;
pub mod region;
pub mod grid_map;
pub mod content_types;
pub mod tag;
pub mod spell;
pub mod feat;
pub mod class_feature;
pub mod character_content;
pub mod value_objects;
pub mod events;
pub mod character;
pub mod narrative;
pub mod narrative_event;
pub mod event_chain;
pub mod player_character;
pub mod scene;
pub mod staging;
pub mod story_event;
pub mod item;
pub mod interaction;
pub mod game_flag;
pub mod goal;
pub mod datetime;
pub mod character_sheet;
pub mod activation;
pub mod region_state;
pub mod location_state;
pub mod world;
pub mod gallery_asset;
pub mod generation_batch;
pub mod npc;
