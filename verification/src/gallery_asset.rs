//! Gallery assets: images attached to an entity, uploaded or generated, one
//! of which may be the active one.

use crate::ids::{AssetId, BatchId};
use crate::text::{opt_as_str, opt_str_text, opt_text};
use crate::value_objects::Timestamp;
use vstd::prelude::*;

verus! {

/// The settings an image was generated with.
#[derive(Debug, Clone, PartialEq)]
pub struct GenerationMetadata {
    /// Workflow used.
    pub workflow: String,
    /// Prompt used.
    pub prompt: String,
    pub negative_prompt: Option<String>,
    /// Random seed of the generation.
    pub seed: i64,
    /// Asset whose style was followed, if any.
    pub style_reference_id: Option<AssetId>,
    /// The batch the asset came from.
    pub batch_id: BatchId,
}


/// Abstract state of a gallery asset.
pub ghost struct GalleryAssetView<E, A> {
    pub id: AssetId,
    pub entity_type: E,
    pub entity_id: Seq<char>,
    pub asset_type: A,
    pub file_path: Seq<char>,
    pub is_active: bool,
    pub label: Option<Seq<char>>,
    pub generation_metadata: Option<GenerationMetadata>,
    pub created_at: Timestamp,
}

/// An image in an entity's gallery. The kinds of entity and asset are
/// carried as given (`E` and `A`).
#[derive(Debug, Clone)]
pub struct GalleryAsset<E, A> {
    id: AssetId,
    entity_type: E,
    entity_id: String,
    asset_type: A,
    file_path: String,
    is_active: bool,
    label: Option<String>,
    generation_metadata: Option<GenerationMetadata>,
    created_at: Timestamp,
}

impl<E, A> View for GalleryAsset<E, A> {
    type V = GalleryAssetView<E, A>;

    closed spec fn view(&self) -> GalleryAssetView<E, A> {
        GalleryAssetView {
            id: self.id,
            entity_type: self.entity_type,
            entity_id: self.entity_id@,
            asset_type: self.asset_type,
            file_path: self.file_path@,
            is_active: self.is_active,
            label: opt_text(self.label),
            generation_metadata: self.generation_metadata,
            created_at: self.created_at,
        }
    }
}

impl<E: Copy, A: Copy> GalleryAsset<E, A> {
    /// An uploaded asset: fresh id, inactive, without label or metadata.
    pub fn new(entity_type: E, entity_id: &str, asset_type: A, file_path: &str, now: Timestamp) -> (g: Self)
        ensures
            g@ == (GalleryAssetView {
                id: g@.id,
                entity_type,
                entity_id: entity_id@,
                asset_type,
                file_path: file_path@,
                is_active: false,
                label: None,
                generation_metadata: None,
                created_at: now,
            }),
    {
        GalleryAsset {
            id: AssetId::new(),
            entity_type,
            entity_id: entity_id.to_string(),
            asset_type,
            file_path: file_path.to_string(),
            is_active: false,
            label: None,
            generation_metadata: None,
            created_at: now,
        }
    }

    /// A generated asset: like `new`, with the generation settings.
    pub fn new_generated(
        entity_type: E,
        entity_id: &str,
        asset_type: A,
        file_path: &str,
        metadata: GenerationMetadata,
        now: Timestamp,
    ) -> (g: Self)
        ensures
            g@ == (GalleryAssetView {
                id: g@.id,
                entity_type,
                entity_id: entity_id@,
                asset_type,
                file_path: file_path@,
                is_active: false,
                label: None,
                generation_metadata: Some(metadata),
                created_at: now,
            }),
    {
        GalleryAsset {
            id: AssetId::new(),
            entity_type,
            entity_id: entity_id.to_string(),
            asset_type,
            file_path: file_path.to_string(),
            is_active: false,
            label: None,
            generation_metadata: Some(metadata),
            created_at: now,
        }
    }

    /// An asset from stored parts.
    pub fn reconstruct(
        id: AssetId,
        entity_type: E,
        entity_id: String,
        asset_type: A,
        file_path: String,
        is_active: bool,
        label: Option<String>,
        generation_metadata: Option<GenerationMetadata>,
        created_at: Timestamp,
    ) -> (g: Self)
        ensures
            g@ == (GalleryAssetView {
                id,
                entity_type,
                entity_id: entity_id@,
                asset_type,
                file_path: file_path@,
                is_active,
                label: opt_text(label),
                generation_metadata,
                created_at,
            }),
    {
        GalleryAsset {
            id,
            entity_type,
            entity_id,
            asset_type,
            file_path,
            is_active,
            label,
            generation_metadata,
            created_at,
        }
    }

    pub fn id(&self) -> (r: AssetId)
        ensures
            r == self@.id,
    {
        self.id
    }

    pub fn entity_type(&self) -> (r: E)
        ensures
            r == self@.entity_type,
    {
        self.entity_type
    }

    pub fn entity_id(&self) -> (r: &str)
        ensures
            r@ == self@.entity_id,
    {
        self.entity_id.as_str()
    }

    pub fn asset_type(&self) -> (r: A)
        ensures
            r == self@.asset_type,
    {
        self.asset_type
    }

    pub fn file_path(&self) -> (r: &str)
        ensures
            r@ == self@.file_path,
    {
        self.file_path.as_str()
    }

    pub fn is_active(&self) -> (r: bool)
        ensures
            r == self@.is_active,
    {
        self.is_active
    }

    pub fn label(&self) -> (r: Option<&str>)
        ensures
            opt_str_text(r) == self@.label,
    {
        opt_as_str(&self.label)
    }

    pub fn generation_metadata(&self) -> (r: Option<&GenerationMetadata>)
        ensures
            match r {
                Some(m) => self@.generation_metadata == Some(*m),
                None => self@.generation_metadata is None,
            },
    {
        match &self.generation_metadata {
            Some(m) => Some(m),
            None => None,
        }
    }

    pub fn created_at(&self) -> (r: Timestamp)
        ensures
            r == self@.created_at,
    {
        self.created_at
    }

    pub fn with_label(self, label: &str) -> (g: Self)
        ensures
            g@ == (GalleryAssetView { label: Some(label@), ..self@ }),
    {
        GalleryAsset { label: Some(label.to_string()), ..self }
    }

    pub fn set_active(self, active: bool) -> (g: Self)
        ensures
            g@ == (GalleryAssetView { is_active: active, ..self@ }),
    {
        GalleryAsset { is_active: active, ..self }
    }

    /// Makes this the active asset.
    pub fn activate(&mut self)
        ensures
            final(self)@ == (GalleryAssetView { is_active: true, ..old(self)@ }),
    {
        self.is_active = true;
    }

    pub fn deactivate(&mut self)
        ensures
            final(self)@ == (GalleryAssetView { is_active: false, ..old(self)@ }),
    {
        self.is_active = false;
    }

    pub fn update_label(&mut self, label: Option<String>)
        ensures
            final(self)@ == (GalleryAssetView { label: opt_text(label), ..old(self)@ }),
    {
        self.label = label;
    }

    /// Whether the asset was generated (has generation settings).
    pub fn is_generated(&self) -> (b: bool)
        ensures
            b == (self@.generation_metadata is Some),
    {
        self.generation_metadata.is_some()
    }
}

} // verus!
