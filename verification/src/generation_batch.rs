//! Generation batches: requests for sets of generated images and their
//! progress from queue to selection.

use crate::ids::{AssetId, BatchId, WorldId};
use crate::text::{opt_as_str, opt_str_text, opt_text};
use crate::value_objects::Timestamp;
use vstd::prelude::*;

verus! {

/// Where a batch stands.
#[derive(Debug, Clone, PartialEq, Eq)]
pub enum BatchStatus {
    /// Waiting to start.
    Queued,
    /// Being generated; progress in percent.
    Generating { progress: u8 },
    /// Generated; waiting for the user to pick.
    ReadyForSelection,
    /// Done.
    Completed,
    /// Failed with the given error.
    Failed { error: String },
}

/// A request for a batch of generated assets. The kinds of entity and asset
/// are carried as given (`E` and `A`).
#[derive(Debug, Clone)]
pub struct GenerationRequest<E, A> {
    world_id: WorldId,
    entity_type: E,
    entity_id: String,
    asset_type: A,
    workflow: String,
    prompt: String,
    negative_prompt: Option<String>,
    count: u8,
    style_reference_id: Option<AssetId>,
}

/// Abstract state of a generation request.
pub ghost struct GenerationRequestView<E, A> {
    pub world_id: WorldId,
    pub entity_type: E,
    pub entity_id: Seq<char>,
    pub asset_type: A,
    pub workflow: Seq<char>,
    pub prompt: Seq<char>,
    pub negative_prompt: Option<Seq<char>>,
    pub count: u8,
    pub style_reference_id: Option<AssetId>,
}

impl<E, A> View for GenerationRequest<E, A> {
    type V = GenerationRequestView<E, A>;

    closed spec fn view(&self) -> GenerationRequestView<E, A> {
        GenerationRequestView {
            world_id: self.world_id,
            entity_type: self.entity_type,
            entity_id: self.entity_id@,
            asset_type: self.asset_type,
            workflow: self.workflow@,
            prompt: self.prompt@,
            negative_prompt: opt_text(self.negative_prompt),
            count: self.count,
            style_reference_id: self.style_reference_id,
        }
    }
}

impl<E: Copy, A: Copy> GenerationRequest<E, A> {
    /// A request without negative prompt or style reference.
    pub fn new(
        world_id: WorldId,
        entity_type: E,
        entity_id: &str,
        asset_type: A,
        workflow: &str,
        prompt: &str,
        count: u8,
    ) -> (r: Self)
        ensures
            r@ == (GenerationRequestView {
                world_id,
                entity_type,
                entity_id: entity_id@,
                asset_type,
                workflow: workflow@,
                prompt: prompt@,
                negative_prompt: None,
                count,
                style_reference_id: None,
            }),
    {
        GenerationRequest {
            world_id,
            entity_type,
            entity_id: entity_id.to_string(),
            asset_type,
            workflow: workflow.to_string(),
            prompt: prompt.to_string(),
            negative_prompt: None,
            count,
            style_reference_id: None,
        }
    }

    pub fn world_id(&self) -> (r: WorldId)
        ensures
            r == self@.world_id,
    {
        self.world_id
    }

    pub fn entity_type(&self) -> (r: E)
        ensures
            r == self@.entity_type,
    {
        self.entity_type
    }

    pub fn entity_id(&self) -> (r: &str)
        ensures
            r@ == self@.entity_id,
    {
        self.entity_id.as_str()
    }

    pub fn asset_type(&self) -> (r: A)
        ensures
            r == self@.asset_type,
    {
        self.asset_type
    }

    pub fn workflow(&self) -> (r: &str)
        ensures
            r@ == self@.workflow,
    {
        self.workflow.as_str()
    }

    pub fn prompt(&self) -> (r: &str)
        ensures
            r@ == self@.prompt,
    {
        self.prompt.as_str()
    }

    pub fn negative_prompt(&self) -> (r: Option<&str>)
        ensures
            opt_str_text(r) == self@.negative_prompt,
    {
        opt_as_str(&self.negative_prompt)
    }

    pub fn count(&self) -> (r: u8)
        ensures
            r == self@.count,
    {
        self.count
    }

    pub fn style_reference_id(&self) -> (r: Option<AssetId>)
        ensures
            r == self@.style_reference_id,
    {
        self.style_reference_id
    }

    pub fn with_negative_prompt(self, negative_prompt: &str) -> (r: Self)
        ensures
            r@ == (GenerationRequestView { negative_prompt: Some(negative_prompt@), ..self@ }),
    {
        GenerationRequest { negative_prompt: Some(negative_prompt.to_string()), ..self }
    }

    pub fn with_style_reference(self, style_reference_id: AssetId) -> (r: Self)
        ensures
            r@ == (GenerationRequestView { style_reference_id: Some(style_reference_id), ..self@ }),
    {
        GenerationRequest { style_reference_id: Some(style_reference_id), ..self }
    }

    /// The queued batch for this request, requested at `now`.
    pub fn into_batch(self, now: Timestamp) -> (b: GenerationBatch<E, A>)
        ensures
            b@ == (GenerationBatchView {
                id: b@.id,
                world_id: self@.world_id,
                entity_type: self@.entity_type,
                entity_id: self@.entity_id,
                asset_type: self@.asset_type,
                workflow: self@.workflow,
                prompt: self@.prompt,
                negative_prompt: self@.negative_prompt,
                count: self@.count,
                status: BatchStatus::Queued,
                assets: Seq::empty(),
                style_reference_id: self@.style_reference_id,
                requested_at: now,
                completed_at: None,
            }),
    {
        let mut batch = GenerationBatch::new(
            self.world_id,
            self.entity_type,
            self.entity_id.as_str(),
            self.asset_type,
            self.workflow.as_str(),
            self.prompt.as_str(),
            self.count,
            now,
        );
        if let Some(neg) = &self.negative_prompt {
            batch = batch.with_negative_prompt(neg.as_str());
        }
        if let Some(style_ref) = self.style_reference_id {
            batch = batch.with_style_reference(style_ref);
        }
        batch
    }
}

/// Abstract state of a generation batch.
pub ghost struct GenerationBatchView<E, A> {
    pub id: BatchId,
    pub world_id: WorldId,
    pub entity_type: E,
    pub entity_id: Seq<char>,
    pub asset_type: A,
    pub workflow: Seq<char>,
    pub prompt: Seq<char>,
    pub negative_prompt: Option<Seq<char>>,
    pub count: u8,
    pub status: BatchStatus,
    pub assets: Seq<AssetId>,
    pub style_reference_id: Option<AssetId>,
    pub requested_at: Timestamp,
    pub completed_at: Option<Timestamp>,
}

/// A batch of generated assets for one entity.
#[derive(Debug, Clone)]
pub struct GenerationBatch<E, A> {
    id: BatchId,
    world_id: WorldId,
    entity_type: E,
    entity_id: String,
    asset_type: A,
    workflow: String,
    prompt: String,
    negative_prompt: Option<String>,
    count: u8,
    status: BatchStatus,
    assets: Vec<AssetId>,
    style_reference_id: Option<AssetId>,
    requested_at: Timestamp,
    completed_at: Option<Timestamp>,
}

impl<E, A> View for GenerationBatch<E, A> {
    type V = GenerationBatchView<E, A>;

    closed spec fn view(&self) -> GenerationBatchView<E, A> {
        GenerationBatchView {
            id: self.id,
            world_id: self.world_id,
            entity_type: self.entity_type,
            entity_id: self.entity_id@,
            asset_type: self.asset_type,
            workflow: self.workflow@,
            prompt: self.prompt@,
            negative_prompt: opt_text(self.negative_prompt),
            count: self.count,
            status: self.status,
            assets: self.assets@,
            style_reference_id: self.style_reference_id,
            requested_at: self.requested_at,
            completed_at: self.completed_at,
        }
    }
}

/// The batch after progress is reported: generating, at most 100 percent.
pub open spec fn after_progress<E, A>(b: GenerationBatchView<E, A>, progress: u8) -> GenerationBatchView<E, A> {
    GenerationBatchView {
        status: BatchStatus::Generating { progress: if progress > 100 { 100 } else { progress } },
        ..b
    }
}

/// The batch after it is finalized: completed, keeping the time it was first
/// completed at, if any, else now.
pub open spec fn after_finalize<E, A>(b: GenerationBatchView<E, A>, now: Timestamp) -> GenerationBatchView<E, A> {
    GenerationBatchView {
        status: BatchStatus::Completed,
        completed_at: if b.completed_at is None { Some(now) } else { b.completed_at },
        ..b
    }
}

impl<E: Copy, A: Copy> GenerationBatch<E, A> {
    /// A queued batch with a fresh id, no assets, negative prompt or style
    /// reference.
    pub fn new(
        world_id: WorldId,
        entity_type: E,
        entity_id: &str,
        asset_type: A,
        workflow: &str,
        prompt: &str,
        count: u8,
        now: Timestamp,
    ) -> (b: Self)
        ensures
            b@ == (GenerationBatchView {
                id: b@.id,
                world_id,
                entity_type,
                entity_id: entity_id@,
                asset_type,
                workflow: workflow@,
                prompt: prompt@,
                negative_prompt: None,
                count,
                status: BatchStatus::Queued,
                assets: Seq::empty(),
                style_reference_id: None,
                requested_at: now,
                completed_at: None,
            }),
    {
        let b = GenerationBatch {
            id: BatchId::new(),
            world_id,
            entity_type,
            entity_id: entity_id.to_string(),
            asset_type,
            workflow: workflow.to_string(),
            prompt: prompt.to_string(),
            negative_prompt: None,
            count,
            status: BatchStatus::Queued,
            assets: Vec::new(),
            style_reference_id: None,
            requested_at: now,
            completed_at: None,
        };
        assert(b.assets@ =~= Seq::<AssetId>::empty());
        b
    }

    pub fn id(&self) -> (r: BatchId)
        ensures
            r == self@.id,
    {
        self.id
    }

    pub fn world_id(&self) -> (r: WorldId)
        ensures
            r == self@.world_id,
    {
        self.world_id
    }

    pub fn entity_type(&self) -> (r: E)
        ensures
            r == self@.entity_type,
    {
        self.entity_type
    }

    pub fn entity_id(&self) -> (r: &str)
        ensures
            r@ == self@.entity_id,
    {
        self.entity_id.as_str()
    }

    pub fn asset_type(&self) -> (r: A)
        ensures
            r == self@.asset_type,
    {
        self.asset_type
    }

    pub fn workflow(&self) -> (r: &str)
        ensures
            r@ == self@.workflow,
    {
        self.workflow.as_str()
    }

    pub fn prompt(&self) -> (r: &str)
        ensures
            r@ == self@.prompt,
    {
        self.prompt.as_str()
    }

    pub fn negative_prompt(&self) -> (r: Option<&str>)
        ensures
            opt_str_text(r) == self@.negative_prompt,
    {
        opt_as_str(&self.negative_prompt)
    }

    pub fn count(&self) -> (r: u8)
        ensures
            r == self@.count,
    {
        self.count
    }

    pub fn status(&self) -> (r: &BatchStatus)
        ensures
            *r == self@.status,
    {
        &self.status
    }

    pub fn assets(&self) -> (r: &[AssetId])
        ensures
            r@ == self@.assets,
    {
        self.assets.as_slice()
    }

    pub fn style_reference_id(&self) -> (r: Option<AssetId>)
        ensures
            r == self@.style_reference_id,
    {
        self.style_reference_id
    }

    pub fn requested_at(&self) -> (r: Timestamp)
        ensures
            r == self@.requested_at,
    {
        self.requested_at
    }

    pub fn completed_at(&self) -> (r: Option<Timestamp>)
        ensures
            r == self@.completed_at,
    {
        self.completed_at
    }

    pub fn with_negative_prompt(self, negative_prompt: &str) -> (b: Self)
        ensures
            b@ == (GenerationBatchView { negative_prompt: Some(negative_prompt@), ..self@ }),
    {
        GenerationBatch { negative_prompt: Some(negative_prompt.to_string()), ..self }
    }

    pub fn with_style_reference(self, style_reference_id: AssetId) -> (b: Self)
        ensures
            b@ == (GenerationBatchView { style_reference_id: Some(style_reference_id), ..self@ }),
    {
        GenerationBatch { style_reference_id: Some(style_reference_id), ..self }
    }

    /// Marks the batch as generating, at 0 percent.
    pub fn start_generating(&mut self)
        ensures
            final(self)@ == after_progress(old(self)@, 0),
    {
        self.status = BatchStatus::Generating { progress: 0 };
    }

    /// Records progress, capped at 100 percent.
    pub fn update_progress(&mut self, progress: u8)
        ensures
            final(self)@ == after_progress(old(self)@, progress),
    {
        let p: u8 = if progress > 100 { 100 } else { progress };
        self.status = BatchStatus::Generating { progress: p };
    }

    /// Records the generated assets: ready for selection, completed now.
    pub fn complete_generation(&mut self, asset_ids: Vec<AssetId>, now: Timestamp)
        ensures
            final(self)@ == (GenerationBatchView {
                assets: asset_ids@,
                status: BatchStatus::ReadyForSelection,
                completed_at: Some(now),
                ..old(self)@
            }),
    {
        self.assets = asset_ids;
        self.status = BatchStatus::ReadyForSelection;
        self.completed_at = Some(now);
    }

    /// Marks the batch completed; the completion time is kept if set.
    pub fn finalize(&mut self, now: Timestamp)
        ensures
            final(self)@ == after_finalize(old(self)@, now),
    {
        self.status = BatchStatus::Completed;
        if self.completed_at.is_none() {
            self.completed_at = Some(now);
        }
    }

    /// Marks the batch failed with the given error, finished now.
    pub fn fail(&mut self, error: &str, now: Timestamp)
        ensures
            final(self)@.status matches BatchStatus::Failed { error: e } && e@ == error@,
            final(self)@ == (GenerationBatchView {
                status: final(self)@.status,
                completed_at: Some(now),
                ..old(self)@
            }),
    {
        self.status = BatchStatus::Failed { error: error.to_string() };
        self.completed_at = Some(now);
    }

    /// Position in the generation queue; not tracked, so always `None`.
    pub fn queue_position(&self) -> (r: Option<u32>)
        ensures
            r is None,
    {
        None
    }
}

/// Progress reported for a batch never exceeds 100 percent.
pub proof fn law_progress_is_at_most_hundred<E, A>(b: GenerationBatchView<E, A>, progress: u8)
    ensures
        after_progress(b, progress).status matches BatchStatus::Generating { progress: p } && p <= 100,
{
}

/// Finalizing a batch whose generation completed keeps the time it completed
/// at, and finalizing twice changes nothing more.
pub proof fn law_finalize_keeps_completion_time<E, A>(b: GenerationBatchView<E, A>, t1: Timestamp, t2: Timestamp)
    ensures
        b.completed_at is Some ==> after_finalize(b, t1).completed_at == b.completed_at,
        after_finalize(after_finalize(b, t1), t2) == after_finalize(b, t1),
{
}

} // verus!
