//! Turning the clipped batches of a frame into draw calls.

use vstd::prelude::*;
use crate::scissor::{clip_to_scissor, pixel_rect_of, ClipRect, Scissor, SurfaceSize};
use crate::table::{Painter, PainterModel, TextureAction, TextureError, TexturesDelta};
use crate::texture::{TextureId, TextureOptions};

verus! {

/// One clipped mesh of a frame, as far as the bridge decides on it: where it may
/// draw, which texture it samples and how large it is. The mesh itself stays
/// with the host.
#[derive(Clone, Copy, Debug, PartialEq, Eq, Structural)]
pub struct Batch {
    pub clip: ClipRect,
    pub texture: TextureId,
    /// Number of vertices of the mesh.
    pub vertices: usize,
    /// Number of indices of the mesh.
    pub indices: usize,
}

/// The GPU texture that a draw call binds.
#[derive(Clone, Copy, Debug, PartialEq, Eq, Structural)]
pub enum TextureBinding {
    /// The texture that the bridge manages under this id.
    Managed { id: u64, options: TextureOptions },
    /// The host's texture behind `handle`, registered under this id.
    Native { id: u64, handle: u64, options: TextureOptions },
}

/// How a draw call combines what it draws with what the surface holds.
#[derive(Clone, Copy, Debug, PartialEq, Eq, Structural)]
pub enum Blend {
    /// Premultiplied source over destination:
    /// `output = source + destination * (1 - source alpha)`.
    PremultipliedOver,
}

/// One draw call: the mesh of batch number `batch`, cut to `scissor`, sampling
/// `texture` and tinted by its vertex colours.
#[derive(Clone, Copy, Debug, PartialEq, Eq, Structural)]
pub struct DrawCall {
    pub batch: usize,
    pub scissor: Scissor,
    pub texture: TextureBinding,
    pub blend: Blend,
    /// Whether the depth test is on.
    pub depth_test: bool,
}

impl DrawCall {
    /// The draw call of batch number `batch`: blended over the surface, without
    /// depth test.
    pub open spec fn of(batch: usize, scissor: Scissor, texture: TextureBinding) -> DrawCall {
        DrawCall { batch, scissor, texture, blend: Blend::PremultipliedOver, depth_test: false }
    }

    /// The draw call of batch number `batch`: blended over the surface, without
    /// depth test.
    pub fn new(batch: usize, scissor: Scissor, texture: TextureBinding) -> (call: DrawCall)
        ensures
            call == DrawCall::of(batch, scissor, texture),
    {
        DrawCall { batch, scissor, texture, blend: Blend::PremultipliedOver, depth_test: false }
    }
}

/// A batch that was left out because its texture id resolves to nothing.
#[derive(Clone, Copy, Debug, PartialEq, Eq, Structural)]
pub struct Diagnostic {
    pub batch: usize,
    pub texture: TextureId,
}

/// What becomes of one batch.
#[derive(Clone, Copy, Debug, PartialEq, Eq, Structural)]
pub enum Decision {
    /// It is drawn.
    Draw(Scissor, TextureBinding),
    /// Its clip rectangle leaves no pixel on the surface: nothing to draw.
    SkipEmpty,
    /// Its texture id is in neither table: left out, with a diagnostic.
    SkipUnresolved,
}

/// The draw calls of a frame, in the order in which they are issued, and the
/// diagnostics for the batches that were left out.
#[derive(Clone, Debug)]
pub struct DrawPlan {
    pub draws: Vec<DrawCall>,
    pub diagnostics: Vec<Diagnostic>,
}

/// All that the host carries out for one frame: first `textures`, one entry
/// per operation of the delta, then `draws`.
#[derive(Clone, Debug)]
pub struct Frame {
    pub textures: Vec<Result<TextureAction, TextureError>>,
    pub draws: Vec<DrawCall>,
    pub diagnostics: Vec<Diagnostic>,
}

impl PainterModel {
    /// The texture that an id stands for, if any.
    pub open spec fn resolve(self, id: TextureId) -> Option<TextureBinding> {
        match id {
            TextureId::Managed(key) => if self.textures.contains_key(key) {
                Some(TextureBinding::Managed { id: key, options: self.textures[key].options })
            } else {
                None
            },
            TextureId::User(key) => if self.natives.contains_key(key) {
                Some(
                    TextureBinding::Native {
                        id: key,
                        handle: self.natives[key].handle,
                        options: self.natives[key].options,
                    },
                )
            } else {
                None
            },
        }
    }

    /// What becomes of one batch: the clip rectangle is looked at first, the
    /// texture second.
    pub open spec fn decide(self, batch: Batch, scale: int, surface: SurfaceSize) -> Decision {
        let rect = pixel_rect_of(batch.clip, scale, surface);
        if rect.empty() {
            Decision::SkipEmpty
        } else {
            match self.resolve(batch.texture) {
                Some(binding) => Decision::Draw(rect.scissor(surface), binding),
                None => Decision::SkipUnresolved,
            }
        }
    }

    /// The draw calls for `batches`: one for each batch that is drawn, in the
    /// order of the batches.
    pub open spec fn draws(self, batches: Seq<Batch>, scale: int, surface: SurfaceSize) -> Seq<DrawCall>
        decreases batches.len(),
    {
        if batches.len() == 0 {
            Seq::empty()
        } else {
            let earlier = self.draws(batches.drop_last(), scale, surface);
            match self.decide(batches.last(), scale, surface) {
                Decision::Draw(scissor, texture) => earlier.push(
                    DrawCall::of((batches.len() - 1) as usize, scissor, texture),
                ),
                _ => earlier,
            }
        }
    }

    /// The diagnostics for `batches`: one for each batch whose texture is
    /// unresolved, in the order of the batches.
    pub open spec fn diagnostics(self, batches: Seq<Batch>, scale: int, surface: SurfaceSize) -> Seq<Diagnostic>
        decreases batches.len(),
    {
        if batches.len() == 0 {
            Seq::empty()
        } else {
            let earlier = self.diagnostics(batches.drop_last(), scale, surface);
            match self.decide(batches.last(), scale, surface) {
                Decision::SkipUnresolved => earlier.push(
                    Diagnostic { batch: (batches.len() - 1) as usize, texture: batches.last().texture },
                ),
                _ => earlier,
            }
        }
    }
}

impl PainterModel {
    /// The state after the batches of a frame were decided on: room was made
    /// in the scratch buffers for the mesh of every batch that is drawn, and
    /// nothing else has changed.
    pub open spec fn after_batches(self, batches: Seq<Batch>, scale: int, surface: SurfaceSize) -> PainterModel
        decreases batches.len(),
    {
        if batches.len() == 0 {
            self
        } else {
            let earlier = self.after_batches(batches.drop_last(), scale, surface);
            match self.decide(batches.last(), scale, surface) {
                Decision::Draw(_, _) => earlier.after_reserve(
                    batches.last().vertices as nat,
                    batches.last().indices as nat,
                ),
                _ => earlier,
            }
        }
    }
}

impl Painter {
    /// Looks a texture id up in both tables.
    pub fn resolve(&self, id: TextureId) -> (r: Option<TextureBinding>)
        requires
            self.wf(),
        ensures
            r == self@.resolve(id),
    {
        match id {
            TextureId::Managed(key) => match self.texture(id) {
                Some(t) => Some(TextureBinding::Managed { id: key, options: t.options() }),
                None => None,
            },
            TextureId::User(key) => match self.native_texture(id) {
                Some(n) => Some(TextureBinding::Native { id: key, handle: n.handle, options: n.options }),
                None => None,
            },
        }
    }

    /// Decides on one batch.
    pub fn decide(&self, batch: &Batch, pixels_per_point: u32, surface: SurfaceSize) -> (d: Decision)
        requires
            self.wf(),
        ensures
            d == self@.decide(*batch, pixels_per_point as int, surface),
    {
        match clip_to_scissor(&batch.clip, pixels_per_point, surface) {
            None => Decision::SkipEmpty,
            Some(scissor) => match self.resolve(batch.texture) {
                Some(binding) => Decision::Draw(scissor, binding),
                None => Decision::SkipUnresolved,
            },
        }
    }

    /// Decides on every batch of a frame, first to last. Draw calls come out in
    /// the order of their batches; a batch without pixels is passed over, one
    /// with an unresolved texture is passed over and reported. The scratch
    /// buffers get room for every mesh that is drawn.
    pub fn paint_primitives(&mut self, pixels_per_point: u32, surface: SurfaceSize, batches: &Vec<Batch>) -> (plan:
        DrawPlan)
        requires
            old(self).wf(),
        ensures
            final(self).wf(),
            final(self)@ == old(self)@.after_batches(batches@, pixels_per_point as int, surface),
            plan.draws@ == old(self)@.draws(batches@, pixels_per_point as int, surface),
            plan.diagnostics@ == old(self)@.diagnostics(batches@, pixels_per_point as int, surface),
    {
        let ghost before = self@;
        let ghost scale = pixels_per_point as int;
        let mut draws: Vec<DrawCall> = Vec::new();
        let mut diagnostics: Vec<Diagnostic> = Vec::new();
        let count: usize = batches.len();
        let mut i: usize = 0;
        assert(batches@.take(0) =~= Seq::<Batch>::empty());
        while i < count
            invariant
                i <= count,
                count == batches@.len(),
                scale == pixels_per_point as int,
                self.wf(),
                self@ == before.after_batches(batches@.take(i as int), scale, surface),
                self@.textures == before.textures,
                self@.natives == before.natives,
                draws@ == before.draws(batches@.take(i as int), scale, surface),
                diagnostics@ == before.diagnostics(batches@.take(i as int), scale, surface),
            decreases count - i,
        {
            proof {
                assert(batches@.take(i + 1).drop_last() =~= batches@.take(i as int));
            }
            let batch = &batches[i];
            let decision = self.decide(batch, pixels_per_point, surface);
            assert(decision == before.decide(*batch, scale, surface));
            match decision {
                Decision::Draw(scissor, texture) => {
                    self.reserve_scratch(batch.vertices, batch.indices);
                    draws.push(DrawCall::new(i, scissor, texture));
                },
                Decision::SkipEmpty => {},
                Decision::SkipUnresolved => diagnostics.push(Diagnostic { batch: i, texture: batch.texture }),
            }
            i += 1;
        }
        assert(batches@.take(count as int) =~= batches@);
        DrawPlan { draws, diagnostics }
    }

    /// One frame: applies the delta, then decides on the batches against the
    /// table as the delta left it.
    pub fn paint_and_update_textures(
        &mut self,
        pixels_per_point: u32,
        surface: SurfaceSize,
        batches: &Vec<Batch>,
        delta: &TexturesDelta,
    ) -> (frame: Frame)
        requires
            old(self).wf(),
        ensures
            final(self).wf(),
            final(self)@ == old(self)@.after_all(delta.ops()).after_batches(batches@, pixels_per_point as int, surface),
            frame.textures@.len() == delta.ops().len(),
            forall|i: int| 0 <= i < frame.textures@.len() ==> #[trigger] frame.textures@[i] == old(self)@.after_all(
                delta.ops().take(i),
            ).outcome(delta.ops()[i]),
            frame.draws@ == old(self)@.after_all(delta.ops()).draws(batches@, pixels_per_point as int, surface),
            frame.diagnostics@ == old(self)@.after_all(delta.ops()).diagnostics(
                batches@,
                pixels_per_point as int,
                surface,
            ),
    {
        let textures = self.apply_texture_delta(delta);
        let plan = self.paint_primitives(pixels_per_point, surface, batches);
        Frame { textures, draws: plan.draws, diagnostics: plan.diagnostics }
    }
}

} // verus!
