//! Sequencing of a frame: texture deltas gather while the GUI runs and are
//! applied when the frame is painted.

use vstd::prelude::*;
use crate::draw::{Batch, Frame};
use crate::scissor::SurfaceSize;
use crate::table::{DeltaModel, Painter, PainterModel, TexturesDelta};

verus! {

/// The bridge together with the texture changes that wait for the next paint.
pub struct EguiGlium {
    pub painter: Painter,
    /// Texture changes gathered since the last paint.
    pub textures_delta: TexturesDelta,
}

impl EguiGlium {
    /// The invariant: that of the bridge.
    pub open spec fn wf(&self) -> bool {
        self.painter.wf()
    }

    /// The texture changes gathered since the last paint.
    pub open spec fn pending(&self) -> DeltaModel {
        self.textures_delta@
    }

    /// A bridge without textures and with nothing pending.
    pub fn new(max_texture_side: usize) -> (e: EguiGlium)
        ensures
            e.wf(),
            e.painter@ == PainterModel::fresh(max_texture_side as nat),
            e.pending() == (DeltaModel { set: Seq::empty(), free: Seq::empty() }),
    {
        EguiGlium { painter: Painter::new(max_texture_side), textures_delta: TexturesDelta::new() }
    }

    /// Takes in the texture changes of one run of the GUI. They join what is
    /// pending; the bridge is not touched before the next paint.
    pub fn run(&mut self, textures_delta: TexturesDelta)
        ensures
            final(self).painter == old(self).painter,
            final(self).pending() == old(self).pending().append(textures_delta@),
    {
        self.textures_delta.append(textures_delta);
    }

    /// Paints a frame: applies everything pending to the bridge, leaves nothing
    /// pending, and decides on the batches. The delta that was applied comes
    /// back beside the frame: entry `i` of `frame.textures` belongs to its
    /// operation `i`, and the payload of an upload is that patch's
    /// [`gpu_pixels`](crate::texture::ImagePatch::gpu_pixels).
    pub fn paint(&mut self, pixels_per_point: u32, surface: SurfaceSize, batches: &Vec<Batch>) -> (applied: (
        TexturesDelta,
        Frame,
    ))
        requires
            old(self).wf(),
        ensures
            final(self).wf(),
            final(self).pending() == (DeltaModel { set: Seq::empty(), free: Seq::empty() }),
            final(self).painter@ == old(self).painter@.after_all(old(self).pending().ops()).after_batches(
                batches@,
                pixels_per_point as int,
                surface,
            ),
            applied.0@ == old(self).pending(),
            applied.1.textures@.len() == old(self).pending().ops().len(),
            forall|i: int|
                0 <= i < applied.1.textures@.len() ==> #[trigger] applied.1.textures@[i] == old(self).painter@.after_all(
                    old(self).pending().ops().take(i),
                ).outcome(old(self).pending().ops()[i]),
            applied.1.draws@ == old(self).painter@.after_all(old(self).pending().ops()).draws(
                batches@,
                pixels_per_point as int,
                surface,
            ),
            applied.1.diagnostics@ == old(self).painter@.after_all(old(self).pending().ops()).diagnostics(
                batches@,
                pixels_per_point as int,
                surface,
            ),
    {
        let mut delta = TexturesDelta::new();
        std::mem::swap(&mut self.textures_delta, &mut delta);
        let frame = self.painter.paint_and_update_textures(pixels_per_point, surface, batches, &delta);
        (delta, frame)
    }
}

} // verus!
