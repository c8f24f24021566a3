//! What holds of the bridge whatever it is given: laws over the models that the
//! contracts of the other modules speak of.

use vstd::prelude::*;
use vstd::arithmetic::div_mod::lemma_fundamental_div_mod;
use crate::draw::{Batch, Blend, Decision, DrawCall, TextureBinding};
use crate::scratch::lemma_grown_bounds;
use crate::scissor::{
    pixel_edge, pixel_rect_of, round_to_pixel, ClipRect, SurfaceSize, PRODUCT_HALF, PRODUCT_ONE,
};
use crate::table::{NativeTexture, PainterModel, TextureAction, TextureError, TextureOp};
use crate::texture::{lemma_cell_index, PatchModel, Rgba, TextureId, TextureModel};

verus! {

/// The id that an operation names.
pub open spec fn op_id(op: TextureOp) -> TextureId {
    match op {
        TextureOp::Put(id, _) => id,
        TextureOp::Free(id) => id,
    }
}

/// Applying two sequences of operations one after the other is applying their
/// concatenation: the table depends on the operations alone, not on how they
/// were split into deltas.
pub proof fn law_deltas_compose(m: PainterModel, first: Seq<TextureOp>, second: Seq<TextureOp>)
    ensures
        m.after_all(first + second) == m.after_all(first).after_all(second),
    decreases second.len(),
{
    if second.len() == 0 {
        assert(first + second =~= first);
    } else {
        law_deltas_compose(m, first, second.drop_last());
        assert((first + second).drop_last() =~= first + second.drop_last());
        assert((first + second).last() == second.last());
    }
}

/// Deleting is idempotent: a second deletion of the same id changes nothing
/// and is reported as a fault.
pub proof fn law_free_is_idempotent(m: PainterModel, id: TextureId)
    ensures
        m.after_free(id).after_free(id) == m.after_free(id),
        m.after_free(id).free_outcome(id) is Err,
        id is Managed ==> m.after_free(id).free_outcome(id) == Err::<TextureAction, TextureError>(
            TextureError::UnknownTexture,
        ),
{
    match id {
        TextureId::Managed(key) => {
            assert(m.textures.remove(key).remove(key) =~= m.textures.remove(key));
        },
        TextureId::User(_) => {},
    }
}

/// A deletion wipes out what was set before it: the table is as if the patch
/// had never come.
pub proof fn law_free_cancels_earlier_set(m: PainterModel, key: u64, p: PatchModel)
    ensures
        m.after_set(TextureId::Managed(key), p).after_free(TextureId::Managed(key)) == m.after_free(
            TextureId::Managed(key),
        ),
{
    assert(m.after_set(TextureId::Managed(key), p).textures.remove(key) =~= m.textures.remove(key));
}

/// After a deletion the id is gone, whatever happened to it before.
pub proof fn law_free_forgets(m: PainterModel, key: u64)
    ensures
        !m.after_free(TextureId::Managed(key)).textures.contains_key(key),
        m.after_free(TextureId::Managed(key)).resolve(TextureId::Managed(key)).is_none(),
{
}

/// A whole image that is accepted becomes the texture of its id, whatever the
/// id held before.
pub proof fn law_whole_image_overrides(m: PainterModel, key: u64, p: PatchModel)
    requires
        p.pos.is_none(),
        m.set_outcome(TextureId::Managed(key), p) is Ok,
    ensures
        m.after_set(TextureId::Managed(key), p).textures.contains_key(key),
        m.after_set(TextureId::Managed(key), p).textures[key] == TextureModel::from_patch(p),
{
}

/// An operation touches no texture but that of the id it names, and neither
/// the native textures nor the size limit.
pub proof fn law_operation_is_local(m: PainterModel, op: TextureOp, key: u64)
    requires
        op_id(op) != TextureId::Managed(key),
    ensures
        m.after(op).textures.contains_key(key) == m.textures.contains_key(key),
        m.textures.contains_key(key) ==> m.after(op).textures[key] == m.textures[key],
        m.after(op).natives == m.natives,
        m.after(op).next_native == m.next_native,
        m.after(op).max_texture_side == m.max_texture_side,
{
}

/// A texture that no operation of a sequence names is after the sequence what
/// it was before.
pub proof fn law_untouched_texture_stays(m: PainterModel, ops: Seq<TextureOp>, key: u64)
    requires
        forall|i: int| 0 <= i < ops.len() ==> op_id(#[trigger] ops[i]) != TextureId::Managed(key),
    ensures
        m.after_all(ops).textures.contains_key(key) == m.textures.contains_key(key),
        m.textures.contains_key(key) ==> m.after_all(ops).textures[key] == m.textures[key],
    decreases ops.len(),
{
    if ops.len() > 0 {
        law_untouched_texture_stays(m, ops.drop_last(), key);
        law_operation_is_local(m.after_all(ops.drop_last()), ops.last(), key);
    }
}

/// Two states that hold the same under `key` and share the size limit.
pub open spec fn same_texture(a: PainterModel, b: PainterModel, key: u64) -> bool {
    &&& a.max_texture_side == b.max_texture_side
    &&& a.textures.contains_key(key) == b.textures.contains_key(key)
    &&& a.textures.contains_key(key) ==> a.textures[key] == b.textures[key]
}

/// The operations of a sequence that name the managed id `key`, in order.
pub open spec fn operations_on(ops: Seq<TextureOp>, key: u64) -> Seq<TextureOp> {
    ops.filter(|op: TextureOp| op_id(op) == TextureId::Managed(key))
}

/// An operation on `key` looks at nothing but the texture of `key` and the
/// size limit: from states that agree there it yields the same and leads to
/// states that agree there.
pub proof fn law_operation_reads_its_own_texture(a: PainterModel, b: PainterModel, op: TextureOp, key: u64)
    requires
        same_texture(a, b, key),
        op_id(op) == TextureId::Managed(key),
    ensures
        a.outcome(op) == b.outcome(op),
        same_texture(a.after(op), b.after(op), key),
{
}

/// The texture of an id is the net effect of the operations that name it:
/// taking every other operation out of a sequence changes nothing about it.
pub proof fn law_texture_is_net_effect_of_own_operations(m: PainterModel, ops: Seq<TextureOp>, key: u64)
    ensures
        same_texture(m.after_all(ops), m.after_all(operations_on(ops, key)), key),
    decreases ops.len(),
{
    reveal(Seq::filter);
    if ops.len() > 0 {
        let own = |op: TextureOp| op_id(op) == TextureId::Managed(key);
        let earlier = ops.drop_last();
        law_texture_is_net_effect_of_own_operations(m, earlier, key);
        if own(ops.last()) {
            let kept = earlier.filter(own).push(ops.last());
            assert(operations_on(ops, key) == kept);
            assert(kept.drop_last() =~= earlier.filter(own));
            law_operation_reads_its_own_texture(
                m.after_all(earlier),
                m.after_all(earlier.filter(own)),
                ops.last(),
                key,
            );
        } else {
            law_operation_is_local(m.after_all(earlier), ops.last(), key);
        }
    }
}

/// Operations on different ids can change places: the table comes out the
/// same, and each operation yields what it yields alone.
pub proof fn law_operations_on_different_ids_commute(m: PainterModel, a: TextureOp, b: TextureOp)
    requires
        op_id(a) is Managed,
        op_id(b) is Managed,
        op_id(a) != op_id(b),
    ensures
        m.after(a).after(b) == m.after(b).after(a),
        m.after(a).outcome(b) == m.outcome(b),
        m.after(b).outcome(a) == m.outcome(a),
{
    assert(m.after(a).after(b).textures =~= m.after(b).after(a).textures);
}

/// The invariant of the table survives every operation.
pub proof fn law_operation_keeps_invariant(m: PainterModel, op: TextureOp)
    requires
        m.wf(),
    ensures
        m.after(op).wf(),
{
    match op {
        TextureOp::Put(TextureId::Managed(key), p) => {
            if m.set_outcome(TextureId::Managed(key), p) is Ok {
                assert(m.after(op).textures[key].wf());
            }
        },
        _ => {},
    }
}

/// The invariant of the table survives every delta.
pub proof fn law_delta_keeps_invariant(m: PainterModel, ops: Seq<TextureOp>)
    requires
        m.wf(),
    ensures
        m.after_all(ops).wf(),
    decreases ops.len(),
{
    if ops.len() > 0 {
        law_delta_keeps_invariant(m, ops.drop_last());
        law_operation_keeps_invariant(m.after_all(ops.drop_last()), ops.last());
    }
}

/// Reading back after a partial update: a pixel inside the written rectangle
/// is the pixel that was written there, a pixel outside it is what it was.
pub proof fn law_partial_update_round_trip(
    t: TextureModel,
    x: nat,
    y: nat,
    w: nat,
    h: nat,
    src: Seq<Rgba>,
    col: int,
    row: int,
)
    requires
        t.wf(),
        t.covers(x, y, w, h),
        src.len() == w * h,
        0 <= col < t.width,
        0 <= row < t.height,
    ensures
        t.blit(x, y, w, h, src).wf(),
        t.blit(x, y, w, h, src).width == t.width,
        t.blit(x, y, w, h, src).height == t.height,
        x <= col < x + w && y <= row < y + h ==> t.blit(x, y, w, h, src).at(col, row) == src[(row - y) * w + (col - x)],
        !(x <= col < x + w && y <= row < y + h) ==> t.blit(x, y, w, h, src).at(col, row) == t.at(col, row),
{
    lemma_cell_index(t.width as int, t.height as int, col, row);
}

/// The same, said of the table: after an accepted partial update of `key` the
/// texture has its old size, shows the patch inside the rectangle and its
/// earlier pixels outside.
pub proof fn law_partial_update_in_table(m: PainterModel, key: u64, p: PatchModel, col: int, row: int)
    requires
        m.wf(),
        p.pos.is_some(),
        m.set_outcome(TextureId::Managed(key), p) is Ok,
        0 <= col < m.textures[key].width,
        0 <= row < m.textures[key].height,
    ensures
        ({
            let before = m.textures[key];
            let after = m.after_set(TextureId::Managed(key), p).textures[key];
            let (x, y) = p.pos.unwrap();
            &&& after.width == before.width && after.height == before.height
            &&& x <= col < x + p.width && y <= row < y + p.height ==> after.at(col, row) == p.gpu_pixels()[(row - y)
                * p.width + (col - x)]
            &&& !(x <= col < x + p.width && y <= row < y + p.height) ==> after.at(col, row) == before.at(col, row)
        }),
{
    let (x, y) = p.pos.unwrap();
    assert(m.textures.contains_key(key));
    law_partial_update_round_trip(m.textures[key], x, y, p.width, p.height, p.gpu_pixels(), col, row);
}

/// A larger scale never moves a scissor edge towards the origin.
pub proof fn law_scale_is_monotonic(coord: int, smaller: int, larger: int, limit: int)
    requires
        0 <= smaller <= larger,
        0 <= limit,
    ensures
        pixel_edge(coord, smaller, limit) <= pixel_edge(coord, larger, limit),
{
    if coord >= 0 {
        assert(coord * smaller <= coord * larger) by (nonlinear_arith)
            requires
                coord >= 0,
                smaller <= larger,
        ;
    } else {
        assert(coord * smaller <= 0 && coord * larger <= 0) by (nonlinear_arith)
            requires
                coord < 0,
                0 <= smaller <= larger,
        ;
    }
}

/// Doubling the scale doubles a scissor edge, up to one pixel of rounding,
/// unless the doubled edge is cut off at the far side of the surface.
pub proof fn law_doubled_scale_doubles_edge(coord: int, scale: int, limit: int)
    requires
        0 <= scale,
        0 <= limit,
    ensures
        pixel_edge(coord, 2 * scale, limit) == limit || -1 <= pixel_edge(coord, 2 * scale, limit) - 2 * pixel_edge(
            coord,
            scale,
            limit,
        ) <= 1,
{
    assert(coord * (2 * scale) == 2 * (coord * scale)) by (nonlinear_arith);
    let p = coord * scale;
    assert(round_to_pixel(coord, scale) == (p + PRODUCT_HALF) / (PRODUCT_ONE as int));
    assert(round_to_pixel(coord, 2 * scale) == (2 * p + PRODUCT_HALF) / (PRODUCT_ONE as int));
}

/// On a surface that doubles along with the scale, a scissor edge doubles up
/// to one pixel of rounding, without exception.
pub proof fn law_doubled_scale_on_doubled_surface(coord: int, scale: int, limit: int)
    requires
        0 <= scale,
        0 <= limit,
    ensures
        -1 <= pixel_edge(coord, 2 * scale, 2 * limit) - 2 * pixel_edge(coord, scale, limit) <= 1,
{
    assert(coord * (2 * scale) == 2 * (coord * scale)) by (nonlinear_arith);
    let p = coord * scale;
    assert(round_to_pixel(coord, scale) == (p + PRODUCT_HALF) / (PRODUCT_ONE as int));
    assert(round_to_pixel(coord, 2 * scale) == (2 * p + PRODUCT_HALF) / (PRODUCT_ONE as int));
}

/// Of a whole clip rectangle on one surface: each of the four pixel edges
/// doubles with the scale up to one pixel, unless it is cut off at the far
/// side of the surface.
pub proof fn law_doubled_scale_doubles_rect(clip: ClipRect, scale: int, surface: SurfaceSize)
    requires
        0 <= scale,
    ensures
        ({
            let one = pixel_rect_of(clip, scale, surface);
            let two = pixel_rect_of(clip, 2 * scale, surface);
            &&& two.min_x == surface.width || -1 <= two.min_x - 2 * one.min_x <= 1
            &&& two.max_x == surface.width || -1 <= two.max_x - 2 * one.max_x <= 1
            &&& two.min_y == surface.height || -1 <= two.min_y - 2 * one.min_y <= 1
            &&& two.max_y == surface.height || -1 <= two.max_y - 2 * one.max_y <= 1
        }),
{
    law_doubled_scale_doubles_edge(clip.min_x as int, scale, surface.width as int);
    law_doubled_scale_doubles_edge(clip.max_x as int, scale, surface.width as int);
    law_doubled_scale_doubles_edge(clip.min_y as int, scale, surface.height as int);
    law_doubled_scale_doubles_edge(clip.max_y as int, scale, surface.height as int);
}

/// A clip rectangle without area in point space.
pub open spec fn zero_area(clip: ClipRect) -> bool {
    clip.min_x >= clip.max_x || clip.min_y >= clip.max_y
}

/// A batch whose clip rectangle has no area is passed over without a
/// diagnostic, whatever its texture.
pub proof fn law_zero_area_clip_is_skipped(m: PainterModel, batch: Batch, scale: int, surface: SurfaceSize)
    requires
        0 <= scale,
        zero_area(batch.clip),
    ensures
        m.decide(batch, scale, surface) == Decision::SkipEmpty,
{
    let c = batch.clip;
    if c.min_x >= c.max_x {
        assert(c.max_x * scale <= c.min_x * scale) by (nonlinear_arith)
            requires
                c.min_x >= c.max_x,
                0 <= scale,
        ;
    } else {
        assert(c.max_y * scale <= c.min_y * scale) by (nonlinear_arith)
            requires
                c.min_y >= c.max_y,
                0 <= scale,
        ;
    }
}

/// Batches that all have clip rectangles without area give no draw call and
/// no diagnostic.
pub proof fn law_zero_area_batches_draw_nothing(m: PainterModel, batches: Seq<Batch>, scale: int, surface: SurfaceSize)
    requires
        0 <= scale,
        forall|i: int| 0 <= i < batches.len() ==> zero_area(#[trigger] batches[i].clip),
    ensures
        m.draws(batches, scale, surface).len() == 0,
        m.diagnostics(batches, scale, surface).len() == 0,
    decreases batches.len(),
{
    if batches.len() > 0 {
        law_zero_area_batches_draw_nothing(m, batches.drop_last(), scale, surface);
        law_zero_area_clip_is_skipped(m, batches.last(), scale, surface);
    }
}

/// Draw calls are issued in the order of the batches: the batch numbers of
/// the draw calls grow strictly, and each draw call carries what was decided
/// for its batch, blends over the surface and has no depth test.
pub proof fn law_draws_follow_batch_order(m: PainterModel, batches: Seq<Batch>, scale: int, surface: SurfaceSize)
    requires
        batches.len() <= usize::MAX,
    ensures
        m.draws(batches, scale, surface).len() <= batches.len(),
        forall|i: int, j: int|
            0 <= i < j < m.draws(batches, scale, surface).len() ==> (#[trigger] m.draws(batches, scale, surface)[i]).batch
                < (#[trigger] m.draws(batches, scale, surface)[j]).batch,
        forall|i: int|
            0 <= i < m.draws(batches, scale, surface).len() ==> {
                let call: DrawCall = #[trigger] m.draws(batches, scale, surface)[i];
                &&& call.batch < batches.len()
                &&& m.decide(batches[call.batch as int], scale, surface) == Decision::Draw(call.scissor, call.texture)
                &&& call.blend == Blend::PremultipliedOver
                &&& !call.depth_test
            },
    decreases batches.len(),
{
    if batches.len() > 0 {
        law_draws_follow_batch_order(m, batches.drop_last(), scale, surface);
    }
}

/// No batch that is to be drawn is left out: it has a draw call of its own.
pub proof fn law_every_drawn_batch_has_a_call(
    m: PainterModel,
    batches: Seq<Batch>,
    scale: int,
    surface: SurfaceSize,
    k: int,
)
    requires
        batches.len() <= usize::MAX,
        0 <= k < batches.len(),
        m.decide(batches[k], scale, surface) is Draw,
    ensures
        exists|i: int|
            0 <= i < m.draws(batches, scale, surface).len() && (#[trigger] m.draws(batches, scale, surface)[i]).batch == k,
    decreases batches.len(),
{
    let all = m.draws(batches, scale, surface);
    if k == batches.len() - 1 {
        assert(all[all.len() - 1].batch == k);
    } else {
        law_every_drawn_batch_has_a_call(m, batches.drop_last(), scale, surface, k);
        let earlier = m.draws(batches.drop_last(), scale, surface);
        let i = choose|i: int| 0 <= i < earlier.len() && (#[trigger] earlier[i]).batch == k;
        assert(all[i].batch == k);
    }
}

/// A batch whose texture id resolves to nothing is never drawn, and no batch
/// is both drawn and reported: a draw call stands for a texture that is held.
pub proof fn law_unresolved_texture_is_not_drawn(m: PainterModel, batch: Batch, scale: int, surface: SurfaceSize)
    ensures
        m.resolve(batch.texture).is_none() ==> !(m.decide(batch, scale, surface) is Draw),
        m.decide(batch, scale, surface) is Draw ==> m.resolve(batch.texture).is_some(),
        m.decide(batch, scale, surface) is SkipUnresolved ==> m.resolve(batch.texture).is_none(),
{
}

/// Registering a native texture hands out an id that was not held, keeps
/// every earlier native texture and leaves the managed textures alone; the id
/// then resolves to the handle that was registered.
pub proof fn law_registered_id_is_fresh(m: PainterModel, native: NativeTexture)
    requires
        m.wf(),
        m.next_native < u64::MAX,
    ensures
        !m.natives.contains_key(m.next_native as u64),
        m.after_register(native).wf(),
        m.after_register(native).textures == m.textures,
        forall|id: u64| #[trigger] m.natives.contains_key(id) ==> m.after_register(native).natives.contains_key(id)
            && m.after_register(native).natives[id] == m.natives[id],
        m.after_register(native).resolve(TextureId::User(m.next_native as u64)) == Some(
            TextureBinding::Native { id: m.next_native as u64, handle: native.handle, options: native.options },
        ),
{
    if m.natives.contains_key(m.next_native as u64) {
        assert((m.next_native as u64) < m.next_native);
    }
}

/// A batch whose texture was deleted is not drawn: it is passed over, with a
/// diagnostic where its clip rectangle left pixels to draw.
pub proof fn law_deleted_texture_is_not_drawn(m: PainterModel, key: u64, batch: Batch, scale: int, surface: SurfaceSize)
    requires
        batch.texture == TextureId::Managed(key),
    ensures
        !(m.after_free(TextureId::Managed(key)).decide(batch, scale, surface) is Draw),
        !pixel_rect_of(batch.clip, scale, surface).empty() ==> m.after_free(TextureId::Managed(key)).decide(
            batch,
            scale,
            surface,
        ) == Decision::SkipUnresolved,
{
}

/// Deciding on the batches of a frame touches nothing but the scratch
/// buffers, and those never lose room.
pub proof fn law_batches_change_only_scratch(m: PainterModel, batches: Seq<Batch>, scale: int, surface: SurfaceSize)
    requires
        m.wf(),
    ensures
        m.after_batches(batches, scale, surface).wf(),
        m.after_batches(batches, scale, surface).textures == m.textures,
        m.after_batches(batches, scale, surface).natives == m.natives,
        m.after_batches(batches, scale, surface).next_native == m.next_native,
        m.after_batches(batches, scale, surface).max_texture_side == m.max_texture_side,
        m.after_batches(batches, scale, surface).vertex_room >= m.vertex_room,
        m.after_batches(batches, scale, surface).index_room >= m.index_room,
    decreases batches.len(),
{
    if batches.len() > 0 {
        law_batches_change_only_scratch(m, batches.drop_last(), scale, surface);
        let earlier = m.after_batches(batches.drop_last(), scale, surface);
        lemma_grown_bounds(earlier.vertex_room, batches.last().vertices as nat);
        lemma_grown_bounds(earlier.index_room, batches.last().indices as nat);
    }
}

/// After a frame the scratch buffers have room for the mesh of every batch
/// that was drawn.
pub proof fn law_scratch_holds_every_drawn_mesh(
    m: PainterModel,
    batches: Seq<Batch>,
    scale: int,
    surface: SurfaceSize,
    k: int,
)
    requires
        0 <= k < batches.len(),
        m.decide(batches[k], scale, surface) is Draw,
    ensures
        m.after_batches(batches, scale, surface).vertex_room >= batches[k].vertices,
        m.after_batches(batches, scale, surface).index_room >= batches[k].indices,
    decreases batches.len(),
{
    let earlier = m.after_batches(batches.drop_last(), scale, surface);
    lemma_grown_bounds(earlier.vertex_room, batches.last().vertices as nat);
    lemma_grown_bounds(earlier.index_room, batches.last().indices as nat);
    if k < batches.len() - 1 {
        law_scratch_holds_every_drawn_mesh(m, batches.drop_last(), scale, surface, k);
    }
}

} // verus!
