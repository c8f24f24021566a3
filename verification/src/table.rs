//! The texture table of the bridge and the operations of a texture delta.

use std::collections::HashMap;
use vstd::prelude::*;
use crate::scratch::{capped, grown, ScratchBuffer};
use crate::texture::{ImagePatch, ManagedTexture, PatchModel, TextureId, TextureModel, TextureOptions};

verus! {

broadcast use vstd::std_specs::hash::group_hash_axioms;

/// Why an operation of a texture delta was not carried out. Each is a fault of
/// the caller; the table is left as it was.
#[derive(Clone, Copy, Debug, PartialEq, Eq, Structural)]
pub enum TextureError {
    /// The delta named an id of the native namespace.
    NativeId,
    /// The patch does not hold `width * height` pixels.
    PixelCountMismatch,
    /// A side of the image is longer than the device allows.
    TooLarge,
    /// A partial update or a deletion named an id that the table does not hold.
    UnknownTexture,
    /// A partial update reaches beyond the texture.
    OutOfBounds,
}

/// What the host does on the GPU for one operation that was carried out.
/// The payload of `Allocate` and `Upload` is [`ImagePatch::gpu_pixels`] of the
/// patch that caused it.
#[derive(Clone, Copy, Debug, PartialEq, Eq, Structural)]
pub enum TextureAction {
    /// Create a texture of this size for the id, replacing an earlier one, and
    /// fill it.
    Allocate { id: u64, width: usize, height: usize },
    /// Write a rectangle of the existing texture, top-left corner at column `x`,
    /// row `y`.
    Upload { id: u64, x: usize, y: usize, width: usize, height: usize },
    /// Destroy the texture of the id.
    Release { id: u64 },
}

/// A texture that the host owns, known to the bridge by an opaque handle.
#[derive(Clone, Copy, Debug, PartialEq, Eq, Structural)]
pub struct NativeTexture {
    pub handle: u64,
    pub options: TextureOptions,
}

/// One operation of a texture delta.
pub enum TextureOp {
    Put(TextureId, PatchModel),
    Free(TextureId),
}

/// Texture changes of one or more frames: patches to set, then ids to free.
#[derive(Clone, Debug)]
pub struct TexturesDelta {
    pub set: Vec<(TextureId, ImagePatch)>,
    pub free: Vec<TextureId>,
}

/// Mathematical model of a [`TexturesDelta`].
pub struct DeltaModel {
    pub set: Seq<(TextureId, PatchModel)>,
    pub free: Seq<TextureId>,
}

impl DeltaModel {
    /// The operations in the order in which they are applied: every `set`
    /// entry, then every `free` entry.
    pub open spec fn ops(self) -> Seq<TextureOp> {
        Seq::new(
            self.set.len() + self.free.len(),
            |i: int|
                if i < self.set.len() {
                    TextureOp::Put(self.set[i].0, self.set[i].1)
                } else {
                    TextureOp::Free(self.free[i - self.set.len()])
                },
        )
    }

    /// This delta with a newer one added: its patches behind the patches held,
    /// its ids to free behind the ids held.
    pub open spec fn append(self, newer: DeltaModel) -> DeltaModel {
        DeltaModel { set: self.set + newer.set, free: self.free + newer.free }
    }
}

impl View for TexturesDelta {
    type V = DeltaModel;

    open spec fn view(&self) -> DeltaModel {
        DeltaModel {
            set: Seq::new(self.set@.len(), |i: int| (self.set@[i].0, self.set@[i].1@)),
            free: self.free@,
        }
    }
}

impl TexturesDelta {
    /// The operations of the delta in the order in which they are applied.
    pub open spec fn ops(&self) -> Seq<TextureOp> {
        self@.ops()
    }

    /// A delta without operations.
    pub fn new() -> (d: TexturesDelta)
        ensures
            d@ == (DeltaModel { set: Seq::empty(), free: Seq::empty() }),
    {
        let d = TexturesDelta { set: Vec::new(), free: Vec::new() };
        assert(d@.set =~= Seq::empty());
        d
    }

    /// Whether the delta holds no operation.
    pub fn is_empty(&self) -> (r: bool)
        ensures
            r == (self.ops().len() == 0),
    {
        self.set.len() == 0 && self.free.len() == 0
    }

    /// Adds the operations of a newer delta: its patches go behind the patches
    /// held, its ids to free behind the ids held.
    pub fn append(&mut self, newer: TexturesDelta)
        ensures
            final(self)@ == old(self)@.append(newer@),
    {
        let mut rest = newer;
        self.set.append(&mut rest.set);
        self.free.append(&mut rest.free);
        assert(self@.set =~= old(self)@.set + newer@.set);
    }
}

/// Mathematical model of a [`Painter`].
pub struct PainterModel {
    /// Longest texture side that the device allows.
    pub max_texture_side: nat,
    /// The managed textures by id.
    pub textures: Map<u64, TextureModel>,
    /// The registered native textures by id.
    pub natives: Map<u64, NativeTexture>,
    /// The id that the next registered native texture gets.
    pub next_native: nat,
    /// Room of the vertex scratch buffer, in vertices.
    pub vertex_room: nat,
    /// Room of the index scratch buffer, in indices.
    pub index_room: nat,
}

impl PainterModel {
    /// Every managed texture has as many pixels as its size asks for, every
    /// native id held was handed out before, and the counters are machine
    /// numbers.
    pub open spec fn wf(self) -> bool {
        &&& forall|id: u64| #[trigger] self.textures.contains_key(id) ==> self.textures[id].wf()
        &&& forall|id: u64| #[trigger] self.natives.contains_key(id) ==> id < self.next_native
        &&& self.next_native <= u64::MAX
        &&& self.vertex_room <= usize::MAX
        &&& self.index_room <= usize::MAX
    }

    /// The state of a bridge that has done nothing yet.
    pub open spec fn fresh(max_texture_side: nat) -> PainterModel {
        PainterModel {
            max_texture_side,
            textures: Map::empty(),
            natives: Map::empty(),
            next_native: 0,
            vertex_room: 0,
            index_room: 0,
        }
    }

    /// What setting `p` for `id` yields: the action for the host, or the fault.
    pub open spec fn set_outcome(self, id: TextureId, p: PatchModel) -> Result<TextureAction, TextureError> {
        match id {
            TextureId::User(_) => Err(TextureError::NativeId),
            TextureId::Managed(key) => {
                if !p.complete() {
                    Err(TextureError::PixelCountMismatch)
                } else if p.width > self.max_texture_side || p.height > self.max_texture_side {
                    Err(TextureError::TooLarge)
                } else {
                    match p.pos {
                        Some((x, y)) => {
                            if !self.textures.contains_key(key) {
                                Err(TextureError::UnknownTexture)
                            } else if !self.textures[key].covers(x, y, p.width, p.height) {
                                Err(TextureError::OutOfBounds)
                            } else {
                                Ok(
                                    TextureAction::Upload {
                                        id: key,
                                        x: x as usize,
                                        y: y as usize,
                                        width: p.width as usize,
                                        height: p.height as usize,
                                    },
                                )
                            }
                        },
                        None => {
                            if self.textures.contains_key(key) && self.textures[key].width == p.width
                                && self.textures[key].height == p.height {
                                Ok(
                                    TextureAction::Upload {
                                        id: key,
                                        x: 0,
                                        y: 0,
                                        width: p.width as usize,
                                        height: p.height as usize,
                                    },
                                )
                            } else {
                                Ok(
                                    TextureAction::Allocate {
                                        id: key,
                                        width: p.width as usize,
                                        height: p.height as usize,
                                    },
                                )
                            }
                        },
                    }
                }
            },
        }
    }

    /// The state after setting `p` for `id`: a whole image becomes the texture of
    /// the id, a partial one is written into it; a fault changes nothing.
    pub open spec fn after_set(self, id: TextureId, p: PatchModel) -> PainterModel {
        match (id, self.set_outcome(id, p)) {
            (TextureId::Managed(key), Ok(_)) => {
                let texture = match p.pos {
                    Some((x, y)) => self.textures[key].blit(x, y, p.width, p.height, p.gpu_pixels()),
                    None => TextureModel::from_patch(p),
                };
                PainterModel { textures: self.textures.insert(key, texture), ..self }
            },
            _ => self,
        }
    }

    /// What freeing `id` yields.
    pub open spec fn free_outcome(self, id: TextureId) -> Result<TextureAction, TextureError> {
        match id {
            TextureId::User(_) => Err(TextureError::NativeId),
            TextureId::Managed(key) => {
                if self.textures.contains_key(key) {
                    Ok(TextureAction::Release { id: key })
                } else {
                    Err(TextureError::UnknownTexture)
                }
            },
        }
    }

    /// The state after freeing `id`: the managed table without it.
    pub open spec fn after_free(self, id: TextureId) -> PainterModel {
        match id {
            TextureId::User(_) => self,
            TextureId::Managed(key) => PainterModel { textures: self.textures.remove(key), ..self },
        }
    }

    /// What one operation yields.
    pub open spec fn outcome(self, op: TextureOp) -> Result<TextureAction, TextureError> {
        match op {
            TextureOp::Put(id, p) => self.set_outcome(id, p),
            TextureOp::Free(id) => self.free_outcome(id),
        }
    }

    /// The state after one operation.
    pub open spec fn after(self, op: TextureOp) -> PainterModel {
        match op {
            TextureOp::Put(id, p) => self.after_set(id, p),
            TextureOp::Free(id) => self.after_free(id),
        }
    }

    /// The state after a sequence of operations, applied first to last.
    pub open spec fn after_all(self, ops: Seq<TextureOp>) -> PainterModel
        decreases ops.len(),
    {
        if ops.len() == 0 {
            self
        } else {
            self.after_all(ops.drop_last()).after(ops.last())
        }
    }

    /// The state after room was made for a mesh of `vertices` vertices and
    /// `indices` indices: each scratch buffer keeps its room where it is
    /// enough, and is doubled until it is where not.
    pub open spec fn after_reserve(self, vertices: nat, indices: nat) -> PainterModel {
        PainterModel {
            vertex_room: capped(grown(self.vertex_room, vertices)),
            index_room: capped(grown(self.index_room, indices)),
            ..self
        }
    }

    /// The state after registering a native texture, where an id is left.
    pub open spec fn after_register(self, native: NativeTexture) -> PainterModel {
        PainterModel {
            natives: self.natives.insert(self.next_native as u64, native),
            next_native: self.next_native + 1,
            ..self
        }
    }
}

/// The rendering bridge: the table of managed textures, the native textures
/// that the host registered, and the device's limit on texture size.
pub struct Painter {
    max_texture_side: usize,
    managed: HashMap<u64, ManagedTexture>,
    native: HashMap<u64, NativeTexture>,
    next_native_tex_id: u64,
    vertex_scratch: ScratchBuffer,
    index_scratch: ScratchBuffer,
}

impl View for Painter {
    type V = PainterModel;

    closed spec fn view(&self) -> PainterModel {
        PainterModel {
            max_texture_side: self.max_texture_side as nat,
            textures: self.managed@.map_values(|t: ManagedTexture| t@),
            natives: self.native@,
            next_native: self.next_native_tex_id as nat,
            vertex_room: self.vertex_scratch@,
            index_room: self.index_scratch@,
        }
    }
}

impl Painter {
    /// The invariant of the bridge.
    pub open spec fn wf(&self) -> bool {
        self@.wf()
    }

    /// A bridge for a device whose textures may be `max_texture_side` long on
    /// each side. It holds no texture and its scratch buffers have no room.
    pub fn new(max_texture_side: usize) -> (p: Painter)
        ensures
            p.wf(),
            p@ == PainterModel::fresh(max_texture_side as nat),
    {
        let p = Painter {
            max_texture_side,
            managed: HashMap::new(),
            native: HashMap::new(),
            next_native_tex_id: 0,
            vertex_scratch: ScratchBuffer::new(),
            index_scratch: ScratchBuffer::new(),
        };
        assert(p@.textures =~= Map::empty());
        proof {
            p.vertex_scratch.lemma_room_is_bounded();
            p.index_scratch.lemma_room_is_bounded();
        }
        p
    }

    /// Longest texture side that the device allows.
    pub fn max_texture_side(&self) -> (side: usize)
        ensures
            side == self@.max_texture_side,
    {
        self.max_texture_side
    }

    /// Room of the vertex scratch buffer, in vertices.
    pub fn vertex_capacity(&self) -> (c: usize)
        ensures
            c == self@.vertex_room,
    {
        self.vertex_scratch.capacity()
    }

    /// Room of the index scratch buffer, in indices.
    pub fn index_capacity(&self) -> (c: usize)
        ensures
            c == self@.index_room,
    {
        self.index_scratch.capacity()
    }

    /// Makes room in the scratch buffers for a mesh of `vertices` vertices and
    /// `indices` indices. Returns whether either buffer grew.
    pub fn reserve_scratch(&mut self, vertices: usize, indices: usize) -> (grew: bool)
        requires
            old(self).wf(),
        ensures
            final(self).wf(),
            final(self)@ == old(self)@.after_reserve(vertices as nat, indices as nat),
            grew == (old(self)@.vertex_room < vertices || old(self)@.index_room < indices),
    {
        let ghost before = self@;
        let more_vertices = self.vertex_scratch.reserve(vertices);
        let more_indices = self.index_scratch.reserve(indices);
        assert(self@.textures == before.textures);
        assert(self@.natives == before.natives);
        proof {
            self.vertex_scratch.lemma_room_is_bounded();
            self.index_scratch.lemma_room_is_bounded();
        }
        more_vertices || more_indices
    }

    /// Records a texture of the host under a fresh id of the native namespace.
    /// Nothing is uploaded. `None` only when every id has been handed out.
    pub fn register_native_texture(&mut self, handle: u64, options: TextureOptions) -> (id: Option<TextureId>)
        requires
            old(self).wf(),
        ensures
            final(self).wf(),
            old(self)@.next_native < u64::MAX ==> id == Some(TextureId::User(old(self)@.next_native as u64))
                && final(self)@ == old(self)@.after_register(NativeTexture { handle, options }),
            old(self)@.next_native >= u64::MAX ==> id.is_none() && final(self)@ == old(self)@,
    {
        if self.next_native_tex_id == u64::MAX {
            return None;
        }
        let ghost before = self@;
        let key: u64 = self.next_native_tex_id;
        self.native.insert(key, NativeTexture { handle, options });
        self.next_native_tex_id = key + 1;
        assert(self@.textures == before.textures);
        assert(self@.natives =~= before.natives.insert(key, NativeTexture { handle, options }));
        Some(TextureId::User(key))
    }

    /// Drops the association of a native id. Returns whether there was one; a
    /// managed id is never touched.
    pub fn free_native_texture(&mut self, id: TextureId) -> (dropped: bool)
        requires
            old(self).wf(),
        ensures
            final(self).wf(),
            dropped == (id matches TextureId::User(key) && old(self)@.natives.contains_key(key)),
            final(self)@ == (match id {
                TextureId::User(key) => PainterModel { natives: old(self)@.natives.remove(key), ..old(self)@ },
                TextureId::Managed(_) => old(self)@,
            }),
    {
        match id {
            TextureId::User(key) => self.native.remove(&key).is_some(),
            TextureId::Managed(_) => false,
        }
    }

    /// The native texture registered under an id.
    pub fn native_texture(&self, id: TextureId) -> (n: Option<NativeTexture>)
        ensures
            n == (match id {
                TextureId::User(key) if self@.natives.contains_key(key) => Some(self@.natives[key]),
                _ => None,
            }),
    {
        match id {
            TextureId::User(key) => match self.native.get(&key) {
                Some(n) => Some(*n),
                None => None,
            },
            TextureId::Managed(_) => None,
        }
    }

    /// The managed texture of an id.
    pub fn texture(&self, id: TextureId) -> (t: Option<&ManagedTexture>)
        requires
            self.wf(),
        ensures
            match id {
                TextureId::Managed(key) if self@.textures.contains_key(key) => t.is_some()
                    && t.unwrap()@ == self@.textures[key] && t.unwrap().wf(),
                _ => t.is_none(),
            },
    {
        match id {
            TextureId::Managed(key) => self.managed.get(&key),
            TextureId::User(_) => None,
        }
    }

    /// Applies one patch of a delta: a whole image replaces or creates the
    /// texture of the id, a partial one is written into it.
    pub fn set_texture(&mut self, id: TextureId, patch: &ImagePatch) -> (r: Result<TextureAction, TextureError>)
        requires
            old(self).wf(),
        ensures
            final(self).wf(),
            r == old(self)@.set_outcome(id, patch@),
            final(self)@ == old(self)@.after_set(id, patch@),
    {
        let key: u64 = match id {
            TextureId::User(_) => {
                return Err(TextureError::NativeId);
            },
            TextureId::Managed(key) => key,
        };
        if !patch.is_complete() {
            return Err(TextureError::PixelCountMismatch);
        }
        if patch.width > self.max_texture_side || patch.height > self.max_texture_side {
            return Err(TextureError::TooLarge);
        }
        let ghost before = self@;
        match patch.pos {
            Some((x, y)) => {
                let fits = match self.managed.get(&key) {
                    None => {
                        return Err(TextureError::UnknownTexture);
                    },
                    Some(t) => patch.width <= t.width() && x <= t.width() - patch.width && patch.height
                        <= t.height() && y <= t.height() - patch.height,
                };
                if !fits {
                    return Err(TextureError::OutOfBounds);
                }
                let pixels = patch.gpu_pixels();
                let mut texture = self.managed.remove(&key).unwrap();
                texture.write(x, y, patch.width, patch.height, &pixels);
                self.managed.insert(key, texture);
                assert(self@.textures =~= before.after_set(id, patch@).textures);
                Ok(TextureAction::Upload { id: key, x, y, width: patch.width, height: patch.height })
            },
            None => {
                let in_place = match self.managed.get(&key) {
                    None => false,
                    Some(t) => t.width() == patch.width && t.height() == patch.height,
                };
                let texture = ManagedTexture::from_pixels(
                    patch.width,
                    patch.height,
                    patch.gpu_pixels(),
                    patch.options,
                );
                self.managed.insert(key, texture);
                assert(self@.textures =~= before.after_set(id, patch@).textures);
                if in_place {
                    Ok(TextureAction::Upload { id: key, x: 0, y: 0, width: patch.width, height: patch.height })
                } else {
                    Ok(TextureAction::Allocate { id: key, width: patch.width, height: patch.height })
                }
            },
        }
    }

    /// Removes a managed texture from the table.
    pub fn free_texture(&mut self, id: TextureId) -> (r: Result<TextureAction, TextureError>)
        requires
            old(self).wf(),
        ensures
            final(self).wf(),
            r == old(self)@.free_outcome(id),
            final(self)@ == old(self)@.after_free(id),
    {
        let ghost before = self@;
        match id {
            TextureId::User(_) => {
                Err(TextureError::NativeId)
            },
            TextureId::Managed(key) => {
                let removed = self.managed.remove(&key);
                assert(self@.textures =~= before.textures.remove(key));
                assert(self@.natives == before.natives);
                match removed {
                    Some(_) => Ok(TextureAction::Release { id: key }),
                    None => Err(TextureError::UnknownTexture),
                }
            },
        }
    }

    /// Applies a delta: every patch in order, then every deletion in order.
    /// The result holds one entry per operation, in that order: the action that
    /// the host carries out, or the fault for which the operation was left out.
    pub fn apply_texture_delta(&mut self, delta: &TexturesDelta) -> (out: Vec<Result<TextureAction, TextureError>>)
        requires
            old(self).wf(),
        ensures
            final(self).wf(),
            final(self)@ == old(self)@.after_all(delta.ops()),
            out@.len() == delta.ops().len(),
            forall|i: int|
                0 <= i < out@.len() ==> #[trigger] out@[i] == old(self)@.after_all(delta.ops().take(i)).outcome(
                    delta.ops()[i],
                ),
    {
        let ghost before = self@;
        let ghost ops = delta.ops();
        let mut out: Vec<Result<TextureAction, TextureError>> = Vec::new();
        let sets: usize = delta.set.len();
        let frees: usize = delta.free.len();
        assert(ops.take(0) =~= Seq::<TextureOp>::empty());
        let mut i: usize = 0;
        while i < sets
            invariant
                i <= sets,
                sets == delta.set@.len(),
                frees == delta.free@.len(),
                ops == delta.ops(),
                self.wf(),
                self@ == before.after_all(ops.take(i as int)),
                out@.len() == i,
                forall|k: int| 0 <= k < i ==> #[trigger] out@[k] == before.after_all(ops.take(k)).outcome(ops[k]),
            decreases sets - i,
        {
            let r = self.set_texture(delta.set[i].0, &delta.set[i].1);
            out.push(r);
            proof {
                assert(ops.take(i + 1).drop_last() =~= ops.take(i as int));
            }
            i += 1;
        }
        let mut j: usize = 0;
        while j < frees
            invariant
                j <= frees,
                sets == delta.set@.len(),
                frees == delta.free@.len(),
                ops == delta.ops(),
                self.wf(),
                self@ == before.after_all(ops.take(sets + j)),
                out@.len() == sets + j,
                forall|k: int| 0 <= k < sets + j ==> #[trigger] out@[k] == before.after_all(ops.take(k)).outcome(ops[k]),
            decreases frees - j,
        {
            let r = self.free_texture(delta.free[j]);
            out.push(r);
            proof {
                assert(ops.take(sets + j + 1).drop_last() =~= ops.take(sets + j));
            }
            j += 1;
        }
        assert(ops.take(sets + frees) =~= ops);
        out
    }
}

} // verus!
