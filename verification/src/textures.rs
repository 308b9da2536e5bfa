//! The texture array manager.
//!
//! Textures are registered into a capacity-bounded array. Each
//! registration hands out the next sequential handle, records the
//! texture's dimensions, and republishes the binding artifact: a
//! full-capacity list of slots in which every populated slot points to
//! a registered texture in handle order and every remaining slot points
//! to the shared placeholder texture. A reader of the slot list never
//! sees a partially rebuilt state, because registration either fails
//! with the manager untouched or completes the whole rebuild.

use vstd::prelude::*;

use crate::{RendererError, TextureHandle, TEXTURE_CAPACITY};

verus! {

/// The dimensions of one registered texture; its handle is its position
/// in the registration order.
#[derive(Clone, Copy, Debug, PartialEq, Eq, Structural)]
pub struct TextureInfo {
    pub width: u32,
    pub height: u32,
}

/// What one slot of the binding artifact resolves to.
#[derive(Clone, Copy, Debug, PartialEq, Eq, Structural)]
pub enum SlotRef {
    /// The slot shows the registered texture with this handle.
    Registered(TextureHandle),
    /// The slot shows the shared placeholder texture.
    Placeholder,
}

/// What slot `i` of a binding artifact built for `count` registered
/// textures resolves to.
pub open spec fn slot_spec(count: int, i: int) -> SlotRef {
    if i < count {
        SlotRef::Registered(i as usize)
    } else {
        SlotRef::Placeholder
    }
}

/// A full-capacity slot list is exactly the rebuilt binding artifact
/// for `count` registered textures.
pub open spec fn slots_match(slots: Seq<SlotRef>, count: int) -> bool {
    &&& slots.len() == TEXTURE_CAPACITY
    &&& forall|i: int| 0 <= i < TEXTURE_CAPACITY ==> #[trigger] slots[i] == slot_spec(count, i)
}

/// How many slots of the list point at a registered texture.
pub open spec fn populated_count(slots: Seq<SlotRef>) -> int
    decreases slots.len(),
{
    if slots.len() == 0 {
        0
    } else {
        populated_count(slots.drop_last()) + if slots.last() is Registered {
            1int
        } else {
            0int
        }
    }
}

/// The binding artifact built for `count` registered textures has
/// exactly `count` populated slots; all remaining slots resolve to the
/// placeholder by construction.
pub proof fn lemma_populated_slots_equal_registered(slots: Seq<SlotRef>, count: int, len: int)
    requires
        0 <= count <= len,
        slots.len() == len,
        forall|i: int| 0 <= i < len ==> #[trigger] slots[i] == slot_spec(count, i),
    ensures
        populated_count(slots) == count,
    decreases len,
{
    if len == 0 {
    } else {
        let prefix = slots.drop_last();
        if count == len {
            assert(slots.last() == slot_spec(count, len - 1));
            assert forall|i: int| 0 <= i < len - 1 implies #[trigger] prefix[i] == slot_spec(
                count - 1,
                i,
            ) by {
                assert(slots[i] == slot_spec(count, i));
            }
            lemma_populated_slots_equal_registered(prefix, count - 1, len - 1);
        } else {
            assert(slots.last() == slot_spec(count, len - 1));
            assert forall|i: int| 0 <= i < len - 1 implies #[trigger] prefix[i] == slot_spec(
                count,
                i,
            ) by {
                assert(slots[i] == slot_spec(count, i));
            }
            lemma_populated_slots_equal_registered(prefix, count, len - 1);
        }
    }
}

/// The growable, capacity-bounded set of registered textures.
pub struct TextureArray {
    /// Dimensions of each registered texture, in handle order.
    pub registered: Vec<TextureInfo>,
}

impl TextureArray {
    /// The number of registered textures.
    pub open spec fn count(self) -> int {
        self.registered@.len() as int
    }

    /// The registered count never exceeds the slot capacity.
    pub open spec fn wf(self) -> bool {
        self.registered@.len() <= TEXTURE_CAPACITY
    }

    /// An empty texture array.
    pub fn new() -> (r: TextureArray)
        ensures
            r.wf(),
            r.count() == 0,
    {
        TextureArray { registered: Vec::new() }
    }

    /// Registers a texture of the given dimensions, whose pixel data is
    /// a tightly packed RGBA8 buffer of `4 * width * height` bytes.
    ///
    /// Succeeds with the next sequential handle exactly when the array
    /// is below capacity; beyond capacity it fails with
    /// `CapacityExceeded` and leaves the array untouched.
    pub fn register(&mut self, width: u32, height: u32) -> (r: Result<TextureHandle, RendererError>)
        requires
            old(self).wf(),
            width >= 1,
            height >= 1,
        ensures
            final(self).wf(),
            r is Ok <==> old(self).count() < TEXTURE_CAPACITY,
            r matches Ok(handle) ==> {
                &&& handle == old(self).count()
                &&& final(self).count() == old(self).count() + 1
                &&& final(self).registered@ == old(self).registered@.push(
                    TextureInfo { width, height },
                )
            },
            r is Err ==> {
                &&& *final(self) == *old(self)
                &&& r == Err::<TextureHandle, RendererError>(RendererError::CapacityExceeded)
            },
    {
        if self.registered.len() >= TEXTURE_CAPACITY {
            return Err(RendererError::CapacityExceeded);
        }
        let handle = self.registered.len();
        self.registered.push(TextureInfo { width, height });
        Ok(handle)
    }

    /// Rebuilds the binding artifact's slot list in full: one entry per
    /// slot up to capacity, populated slots first in handle order, the
    /// placeholder in every remaining slot.
    pub fn binding_slots(&self) -> (slots: Vec<SlotRef>)
        requires
            self.wf(),
        ensures
            slots_match(slots@, self.count()),
    {
        let count = self.registered.len();
        let mut slots: Vec<SlotRef> = Vec::new();
        let mut i: usize = 0;
        while i < TEXTURE_CAPACITY
            invariant
                i <= TEXTURE_CAPACITY,
                count == self.registered@.len(),
                slots@.len() == i,
                forall|j: int| 0 <= j < i ==> #[trigger] slots@[j] == slot_spec(count as int, j),
            decreases TEXTURE_CAPACITY - i,
        {
            if i < count {
                slots.push(SlotRef::Registered(i));
            } else {
                slots.push(SlotRef::Placeholder);
            }
            i = i + 1;
        }
        slots
    }
}

} // verus!
