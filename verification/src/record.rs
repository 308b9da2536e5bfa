//! Draw records and their GPU byte layout.
//!
//! A draw record carries one rectangle: position, size, color and an
//! optional texture handle. Position, size and color components are
//! kept as raw 32-bit lanes — the IEEE-754 bit patterns of the host's
//! floats — because the renderer core never does arithmetic on them; it
//! only lays them out for the GPU. Each record is packed to exactly 32
//! bytes (a multiple of 16, as the GPU's alignment rules demand) by an
//! explicit little-endian packing routine, so the buffer layout is
//! defined by this module and not by any in-memory representation.

use vstd::prelude::*;

use crate::{RendererError, BATCH_CAPACITY, TEXTURE_CAPACITY};

verus! {

/// Bytes of one packed draw record.
pub const RECORD_BYTES: usize = 32;

/// The lane value marking a record that samples no texture.
pub const NO_TEXTURE_SENTINEL: u32 = 0xFFFF_FFFF;

/// One rectangle to draw. Later records are painted on top of earlier
/// ones; there is no explicit z-index.
#[derive(Clone, Copy, Debug, PartialEq, Eq, Structural)]
pub struct DrawRecord {
    /// Bit pattern of the x coordinate of the top-left corner, in pixels.
    pub pos_x: u32,
    /// Bit pattern of the y coordinate of the top-left corner, in pixels.
    pub pos_y: u32,
    /// Bit pattern of the width, in pixels.
    pub size_x: u32,
    /// Bit pattern of the height, in pixels.
    pub size_y: u32,
    /// Bit pattern of the red color component.
    pub color_r: u32,
    /// Bit pattern of the green color component.
    pub color_g: u32,
    /// Bit pattern of the blue color component.
    pub color_b: u32,
    /// Handle of the texture to sample, or `None` for a flat color.
    pub texture: Option<u32>,
}

impl DrawRecord {
    /// A texture reference, when present, stays within the binding
    /// array's capacity.
    pub open spec fn wf(self) -> bool {
        match self.texture {
            Option::Some(handle) => handle < TEXTURE_CAPACITY as u32,
            Option::None => true,
        }
    }
}

/// The four little-endian bytes of a 32-bit lane.
pub open spec fn u32_le_bytes(x: u32) -> Seq<u8> {
    seq![
        (x & 0xff) as u8,
        ((x >> 8) & 0xff) as u8,
        ((x >> 16) & 0xff) as u8,
        ((x >> 24) & 0xff) as u8,
    ]
}

/// The lane that encodes a record's texture reference: the handle
/// itself, or the sentinel for a flat-colored record.
pub open spec fn texture_lane(texture: Option<u32>) -> u32 {
    match texture {
        Option::Some(handle) => handle,
        Option::None => NO_TEXTURE_SENTINEL,
    }
}

/// The 32 bytes of one packed record: position, size, color, then the
/// texture lane.
pub open spec fn record_bytes(r: DrawRecord) -> Seq<u8> {
    u32_le_bytes(r.pos_x) + u32_le_bytes(r.pos_y) + u32_le_bytes(r.size_x) + u32_le_bytes(r.size_y)
        + u32_le_bytes(r.color_r) + u32_le_bytes(r.color_g) + u32_le_bytes(r.color_b)
        + u32_le_bytes(texture_lane(r.texture))
}

/// The packed bytes of a whole batch, record after record.
pub open spec fn batch_bytes(batch: Seq<DrawRecord>) -> Seq<u8>
    decreases batch.len(),
{
    if batch.len() == 0 {
        Seq::empty()
    } else {
        batch_bytes(batch.drop_last()) + record_bytes(batch.last())
    }
}

/// A packed batch occupies exactly 32 bytes per record.
pub proof fn lemma_batch_bytes_len(batch: Seq<DrawRecord>)
    ensures
        batch_bytes(batch).len() == RECORD_BYTES * batch.len(),
    decreases batch.len(),
{
    if batch.len() > 0 {
        lemma_batch_bytes_len(batch.drop_last());
    }
}

/// Appends the four little-endian bytes of a 32-bit lane.
fn push_u32_le(out: &mut Vec<u8>, x: u32)
    ensures
        final(out)@ == old(out)@ + u32_le_bytes(x),
{
    proof {
        assert((x & 0xff) < 256 && ((x >> 8) & 0xff) < 256 && ((x >> 16) & 0xff) < 256 && ((x
            >> 24) & 0xff) < 256) by (bit_vector);
    }
    out.push((x & 0xff) as u8);
    out.push(((x >> 8) & 0xff) as u8);
    out.push(((x >> 16) & 0xff) as u8);
    out.push(((x >> 24) & 0xff) as u8);
    proof {
        assert(out@ =~= old(out)@ + u32_le_bytes(x));
    }
}

/// Appends the 32 packed bytes of one record.
fn push_record(out: &mut Vec<u8>, r: &DrawRecord)
    ensures
        final(out)@ == old(out)@ + record_bytes(*r),
{
    push_u32_le(out, r.pos_x);
    push_u32_le(out, r.pos_y);
    push_u32_le(out, r.size_x);
    push_u32_le(out, r.size_y);
    push_u32_le(out, r.color_r);
    push_u32_le(out, r.color_g);
    push_u32_le(out, r.color_b);
    let lane = match r.texture {
        Option::Some(handle) => handle,
        Option::None => NO_TEXTURE_SENTINEL,
    };
    push_u32_le(out, lane);
    proof {
        assert(out@ =~= old(out)@ + record_bytes(*r));
    }
}

/// Packs the whole batch for the GPU storage buffer, starting at offset
/// zero. Succeeds exactly when the batch fits the buffer's capacity;
/// an oversized batch is rejected whole, never truncated.
pub fn encode_batch(batch: &Vec<DrawRecord>) -> (r: Result<Vec<u8>, RendererError>)
    ensures
        r is Ok <==> batch@.len() <= BATCH_CAPACITY,
        r matches Ok(bytes) ==> {
            &&& bytes@ == batch_bytes(batch@)
            &&& bytes@.len() == RECORD_BYTES * batch@.len()
        },
        r is Err ==> r == Err::<Vec<u8>, RendererError>(RendererError::CapacityExceeded),
{
    if batch.len() > BATCH_CAPACITY {
        return Err(RendererError::CapacityExceeded);
    }
    let mut out: Vec<u8> = Vec::new();
    let mut i: usize = 0;
    while i < batch.len()
        invariant
            i <= batch@.len(),
            out@ == batch_bytes(batch@.take(i as int)),
        decreases batch@.len() - i,
    {
        push_record(&mut out, &batch[i]);
        proof {
            assert(batch@.take(i + 1).drop_last() =~= batch@.take(i as int));
            assert(batch@.take(i + 1).last() == batch@[i as int]);
        }
        i = i + 1;
    }
    proof {
        assert(batch@.take(batch@.len() as int) =~= batch@);
        lemma_batch_bytes_len(batch@);
    }
    Ok(out)
}

} // verus!
