//! The staged-transfer protocol and the mipmap blit chain.
//!
//! Uploads into device-local memory run through a temporary host-visible
//! staging buffer and a one-shot command buffer that is submitted and
//! waited on before the staging buffer is destroyed: loads are synchronous
//! by design, and a failed step leaves no destination buffer without
//! backing data.

use vstd::prelude::*;

verus! {

/// Host-API bit for a buffer usable as a transfer source.
pub const BUFFER_USAGE_TRANSFER_SRC: u32 = 0x1;

/// Host-API bit for a buffer usable as a transfer destination.
pub const BUFFER_USAGE_TRANSFER_DST: u32 = 0x2;

/// Host-API bit for a uniform buffer.
pub const BUFFER_USAGE_UNIFORM: u32 = 0x10;

/// Host-API bit for an index buffer.
pub const BUFFER_USAGE_INDEX: u32 = 0x40;

/// Host-API bit for a vertex buffer.
pub const BUFFER_USAGE_VERTEX: u32 = 0x80;

/// Host-API bit for device-local memory.
pub const MEMORY_DEVICE_LOCAL: u32 = 0x1;

/// Host-API bit for host-visible memory.
pub const MEMORY_HOST_VISIBLE: u32 = 0x2;

/// Host-API bit for host-coherent memory.
pub const MEMORY_HOST_COHERENT: u32 = 0x4;

/// One step of a staged upload.
#[derive(Clone, Copy, Debug, PartialEq, Eq, Structural)]
pub enum UploadStep {
    /// Create a buffer and bind memory with the given properties; the
    /// allocation is sized by the device's reported requirements, never
    /// less than `size`.
    CreateBuffer { size: u64, usage: u32, properties: u32 },
    MapMemory { size: u64 },
    CopyToMapped { size: u64 },
    /// No flush is needed: coherent memory is synchronized by the
    /// submission's implicit ordering.
    UnmapMemory,
    /// Record the staging-to-destination copy in a one-shot buffer.
    RecordCopy { size: u64 },
    /// Submit and block until the copy completes.
    SubmitAndWait,
    DestroyStagingBuffer,
    FreeStagingMemory,
}

/// The staged upload protocol for `size` bytes into a device-local buffer
/// with the given usage.
pub open spec fn spec_staged_upload_plan(size: u64, usage: u32) -> Seq<UploadStep> {
    seq![
        UploadStep::CreateBuffer {
            size,
            usage: BUFFER_USAGE_TRANSFER_SRC,
            properties: MEMORY_HOST_VISIBLE | MEMORY_HOST_COHERENT,
        },
        UploadStep::MapMemory { size },
        UploadStep::CopyToMapped { size },
        UploadStep::UnmapMemory,
        UploadStep::CreateBuffer {
            size,
            usage: BUFFER_USAGE_TRANSFER_DST | usage,
            properties: MEMORY_DEVICE_LOCAL,
        },
        UploadStep::RecordCopy { size },
        UploadStep::SubmitAndWait,
        UploadStep::DestroyStagingBuffer,
        UploadStep::FreeStagingMemory,
    ]
}

/// Produces the staged upload plan: a host-visible coherent staging buffer
/// sized to the data, the copy through a mapped pointer, a device-local
/// destination that is always a transfer destination besides its own
/// usage, the blocking one-shot copy, then the staging teardown.
pub fn staged_upload_plan(size: u64, usage: u32) -> (r: Vec<UploadStep>)
    ensures
        r@ == spec_staged_upload_plan(size, usage),
        r@[4] == (UploadStep::CreateBuffer {
            size,
            usage: BUFFER_USAGE_TRANSFER_DST | usage,
            properties: MEMORY_DEVICE_LOCAL,
        }),
        (BUFFER_USAGE_TRANSFER_DST | usage) & BUFFER_USAGE_TRANSFER_DST
            == BUFFER_USAGE_TRANSFER_DST,
        (BUFFER_USAGE_TRANSFER_DST | usage) & usage == usage,
{
    let mut r: Vec<UploadStep> = Vec::new();
    r.push(
        UploadStep::CreateBuffer {
            size,
            usage: BUFFER_USAGE_TRANSFER_SRC,
            properties: MEMORY_HOST_VISIBLE | MEMORY_HOST_COHERENT,
        },
    );
    r.push(UploadStep::MapMemory { size });
    r.push(UploadStep::CopyToMapped { size });
    r.push(UploadStep::UnmapMemory);
    r.push(
        UploadStep::CreateBuffer {
            size,
            usage: BUFFER_USAGE_TRANSFER_DST | usage,
            properties: MEMORY_DEVICE_LOCAL,
        },
    );
    r.push(UploadStep::RecordCopy { size });
    r.push(UploadStep::SubmitAndWait);
    r.push(UploadStep::DestroyStagingBuffer);
    r.push(UploadStep::FreeStagingMemory);
    proof {
        assert(r@ =~= spec_staged_upload_plan(size, usage));
        assert((BUFFER_USAGE_TRANSFER_DST | usage) & BUFFER_USAGE_TRANSFER_DST
            == BUFFER_USAGE_TRANSFER_DST) by (bit_vector);
        assert((BUFFER_USAGE_TRANSFER_DST | usage) & usage == usage) by (bit_vector);
    }
    r
}

/// Halving a mip dimension, which never drops below one texel.
pub open spec fn spec_half_extent(x: u32) -> u32 {
    if x > 1 {
        (x / 2) as u32
    } else {
        1u32
    }
}

/// The dimensions of mip level `level`.
pub open spec fn spec_mip_dims(width: u32, height: u32, level: nat) -> (u32, u32)
    decreases level,
{
    if level == 0 {
        (width, height)
    } else {
        let prev = spec_mip_dims(width, height, (level - 1) as nat);
        (spec_half_extent(prev.0), spec_half_extent(prev.1))
    }
}

/// The number of halvings until `n` reaches one.
pub open spec fn spec_log2(n: nat) -> nat
    decreases n,
{
    if n <= 1 {
        0
    } else {
        1 + spec_log2(n / 2)
    }
}

/// Two to the power `k`.
pub open spec fn spec_pow2(k: nat) -> nat
    decreases k,
{
    if k == 0 {
        1
    } else {
        2 * spec_pow2((k - 1) as nat)
    }
}

/// A positive number below a power of two has a logarithm below the
/// exponent.
proof fn lemma_log2_below(n: nat, k: nat)
    requires
        1 <= n < spec_pow2(k),
    ensures
        spec_log2(n) < k,
    decreases k,
{
    if n > 1 {
        lemma_log2_below(n / 2, (k - 1) as nat);
    }
}

/// The mip chain length: one more than the number of halvings of the
/// larger dimension.
pub fn mip_level_count(width: u32, height: u32) -> (r: u32)
    requires
        1 <= width,
        1 <= height,
    ensures
        r == 1 + spec_log2(if width >= height {
            width as nat
        } else {
            height as nat
        }),
        1 <= r <= 32,
{
    let mut m: u32 = if width >= height {
        width
    } else {
        height
    };
    let mut count: u32 = 1;
    proof {
        assert(spec_pow2(32) == 0x1_0000_0000) by {
            reveal_with_fuel(spec_pow2, 33);
        }
        lemma_log2_below(m as nat, 32);
    }
    while m > 1
        invariant
            1 <= m,
            1 <= count,
            count + spec_log2(m as nat) == 1 + spec_log2(
                if width >= height {
                    width as nat
                } else {
                    height as nat
                },
            ),
            count + spec_log2(m as nat) <= 32,
        decreases m,
    {
        proof {
            assert(spec_log2((m / 2) as nat) + 1 == spec_log2(m as nat));
        }
        m = m / 2;
        count = count + 1;
    }
    count
}

/// One blit of the mipmap chain: level `src_level` downsampled into the
/// next level.
#[derive(Clone, Copy, Debug, PartialEq, Eq, Structural)]
pub struct MipBlit {
    pub src_level: u32,
    pub dst_level: u32,
    pub src_width: u32,
    pub src_height: u32,
    pub dst_width: u32,
    pub dst_height: u32,
}

/// Produces the blit chain for generating `mip_levels` levels from the
/// base image: one blit per level after the base, each reading the
/// previous level at its dimensions and writing the halved dimensions.
pub fn mip_blit_plan(width: u32, height: u32, mip_levels: u32) -> (r: Vec<MipBlit>)
    requires
        1 <= width,
        1 <= height,
        1 <= mip_levels,
    ensures
        r@.len() == mip_levels - 1,
        forall|i: int|
            0 <= i < r@.len() ==> r@[i] == (MipBlit {
                src_level: i as u32,
                dst_level: (i + 1) as u32,
                src_width: spec_mip_dims(width, height, i as nat).0,
                src_height: spec_mip_dims(width, height, i as nat).1,
                dst_width: spec_mip_dims(width, height, (i + 1) as nat).0,
                dst_height: spec_mip_dims(width, height, (i + 1) as nat).1,
            }),
{
    let mut r: Vec<MipBlit> = Vec::new();
    let mut mip_width = width;
    let mut mip_height = height;
    let mut level: u32 = 1;
    while level < mip_levels
        invariant
            1 <= level <= mip_levels,
            r@.len() == level - 1,
            mip_width == spec_mip_dims(width, height, (level - 1) as nat).0,
            mip_height == spec_mip_dims(width, height, (level - 1) as nat).1,
            1 <= mip_width,
            1 <= mip_height,
            forall|i: int|
                0 <= i < r@.len() ==> r@[i] == (MipBlit {
                    src_level: i as u32,
                    dst_level: (i + 1) as u32,
                    src_width: spec_mip_dims(width, height, i as nat).0,
                    src_height: spec_mip_dims(width, height, i as nat).1,
                    dst_width: spec_mip_dims(width, height, (i + 1) as nat).0,
                    dst_height: spec_mip_dims(width, height, (i + 1) as nat).1,
                }),
        decreases mip_levels - level,
    {
        let dst_width = if mip_width > 1 {
            mip_width / 2
        } else {
            1
        };
        let dst_height = if mip_height > 1 {
            mip_height / 2
        } else {
            1
        };
        r.push(
            MipBlit {
                src_level: level - 1,
                dst_level: level,
                src_width: mip_width,
                src_height: mip_height,
                dst_width,
                dst_height,
            },
        );
        mip_width = dst_width;
        mip_height = dst_height;
        level = level + 1;
    }
    r
}

} // verus!
