//! The command-recording plan for one frame: the exact ordered command
//! list recorded against a swapchain image, and the fixed push-constant
//! wire layout.
//!
//! The plan is recorded per image index against that image's own command
//! pool, so one image's recording never disturbs another still in flight.

use vstd::bytes::spec_u32_to_le_bytes;
use vstd::prelude::*;

use crate::codec::{lemma_words_bytes_index, lemma_words_bytes_len, push_u32, spec_words_bytes};
use crate::store::Mesh;
use crate::swapchain::Extent2D;
use crate::vertex::Mat4Bits;

verus! {

/// The bit pattern of the 32-bit float one.
pub const FLOAT_ONE_BITS: u32 = 0x3f80_0000;

/// A clear color as four 32-bit float bit patterns.
#[derive(Clone, Copy, Debug, PartialEq, Eq, Structural)]
pub struct ClearColorBits {
    pub r: u32,
    pub g: u32,
    pub b: u32,
    pub a: u32,
}

/// Opaque black: zero red, green and blue, alpha one.
pub open spec fn spec_clear_black() -> ClearColorBits {
    ClearColorBits { r: 0u32, g: 0u32, b: 0u32, a: FLOAT_ONE_BITS }
}

/// One recorded command of a frame.
#[derive(Clone, Copy, Debug, PartialEq)]
pub enum RenderCommand {
    /// Reset this image's command pool before re-recording.
    ResetCommandPool,
    BeginCommandBuffer,
    /// Begin the render pass over the whole extent, clearing color to
    /// opaque black and depth/stencil to one and zero.
    BeginRenderPass { extent: Extent2D, clear_color: ClearColorBits, clear_depth_bits: u32, clear_stencil: u32 },
    BindPipeline,
    BindVertexBuffer { binding: u32, buffer: u64 },
    BindIndexBuffer { buffer: u64 },
    BindDescriptorSet { image_index: u32 },
    /// Push the 64-byte model matrix to the vertex stage.
    PushModelMatrix { matrix: Mat4Bits },
    /// Push the 4-byte opacity to the fragment stage.
    PushOpacity { opacity_bits: u32 },
    DrawIndexed { index_count: u32, instance_count: u32 },
    EndRenderPass,
    EndCommandBuffer,
}

/// The seven commands drawing one mesh: vertex and instance buffers,
/// index buffer, this image's descriptor set, both push-constant blocks,
/// then the indexed draw.
pub open spec fn spec_mesh_commands(
    m: Mesh,
    image_index: u32,
    matrix: Mat4Bits,
    opacity_bits: u32,
) -> Seq<RenderCommand> {
    seq![
        RenderCommand::BindVertexBuffer { binding: 0u32, buffer: m.vertex_buffer },
        RenderCommand::BindVertexBuffer { binding: 1u32, buffer: m.instance_buffer },
        RenderCommand::BindIndexBuffer { buffer: m.index_buffer },
        RenderCommand::BindDescriptorSet { image_index },
        RenderCommand::PushModelMatrix { matrix },
        RenderCommand::PushOpacity { opacity_bits },
        RenderCommand::DrawIndexed {
            index_count: m.index_count,
            instance_count: m.instance_count,
        },
    ]
}

/// The concatenated draw commands of a mesh list, in order.
pub open spec fn spec_meshes_commands(
    ms: Seq<Mesh>,
    image_index: u32,
    matrix: Mat4Bits,
    opacity_bits: u32,
) -> Seq<RenderCommand>
    decreases ms.len(),
{
    if ms.len() == 0 {
        Seq::empty()
    } else {
        spec_meshes_commands(ms.drop_last(), image_index, matrix, opacity_bits)
            + spec_mesh_commands(ms.last(), image_index, matrix, opacity_bits)
    }
}

/// The full recording for one image: pool reset, buffer begin, render pass
/// begin with the fixed clear values, pipeline bind, the draws of every
/// live mesh, then render pass end and buffer end.
pub open spec fn spec_record_commands(
    ms: Seq<Mesh>,
    image_index: u32,
    extent: Extent2D,
    matrix: Mat4Bits,
    opacity_bits: u32,
) -> Seq<RenderCommand> {
    seq![
        RenderCommand::ResetCommandPool,
        RenderCommand::BeginCommandBuffer,
        RenderCommand::BeginRenderPass {
            extent,
            clear_color: spec_clear_black(),
            clear_depth_bits: FLOAT_ONE_BITS,
            clear_stencil: 0u32,
        },
        RenderCommand::BindPipeline,
    ] + spec_meshes_commands(ms, image_index, matrix, opacity_bits) + seq![
        RenderCommand::EndRenderPass,
        RenderCommand::EndCommandBuffer,
    ]
}

/// Produces the exact command list recorded for `image_index`, drawing
/// every mesh with the given model matrix and opacity.
pub fn record_draw_commands(
    meshes: &Vec<Mesh>,
    image_index: u32,
    extent: Extent2D,
    matrix: Mat4Bits,
    opacity_bits: u32,
) -> (r: Vec<RenderCommand>)
    ensures
        r@ == spec_record_commands(meshes@, image_index, extent, matrix, opacity_bits),
{
    let mut out: Vec<RenderCommand> = Vec::new();
    out.push(RenderCommand::ResetCommandPool);
    out.push(RenderCommand::BeginCommandBuffer);
    out.push(
        RenderCommand::BeginRenderPass {
            extent,
            clear_color: ClearColorBits { r: 0, g: 0, b: 0, a: FLOAT_ONE_BITS },
            clear_depth_bits: FLOAT_ONE_BITS,
            clear_stencil: 0,
        },
    );
    out.push(RenderCommand::BindPipeline);
    let ghost prologue = out@;
    let n = meshes.len();
    let mut k: usize = 0;
    proof {
        assert(meshes@.take(0) =~= Seq::<Mesh>::empty());
        assert(out@ =~= prologue + spec_meshes_commands(
            meshes@.take(0),
            image_index,
            matrix,
            opacity_bits,
        ));
    }
    while k < n
        invariant
            n == meshes@.len(),
            k <= n,
            prologue == seq![
                RenderCommand::ResetCommandPool,
                RenderCommand::BeginCommandBuffer,
                RenderCommand::BeginRenderPass {
                    extent,
                    clear_color: spec_clear_black(),
                    clear_depth_bits: FLOAT_ONE_BITS,
                    clear_stencil: 0u32,
                },
                RenderCommand::BindPipeline,
            ],
            out@ == prologue + spec_meshes_commands(
                meshes@.take(k as int),
                image_index,
                matrix,
                opacity_bits,
            ),
        decreases n - k,
    {
        let m = meshes[k];
        out.push(RenderCommand::BindVertexBuffer { binding: 0, buffer: m.vertex_buffer });
        out.push(RenderCommand::BindVertexBuffer { binding: 1, buffer: m.instance_buffer });
        out.push(RenderCommand::BindIndexBuffer { buffer: m.index_buffer });
        out.push(RenderCommand::BindDescriptorSet { image_index });
        out.push(RenderCommand::PushModelMatrix { matrix });
        out.push(RenderCommand::PushOpacity { opacity_bits });
        out.push(
            RenderCommand::DrawIndexed {
                index_count: m.index_count,
                instance_count: m.instance_count,
            },
        );
        proof {
            let taken = meshes@.take(k + 1);
            assert(taken.drop_last() =~= meshes@.take(k as int));
            assert(taken.last() == meshes@[k as int]);
            assert(out@ =~= prologue + spec_meshes_commands(
                taken,
                image_index,
                matrix,
                opacity_bits,
            ));
        }
        k = k + 1;
    }
    proof {
        assert(meshes@.take(n as int) =~= meshes@);
    }
    out.push(RenderCommand::EndRenderPass);
    out.push(RenderCommand::EndCommandBuffer);
    proof {
        assert(out@ =~= spec_record_commands(meshes@, image_index, extent, matrix, opacity_bits));
    }
    out
}

/// The per-frame uniform block: the camera's model-view matrix followed by
/// its projection matrix, 128 bytes of little-endian words, rewritten into
/// the image's host-visible buffer before each submission.
pub fn uniform_buffer_bytes(view: &Mat4Bits, proj: &Mat4Bits) -> (r: Vec<u8>)
    ensures
        r@.len() == 128,
        r@ == spec_words_bytes(view.entries@) + spec_words_bytes(proj.entries@),
{
    let mut out: Vec<u8> = Vec::new();
    let mut i: usize = 0;
    proof {
        assert(view.entries@.take(0) =~= Seq::<u32>::empty());
        assert(out@ =~= spec_words_bytes(view.entries@.take(0)));
    }
    while i < 16
        invariant
            view.entries@.len() == 16,
            i <= 16,
            out@ == spec_words_bytes(view.entries@.take(i as int)),
        decreases 16 - i,
    {
        push_u32(&mut out, view.entries[i]);
        proof {
            let taken = view.entries@.take(i + 1);
            assert(taken.drop_last() =~= view.entries@.take(i as int));
            assert(taken.last() == view.entries@[i as int]);
            assert(out@ =~= spec_words_bytes(taken));
        }
        i = i + 1;
    }
    proof {
        assert(view.entries@.take(16) =~= view.entries@);
    }
    let ghost first_half = out@;
    let mut j: usize = 0;
    proof {
        assert(proj.entries@.take(0) =~= Seq::<u32>::empty());
        assert(out@ =~= first_half + spec_words_bytes(proj.entries@.take(0)));
    }
    while j < 16
        invariant
            proj.entries@.len() == 16,
            j <= 16,
            first_half == spec_words_bytes(view.entries@),
            out@ == first_half + spec_words_bytes(proj.entries@.take(j as int)),
        decreases 16 - j,
    {
        push_u32(&mut out, proj.entries[j]);
        proof {
            let taken = proj.entries@.take(j + 1);
            assert(taken.drop_last() =~= proj.entries@.take(j as int));
            assert(taken.last() == proj.entries@[j as int]);
            assert(out@ =~= first_half + spec_words_bytes(taken));
        }
        j = j + 1;
    }
    proof {
        assert(proj.entries@.take(16) =~= proj.entries@);
        lemma_words_bytes_len(view.entries@);
        lemma_words_bytes_len(proj.entries@);
    }
    out
}

/// The push-constant wire layout: bytes 0 through 63 hold the sixteen
/// matrix entries as little-endian words for the vertex stage, bytes 64
/// through 67 the opacity for the fragment stage.
pub fn push_constant_bytes(matrix: &Mat4Bits, opacity_bits: u32) -> (r: Vec<u8>)
    ensures
        r@.len() == 68,
        r@ == spec_words_bytes(matrix.entries@) + spec_u32_to_le_bytes(opacity_bits),
        forall|w: int|
            0 <= w < 16 ==> r@.subrange(4 * w, 4 * w + 4) == spec_u32_to_le_bytes(
                matrix.entries@[w],
            ),
        r@.subrange(64, 68) == spec_u32_to_le_bytes(opacity_bits),
{
    let mut out: Vec<u8> = Vec::new();
    let mut i: usize = 0;
    proof {
        assert(matrix.entries@.take(0) =~= Seq::<u32>::empty());
        assert(out@ =~= spec_words_bytes(matrix.entries@.take(0)));
    }
    while i < 16
        invariant
            matrix.entries@.len() == 16,
            i <= 16,
            out@ == spec_words_bytes(matrix.entries@.take(i as int)),
        decreases 16 - i,
    {
        push_u32(&mut out, matrix.entries[i]);
        proof {
            let taken = matrix.entries@.take(i + 1);
            assert(taken.drop_last() =~= matrix.entries@.take(i as int));
            assert(taken.last() == matrix.entries@[i as int]);
            assert(out@ =~= spec_words_bytes(taken));
        }
        i = i + 1;
    }
    proof {
        assert(matrix.entries@.take(16) =~= matrix.entries@);
        lemma_words_bytes_len(matrix.entries@);
    }
    push_u32(&mut out, opacity_bits);
    proof {
        vstd::bytes::lemma_auto_spec_u32_to_from_le_bytes();
        assert forall|w: int| 0 <= w < 16 implies out@.subrange(4 * w, 4 * w + 4)
            == spec_u32_to_le_bytes(matrix.entries@[w]) by {
            lemma_words_bytes_index(matrix.entries@, w);
            assert(out@.subrange(4 * w, 4 * w + 4) =~= spec_words_bytes(
                matrix.entries@,
            ).subrange(4 * w, 4 * w + 4));
        }
        assert(out@.subrange(64, 68) =~= spec_u32_to_le_bytes(opacity_bits));
    }
    out
}

} // verus!
