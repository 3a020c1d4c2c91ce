use yuumi::error::EngineError;
use yuumi::loader::{choose_model_source, choose_texture_source, ModelSource, TextureSource};
use yuumi::record::{
    push_constant_bytes, record_draw_commands, uniform_buffer_bytes, RenderCommand,
    FLOAT_ONE_BITS,
};
use yuumi::shader::bytecode_to_words;
use yuumi::store::{Assets, Mesh, Model, Texture};
use yuumi::swapchain::Extent2D;
use yuumi::teardown::{
    shutdown_plan, swapchain_creation_order, swapchain_recreate_plan, swapchain_teardown_order,
    GpuResource, RecreateStep, ShutdownStep,
};
use yuumi::transfer::{
    mip_blit_plan, mip_level_count, staged_upload_plan, UploadStep, BUFFER_USAGE_TRANSFER_DST,
    BUFFER_USAGE_TRANSFER_SRC, BUFFER_USAGE_VERTEX, MEMORY_DEVICE_LOCAL, MEMORY_HOST_COHERENT,
    MEMORY_HOST_VISIBLE,
};
use yuumi::vertex::{InstanceData, Mat4Bits, Vertex};

fn mesh(tag: u64) -> Mesh {
    Mesh {
        vertex_buffer: tag,
        vertex_buffer_memory: tag + 1,
        index_count: 36,
        index_buffer: tag + 2,
        index_buffer_memory: tag + 3,
        instance_count: 4,
        instance_buffer: tag + 4,
        instance_buffer_memory: tag + 5,
    }
}

#[test]
fn duplicate_mesh_load_is_rejected() {
    let mut assets = Assets::new();
    let first = Model { meshes: vec![mesh(100)] };
    assert_eq!(assets.load_model("cube", first.clone()), Ok(()));
    // A second load under the same name fails and leaves the first
    // model's handles untouched.
    let second = Model { meshes: vec![mesh(900)] };
    assert_eq!(assets.load_model("cube", second), Err(EngineError::DuplicateName));
    assert_eq!(assets.get_model("cube"), Some(&first));
    assert_eq!(assets.models.len(), 1);
}

#[test]
fn unload_removes_exactly_the_named_model() {
    let mut assets = Assets::new();
    assets.load_model("cube", Model { meshes: vec![mesh(1)] }).unwrap();
    assets.load_model("viking_room", Model { meshes: vec![mesh(2)] }).unwrap();
    let removed = assets.unload_model("cube").unwrap();
    assert_eq!(removed.meshes[0].vertex_buffer, 1);
    assert_eq!(assets.get_model("cube"), None);
    assert!(assets.get_model("viking_room").is_some());
    assert_eq!(assets.unload_model("cube"), Err(EngineError::NameNotFound));
}

#[test]
fn duplicate_texture_load_is_rejected() {
    let mut assets = Assets::new();
    let texture = Texture {
        image: 7,
        image_view: 8,
        image_memory: 9,
        sampler: 10,
        width: 64,
        height: 64,
        mip_levels: 7,
    };
    assert_eq!(assets.load_texture("viking_room", texture), Ok(()));
    assert_eq!(assets.load_texture("viking_room", texture), Err(EngineError::DuplicateName));
    assert_eq!(assets.get_texture("viking_room"), Some(&texture));
    assert_eq!(assets.unload_texture("missing"), Err(EngineError::NameNotFound));
    assert_eq!(assets.unload_texture("viking_room"), Ok(texture));
    assert_eq!(assets.get_texture("viking_room"), None);
}

#[test]
fn model_source_prefers_cache_then_containers() {
    assert_eq!(choose_model_source(true, true, true), Ok(ModelSource::Cache));
    assert_eq!(choose_model_source(false, true, true), Ok(ModelSource::ConvertGlb));
    assert_eq!(choose_model_source(false, false, true), Ok(ModelSource::ConvertGltf));
    assert_eq!(choose_model_source(false, false, false), Err(EngineError::UnsupportedSource));
}

#[test]
fn texture_source_prefers_cache_then_image() {
    assert_eq!(choose_texture_source(true, true), Ok(TextureSource::Cache));
    assert_eq!(choose_texture_source(false, true), Ok(TextureSource::ConvertPng));
    assert_eq!(choose_texture_source(false, false), Err(EngineError::UnsupportedSource));
}

#[test]
fn shader_bytecode_must_be_word_aligned() {
    assert_eq!(bytecode_to_words(&vec![1, 2, 3]), Err(EngineError::MisalignedShaderBytecode));
    let words = bytecode_to_words(&vec![0x03, 0x02, 0x23, 0x07, 0xff, 0, 0, 0]).unwrap();
    assert_eq!(words, vec![0x0723_0203, 0xff]);
    assert_eq!(bytecode_to_words(&vec![]).unwrap(), Vec::<u32>::new());
}

fn counting_matrix(base: u32) -> Mat4Bits {
    let mut entries = [0u32; 16];
    for (i, e) in entries.iter_mut().enumerate() {
        *e = base + i as u32;
    }
    Mat4Bits { entries }
}

#[test]
fn push_constants_use_the_fixed_68_byte_layout() {
    let matrix = counting_matrix(0x100);
    let opacity = 0x3e99_999a; // bit pattern of 0.3f32
    let bytes = push_constant_bytes(&matrix, opacity);
    assert_eq!(bytes.len(), 68);
    for w in 0..16 {
        let le = &bytes[4 * w..4 * w + 4];
        assert_eq!(le, (0x100u32 + w as u32).to_le_bytes());
    }
    assert_eq!(&bytes[64..68], opacity.to_le_bytes());
}

#[test]
fn uniform_block_holds_view_then_projection() {
    let view = counting_matrix(1);
    let proj = counting_matrix(1000);
    let bytes = uniform_buffer_bytes(&view, &proj);
    assert_eq!(bytes.len(), 128);
    assert_eq!(&bytes[0..4], 1u32.to_le_bytes());
    assert_eq!(&bytes[64..68], 1000u32.to_le_bytes());
    assert_eq!(&bytes[124..128], 1015u32.to_le_bytes());
}

#[test]
fn recording_binds_and_draws_each_mesh() {
    let meshes = vec![mesh(10), mesh(20)];
    let extent = Extent2D { width: 1600, height: 900 };
    let matrix = counting_matrix(0);
    let commands = record_draw_commands(&meshes, 1, extent, matrix, FLOAT_ONE_BITS);
    // Prologue, seven commands per mesh, epilogue.
    assert_eq!(commands.len(), 4 + 7 * 2 + 2);
    assert_eq!(commands[0], RenderCommand::ResetCommandPool);
    assert_eq!(commands[1], RenderCommand::BeginCommandBuffer);
    match commands[2] {
        RenderCommand::BeginRenderPass { extent: e, clear_color, clear_depth_bits, clear_stencil } => {
            assert_eq!(e, extent);
            // Opaque black, depth 1.0, stencil 0.
            assert_eq!((clear_color.r, clear_color.g, clear_color.b), (0, 0, 0));
            assert_eq!(clear_color.a, FLOAT_ONE_BITS);
            assert_eq!(clear_depth_bits, FLOAT_ONE_BITS);
            assert_eq!(clear_stencil, 0);
        },
        ref other => panic!("unexpected command {:?}", other),
    }
    assert_eq!(commands[3], RenderCommand::BindPipeline);
    assert_eq!(commands[4], RenderCommand::BindVertexBuffer { binding: 0, buffer: 10 });
    assert_eq!(commands[5], RenderCommand::BindVertexBuffer { binding: 1, buffer: 14 });
    assert_eq!(commands[6], RenderCommand::BindIndexBuffer { buffer: 12 });
    assert_eq!(commands[7], RenderCommand::BindDescriptorSet { image_index: 1 });
    assert_eq!(commands[10], RenderCommand::DrawIndexed { index_count: 36, instance_count: 4 });
    assert_eq!(commands[11], RenderCommand::BindVertexBuffer { binding: 0, buffer: 20 });
    assert_eq!(commands[18], RenderCommand::EndRenderPass);
    assert_eq!(commands[19], RenderCommand::EndCommandBuffer);
}

#[test]
fn teardown_is_reverse_of_creation() {
    let creation = swapchain_creation_order();
    let mut teardown = swapchain_teardown_order();
    teardown.reverse();
    assert_eq!(creation, teardown);
    assert_eq!(creation[0], GpuResource::Swapchain);
    assert_eq!(creation[creation.len() - 1], GpuResource::CommandBuffers);
}

#[test]
fn recreate_waits_idle_then_destroys_before_creating() {
    let plan = swapchain_recreate_plan();
    assert_eq!(plan[0], RecreateStep::WaitIdle);
    assert_eq!(plan[plan.len() - 1], RecreateStep::ResetImageTracking);
    let first_create = plan.iter().position(|s| matches!(s, RecreateStep::Create(_))).unwrap();
    let last_destroy = plan
        .iter()
        .rposition(|s| matches!(s, RecreateStep::Destroy(_)))
        .unwrap();
    assert!(last_destroy < first_create);
    assert_eq!(plan[1], RecreateStep::Destroy(GpuResource::CommandBuffers));
    assert_eq!(plan[first_create], RecreateStep::Create(GpuResource::Swapchain));
}

#[test]
fn shutdown_ends_with_the_instance() {
    let plan = shutdown_plan(true);
    assert_eq!(plan[0], ShutdownStep::WaitIdle);
    assert_eq!(plan[plan.len() - 2], ShutdownStep::DestroyDebugMessenger);
    assert_eq!(plan[plan.len() - 1], ShutdownStep::DestroyInstance);
    let without_validation = shutdown_plan(false);
    assert!(!without_validation.contains(&ShutdownStep::DestroyDebugMessenger));
    assert_eq!(without_validation[without_validation.len() - 1], ShutdownStep::DestroyInstance);
}

#[test]
fn staged_upload_follows_the_protocol() {
    let plan = staged_upload_plan(4096, BUFFER_USAGE_VERTEX);
    assert_eq!(plan.len(), 9);
    assert_eq!(plan[0], UploadStep::CreateBuffer {
        size: 4096,
        usage: BUFFER_USAGE_TRANSFER_SRC,
        properties: MEMORY_HOST_VISIBLE | MEMORY_HOST_COHERENT,
    });
    assert_eq!(plan[1], UploadStep::MapMemory { size: 4096 });
    assert_eq!(plan[2], UploadStep::CopyToMapped { size: 4096 });
    assert_eq!(plan[3], UploadStep::UnmapMemory);
    assert_eq!(plan[4], UploadStep::CreateBuffer {
        size: 4096,
        usage: BUFFER_USAGE_TRANSFER_DST | BUFFER_USAGE_VERTEX,
        properties: MEMORY_DEVICE_LOCAL,
    });
    assert_eq!(plan[5], UploadStep::RecordCopy { size: 4096 });
    assert_eq!(plan[6], UploadStep::SubmitAndWait);
    assert_eq!(plan[7], UploadStep::DestroyStagingBuffer);
    assert_eq!(plan[8], UploadStep::FreeStagingMemory);
}

#[test]
fn mip_chain_halves_until_one_texel() {
    assert_eq!(mip_level_count(1024, 512), 11);
    assert_eq!(mip_level_count(1, 1), 1);
    assert_eq!(mip_level_count(3, 5), 3);
    let blits = mip_blit_plan(8, 3, 4);
    assert_eq!(blits.len(), 3);
    assert_eq!((blits[0].src_width, blits[0].src_height), (8, 3));
    assert_eq!((blits[0].dst_width, blits[0].dst_height), (4, 1));
    assert_eq!((blits[2].src_width, blits[2].src_height), (2, 1));
    assert_eq!((blits[2].dst_width, blits[2].dst_height), (1, 1));
    assert_eq!(blits[2].src_level, 2);
    assert_eq!(blits[2].dst_level, 3);
}

#[test]
fn vertex_layout_matches_the_pipeline_contract() {
    let binding = Vertex::binding_description();
    assert_eq!((binding.binding, binding.stride, binding.per_instance), (0, 32, false));
    let attrs = Vertex::attribute_descriptions();
    let offsets: Vec<u32> = attrs.iter().map(|a| a.offset).collect();
    assert_eq!(offsets, vec![0, 12, 24]);
    let locations: Vec<u32> = attrs.iter().map(|a| a.location).collect();
    assert_eq!(locations, vec![0, 1, 2]);

    let instance_binding = InstanceData::binding_description();
    assert_eq!(
        (instance_binding.binding, instance_binding.stride, instance_binding.per_instance),
        (1, 64, true)
    );
    let instance_attrs = InstanceData::attribute_descriptions();
    let instance_offsets: Vec<u32> = instance_attrs.iter().map(|a| a.offset).collect();
    assert_eq!(instance_offsets, vec![0, 16, 32, 48]);
    let instance_locations: Vec<u32> = instance_attrs.iter().map(|a| a.location).collect();
    assert_eq!(instance_locations, vec![3, 4, 5, 6]);
}

#[test]
fn error_messages_describe_each_variant() {
    assert_eq!(EngineError::NoSuitableMemoryType.message(), "Failed to find suitable memory type.");
    assert_eq!(EngineError::DuplicateName.message(), "Name already in use.");
    assert_eq!(EngineError::MisalignedShaderBytecode.message(), "Shader bytecode is not properly aligned.");
    assert_eq!(EngineError::MalformedCache.message(), "Cache blob is malformed.");
}
