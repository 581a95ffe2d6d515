use purpl_render::rendersystem::mesh::{append_words, merge_meshes, Mesh};
use purpl_render::rendersystem::registry::Registry;
use purpl_render::rendersystem::vulkan::api;
use purpl_render::rendersystem::vulkan::command::{
    AllocationInfo, BufferInfo, Command, MemoryUsage, ObjectKind,
};
use purpl_render::rendersystem::vulkan::debug::{debug_log, Level};
use purpl_render::rendersystem::vulkan::gpu::{
    get_gpus, DeviceProbe, FormatProperties, GpuInfo, QueueFamily, SurfaceCapabilities,
    SurfaceFormat,
};
use purpl_render::rendersystem::vulkan::memory::Buffer;
use purpl_render::rendersystem::vulkan::resource::{ModelData, ShaderData, ShaderErrorType};
use purpl_render::rendersystem::vulkan::State as Backend;
use purpl_render::rendersystem::{Material, Model, Renderable, Shader, ShaderError, State};
use purpl_render::video;
use std::io;
use std::sync::Arc;

fn single_gpu() -> Vec<GpuInfo> {
    get_gpus(vec![DeviceProbe {
        device: 7,
        queue_families: vec![QueueFamily { queue_flags: 0x3, queue_count: 1 }],
        extension_count: Some(1),
        surface_capabilities: Some(SurfaceCapabilities { min_image_count: 2, max_image_count: 8 }),
        surface_formats: Some(vec![SurfaceFormat { format: 44, color_space: 0 }]),
        present_modes: Some(vec![api::PRESENT_MODE_FIFO]),
        memory_heap_size: 1_000_000_000,
        max_viewport_dimensions: [4096, 4096],
        device_type: api::DEVICE_TYPE_INTEGRATED_GPU,
        format_properties: vec![FormatProperties {
            format: api::FORMAT_D32_SFLOAT_S8_UINT,
            linear_tiling_features: 0,
            optimal_tiling_features: api::FORMAT_FEATURE_DEPTH_STENCIL_ATTACHMENT,
        }],
    }])
}

fn render_system() -> State {
    let mut state = State::new(0, 1, 0, false);
    state.init(&video::State::init(1080), single_gpu());
    state.take_commands();
    state
}

fn binary(words: usize) -> io::Result<Vec<u8>> {
    Ok(vec![0u8; 4 * words])
}

fn missing() -> io::Result<Vec<u8>> {
    Err(io::Error::new(io::ErrorKind::NotFound, "no such file"))
}

fn triangle() -> Mesh {
    Mesh {
        positions: vec![1, 2, 3, 4, 5, 6, 7, 8, 9],
        texcoords: vec![11, 12, 13, 14, 15, 16],
        normals: vec![21, 22, 23, 24, 25, 26, 27, 28, 29],
        indices: vec![0, 1, 2],
    }
}

#[test]
fn shader_paths_are_directory_name_and_ending() {
    assert_eq!(Shader::vertex_path("assets/shaders/", "basic"), "assets/shaders/basic.vert.spv");
    assert_eq!(Shader::fragment_path("assets/shaders/", "basic"), "assets/shaders/basic.frag.spv");
    assert_eq!(Shader::vertex_path("", ""), ".vert.spv");
    assert_eq!(ShaderData::vertex_extension(), ".vert.spv");
    assert_eq!(ShaderData::fragment_extension(), ".frag.spv");
}

#[test]
fn shader_is_made_and_registered() {
    let mut state = render_system();
    let shader = Shader::new(&mut state, "basic", binary(5), binary(7)).unwrap();
    assert_eq!(shader.name(), "basic");
    assert_eq!(shader.handle(), ShaderData { vertex: 36, fragment: 37 });
    assert_eq!(
        state.take_commands(),
        vec![
            Command::CreateShaderModule { module: 36, stage: 0x1, code_size: 20 },
            Command::CreateShaderModule { module: 37, stage: 0x10, code_size: 28 },
        ]
    );
    let registered = state.shader("basic").unwrap();
    assert!(Arc::ptr_eq(&registered, &shader));
    assert!(state.shader("other").is_none());
    assert_eq!(state.backend().live_objects(), 38);
}

#[test]
fn shader_with_an_unreadable_binary_gives_the_read_error() {
    let mut state = render_system();
    match Shader::new(&mut state, "basic", missing(), binary(1)) {
        Err(ShaderError::Io(error)) => assert_eq!(error.kind(), io::ErrorKind::NotFound),
        _ => panic!("the vertex binary could not be read"),
    }
    let denied = Err(io::Error::new(io::ErrorKind::PermissionDenied, "no"));
    match Shader::new(&mut state, "basic", binary(1), denied) {
        Err(ShaderError::Io(error)) => assert_eq!(error.kind(), io::ErrorKind::PermissionDenied),
        _ => panic!("the fragment binary could not be read"),
    }
    let denied = Err(io::Error::new(io::ErrorKind::PermissionDenied, "no"));
    match Shader::new(&mut state, "basic", missing(), denied) {
        Err(ShaderError::Io(error)) => assert_eq!(error.kind(), io::ErrorKind::NotFound),
        _ => panic!("the error of the vertex binary comes first"),
    }
    assert!(state.shader("basic").is_none());
    assert!(state.take_commands().is_empty());
    assert_eq!(state.backend().live_objects(), 36);
}

#[test]
fn shader_with_a_bad_binary_gives_the_backend_error() {
    let mut state = render_system();
    let outcomes = vec![
        (Ok(vec![0u8; 5]), binary(1), ShaderErrorType::InvalidVertexBinary),
        (Ok(Vec::new()), binary(1), ShaderErrorType::InvalidVertexBinary),
        (binary(1), Ok(vec![0u8; 3]), ShaderErrorType::InvalidFragmentBinary),
        (binary(1), Ok(Vec::new()), ShaderErrorType::InvalidFragmentBinary),
        (Ok(vec![0u8; 6]), Ok(vec![0u8; 6]), ShaderErrorType::InvalidVertexBinary),
    ];
    for (vertex, fragment, expected) in outcomes {
        match Shader::new(&mut state, "bad", vertex, fragment) {
            Err(ShaderError::Backend(reason)) => assert_eq!(reason, expected),
            _ => panic!("the backend refuses the binary"),
        }
    }
    assert!(state.shader("bad").is_none());
    assert!(state.take_commands().is_empty());
}

#[test]
fn shader_needs_an_initialized_backend() {
    let mut state = State::new(0, 1, 0, false);
    state.take_commands();
    match Shader::new(&mut state, "early", binary(1), binary(1)) {
        Err(ShaderError::Backend(reason)) => assert_eq!(reason, ShaderErrorType::NotInitialized),
        _ => panic!("the backend is not initialized"),
    }
    assert!(state.shader("early").is_none());
    assert!(state.take_commands().is_empty());
}

#[test]
fn shader_destruction_destroys_each_module_once() {
    let mut state = render_system();
    let shader = Shader::new(&mut state, "basic", binary(1), binary(1)).unwrap();
    state.take_commands();
    shader.destroy(&mut state);
    assert_eq!(
        state.take_commands(),
        vec![
            Command::Destroy { kind: ObjectKind::ShaderModule, handle: 36 },
            Command::Destroy { kind: ObjectKind::ShaderModule, handle: 37 },
        ]
    );
    shader.destroy(&mut state);
    assert!(state.take_commands().is_empty());
    assert_eq!(state.backend().live_objects(), 36);
    assert!(state.shader("basic").is_some());
}

#[test]
fn material_with_a_missing_shader_is_not_made() {
    let mut state = render_system();
    Shader::new(&mut state, "basic", binary(1), binary(1)).unwrap();
    Material::new(&mut state, "stone", "basic").unwrap();
    state.take_commands();
    assert!(Material::new(&mut state, "ghostly", "ghost").is_err());
    assert!(state.material("ghostly").is_none());
    assert!(state.material("stone").is_some());
    assert!(state.take_commands().is_empty());
    assert!(Material::new(&mut state, "stone", "ghost").is_err());
    assert_eq!(state.material("stone").unwrap().shader().name(), "basic");
}

#[test]
fn material_shares_the_registered_shader() {
    let mut state = render_system();
    let shader = Shader::new(&mut state, "S", binary(1), binary(1)).unwrap();
    let material = Material::new(&mut state, "M", "S").unwrap();
    assert_eq!(material.name(), "M");
    assert!(Arc::ptr_eq(material.shader(), &shader));
    assert!(Arc::ptr_eq(&state.material("M").unwrap(), &material));
}

#[test]
fn material_keeps_its_shader_when_the_name_is_taken_again() {
    let mut state = render_system();
    let first = Shader::new(&mut state, "S", binary(1), binary(1)).unwrap();
    let material = Material::new(&mut state, "M", "S").unwrap();
    let second = Shader::new(&mut state, "S", binary(2), binary(2)).unwrap();
    Shader::new(&mut state, "T", binary(1), binary(1)).unwrap();
    assert!(Arc::ptr_eq(&state.shader("S").unwrap(), &second));
    assert!(Arc::ptr_eq(material.shader(), &first));
    assert!(Arc::ptr_eq(state.material("M").unwrap().shader(), &first));
    assert_eq!(material.shader().handle(), ShaderData { vertex: 36, fragment: 37 });
    let later = Material::new(&mut state, "N", "S").unwrap();
    assert!(Arc::ptr_eq(later.shader(), &second));
}

#[test]
fn words_are_laid_out_lowest_byte_first() {
    let mut data = vec![0xaa];
    append_words(&mut data, &vec![0x0403_0201, 1.5f32.to_bits()]);
    assert_eq!(data, vec![0xaa, 1, 2, 3, 4, 0x00, 0x00, 0xc0, 0x3f]);
    let mut native = Vec::new();
    native.extend_from_slice(&0x0403_0201u32.to_le_bytes());
    native.extend_from_slice(&1.5f32.to_le_bytes());
    assert_eq!(&data[1..], &native[..]);
}

#[test]
fn meshes_are_merged_into_vertices_then_indices() {
    let second = Mesh {
        positions: vec![101, 102, 103, 104],
        texcoords: vec![111, 112],
        normals: vec![121, 122, 123],
        indices: vec![0, 0, 0, 0],
    };
    let (data, vertices_size) = merge_meshes(&vec![triangle(), second]);
    let mut words: Vec<u32> = vec![
        1, 2, 3, 11, 12, 21, 22, 23, 4, 5, 6, 13, 14, 24, 25, 26, 7, 8, 9, 15, 16, 27, 28, 29,
    ];
    words.extend(vec![101, 102, 103, 111, 112, 121, 122, 123]);
    assert_eq!(vertices_size, 4 * 32);
    words.extend(vec![0, 1, 2, 0, 0, 0, 0]);
    let expected: Vec<u8> = words.iter().flat_map(|word| word.to_le_bytes()).collect();
    assert_eq!(data, expected);
    assert_eq!(data.len(), 4 * 32 + 7 * 4);
}

#[test]
fn no_meshes_give_no_data() {
    assert_eq!(merge_meshes(&Vec::new()), (Vec::new(), 0));
}

#[test]
fn mesh_without_normals_or_texture_coordinates_is_incomplete() {
    assert!(triangle().is_complete());
    let mut mesh = triangle();
    mesh.normals = Vec::new();
    assert!(!mesh.is_complete());
    let mut mesh = triangle();
    mesh.texcoords = Vec::new();
    assert!(!mesh.is_complete());
    let mut mesh = triangle();
    mesh.texcoords.pop();
    assert!(!mesh.is_complete());
    let mut mesh = triangle();
    mesh.normals.pop();
    assert!(!mesh.is_complete());
    let mut mesh = triangle();
    mesh.positions.push(0);
    mesh.positions.push(0);
    assert!(mesh.is_complete());
    let empty = Mesh {
        positions: Vec::new(),
        texcoords: Vec::new(),
        normals: Vec::new(),
        indices: Vec::new(),
    };
    assert!(!empty.is_complete());
}

#[test]
fn model_is_made_with_its_buffers() {
    let mut state = render_system();
    Shader::new(&mut state, "basic", binary(1), binary(1)).unwrap();
    let material = Material::new(&mut state, "stone", "basic").unwrap();
    state.take_commands();
    let model = Model::new(&mut state, "rock", vec![triangle()], "stone").unwrap();
    assert_eq!(model.name(), "rock");
    assert_eq!(model.size(), 96 + 12);
    assert_eq!(model.data().len(), 108);
    assert_eq!(&model.data()[0..4], &[1, 0, 0, 0]);
    assert_eq!(&model.data()[12..16], &[11, 0, 0, 0]);
    assert_eq!(&model.data()[96..], &[0, 0, 0, 0, 1, 0, 0, 0, 2, 0, 0, 0]);
    assert!(Arc::ptr_eq(model.material(), &material));
    assert_eq!(
        model.handle(),
        ModelData {
            vertices: Buffer { handle: 38, allocation: 39, size: 96 },
            indices: Buffer { handle: 40, allocation: 41, size: 12 },
        }
    );
    let device_local = AllocationInfo { usage: MemoryUsage::Unknown, required_flags: 0x1 };
    assert_eq!(
        state.take_commands(),
        vec![
            Command::CreateBuffer {
                buffer: 38,
                allocation: 39,
                buffer_info: BufferInfo { size: 96, usage: 0x82, sharing_mode: 0 },
                memory: device_local,
            },
            Command::CreateBuffer {
                buffer: 40,
                allocation: 41,
                buffer_info: BufferInfo { size: 12, usage: 0x42, sharing_mode: 0 },
                memory: device_local,
            },
        ]
    );
    assert!(Arc::ptr_eq(&state.model("rock").unwrap(), &model));
}

#[test]
fn model_with_a_missing_material_is_not_made() {
    let mut state = render_system();
    assert!(Model::new(&mut state, "rock", vec![triangle()], "stone").is_err());
    assert!(state.model("rock").is_none());
    assert!(state.take_commands().is_empty());
    assert_eq!(state.backend().live_objects(), 36);
}

#[test]
fn model_is_drawn_within_a_frame_only() {
    let video = video::State::init(1080);
    let mut state = render_system();
    Shader::new(&mut state, "basic", binary(1), binary(1)).unwrap();
    Material::new(&mut state, "stone", "basic").unwrap();
    let model = Model::new(&mut state, "rock", vec![triangle()], "stone").unwrap();
    state.take_commands();

    model.render(&mut state);
    assert!(state.take_commands().is_empty());

    state.begin_cmds(&video);
    state.take_commands();
    model.render(&mut state);
    assert_eq!(
        state.take_commands(),
        vec![Command::DrawIndexed {
            command_buffer: 5,
            descriptor_set: 33,
            vertex_buffer: 38,
            index_buffer: 40,
            index_count: 3,
        }]
    );
    state.present();
    state.take_commands();
    model.render(&mut state);
    assert!(state.take_commands().is_empty());

    state.begin_cmds(&video);
    state.take_commands();
    model.render(&mut state);
    assert_eq!(
        state.take_commands(),
        vec![Command::DrawIndexed {
            command_buffer: 6,
            descriptor_set: 34,
            vertex_buffer: 38,
            index_buffer: 40,
            index_count: 3,
        }]
    );
}

#[test]
fn destroyed_model_is_not_drawn_and_shutdown_leaves_nothing() {
    let video = video::State::init(1080);
    let mut state = render_system();
    let shader = Shader::new(&mut state, "basic", binary(1), binary(1)).unwrap();
    Material::new(&mut state, "stone", "basic").unwrap();
    let model = Model::new(&mut state, "rock", vec![triangle()], "stone").unwrap();
    state.take_commands();
    model.destroy(&mut state);
    assert_eq!(
        state.take_commands(),
        vec![
            Command::DestroyBuffer { buffer: 38, allocation: 39 },
            Command::DestroyBuffer { buffer: 40, allocation: 41 },
        ]
    );
    model.destroy(&mut state);
    assert!(state.take_commands().is_empty());
    state.begin_cmds(&video);
    state.take_commands();
    model.render(&mut state);
    assert!(state.take_commands().is_empty());
    shader.destroy(&mut state);
    let driver = state.shutdown();
    assert_eq!(driver.live_objects(), 0);
}

#[test]
fn buffers_of_the_backend_are_not_released_as_a_model() {
    let mut backend = Backend::new(0, 1, 0, false);
    backend.init(single_gpu(), &video::State::init(1080));
    backend.take_commands();
    let fake = ModelData {
        vertices: Buffer { handle: 27, allocation: 28, size: 384 },
        indices: Buffer { handle: 29, allocation: 23, size: 384 },
    };
    fake.destroy(&mut backend);
    assert!(backend.take_commands().is_empty());
    assert_eq!(backend.live_objects(), 36);
}

#[test]
fn shutdown_leaves_what_nobody_destroyed() {
    let mut state = render_system();
    Shader::new(&mut state, "basic", binary(1), binary(1)).unwrap();
    let driver = state.shutdown();
    assert_eq!(driver.live_objects(), 2);
    assert!(driver.is_alive_as(36, ObjectKind::ShaderModule));
    assert!(driver.is_alive_as(37, ObjectKind::ShaderModule));
}

#[test]
fn render_system_loads_only_when_initialized() {
    let mut state = State::new(0, 1, 0, false);
    state.load_resources();
    assert!(!state.backend().is_loaded());
    state.init(&video::State::init(1080), single_gpu());
    state.load_resources();
    assert!(state.backend().is_loaded());
    state.load_resources();
    assert!(state.backend().is_loaded());
    state.unload_resources();
    assert!(!state.backend().is_loaded());
    state.unload_resources();
    assert!(!state.backend().is_loaded());
}

#[test]
fn registry_replaces_what_was_registered_under_a_name() {
    let mut registry: Registry<u32> = Registry::new();
    assert_eq!(registry.len(), 0);
    assert!(registry.get("a").is_none());
    registry.insert("a", Arc::new(1));
    registry.insert("b", Arc::new(2));
    let first = registry.get("a").unwrap();
    registry.insert("a", Arc::new(3));
    assert_eq!(registry.len(), 2);
    assert_eq!(*registry.get("a").unwrap(), 3);
    assert_eq!(*registry.get("b").unwrap(), 2);
    assert_eq!(*first, 1);
    assert!(registry.contains("b"));
    assert!(!registry.contains("c"));
    assert!(!registry.contains(""));
}

#[test]
fn validation_messages_are_logged_one_level_down() {
    assert_eq!(debug_log(0x1, 0).0, Level::Trace);
    assert_eq!(debug_log(0x10, 0).0, Level::Debug);
    assert_eq!(debug_log(0x100, 0).0, Level::Info);
    assert_eq!(debug_log(0x1000, 0).0, Level::Warn);
    assert_eq!(debug_log(0x1100, 0).0, Level::Debug);
    assert_eq!(debug_log(0, 0).0, Level::Debug);
}

#[test]
fn validation_messages_name_their_types() {
    assert_eq!(debug_log(1, 0).1, "");
    assert_eq!(debug_log(1, 0x1).1, "GENERAL ");
    assert_eq!(debug_log(1, 0x2).1, "VALIDATION ");
    assert_eq!(debug_log(1, 0x4).1, "PERFORMANCE ");
    assert_eq!(debug_log(1, 0x7).1, "GENERAL PERFORMANCE VALIDATION ");
    assert_eq!(debug_log(1, 0x6).1, "PERFORMANCE VALIDATION ");
}

#[test]
fn model_buffers_need_an_initialized_backend() {
    let mut backend = Backend::new(0, 1, 0, false);
    backend.take_commands();
    assert_eq!(ModelData::new(&mut backend, 96, 12), None);
    assert!(backend.take_commands().is_empty());
    backend.init(single_gpu(), &video::State::init(1080));
    backend.take_commands();
    assert_eq!(
        ModelData::new(&mut backend, 96, 12),
        Some(ModelData {
            vertices: Buffer { handle: 36, allocation: 37, size: 96 },
            indices: Buffer { handle: 38, allocation: 39, size: 12 },
        })
    );
    assert_eq!(backend.take_commands().len(), 2);
    let mut state = State::new(0, 1, 0, false);
    assert!(Model::new(&mut state, "rock", vec![triangle()], "stone").is_err());
}
