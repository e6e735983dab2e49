use std::hash::{Hash, Hasher};
use sturdy_engine::batch::{grow_capacity, next_power_of_two, plan_batches, InstanceBatch};
use sturdy_engine::material_expr::{
    duplicate_tree, gbuffer_content_hash, gbuffer_source, gbuffer_texture_declarations, mentions_time, metallic_roughness_channels, MaterialExprTree, UvSourceKind,
};
use sturdy_engine::scene::{
    check_draw_output, identity_transform_bits, sync_kind, CameraId, RenderObjectState, CameraOutput, MeshId, ObjectId, ObjectKind, RenderTarget, SceneObject,
    SceneObjectTable, REMOVED_MESH_ID,
};
use sturdy_engine::transform_bits::{pack_transform, pack_words, unpack_transform, unpack_words};
use sturdy_engine::types::{EngineError, Format};

#[test]
fn render_target_samples_are_clamped() {
    let t = RenderTarget::new("crt", 640, 480, Format::Rgba16Float, 8);
    assert_eq!(t.name(), "crt");
    assert_eq!((t.width(), t.height()), (640, 480));
    assert_eq!(t.samples(), 1);
    assert_eq!(RenderTarget::with_samples("m", 1, 1, Format::Rgba8Unorm, 4, 8).samples(), 4);
    assert_eq!(RenderTarget::with_samples("m", 1, 1, Format::Rgba8Unorm, 8, 4).samples(), 4);
    assert_eq!(RenderTarget::with_samples("m", 1, 1, Format::Rgba8Unorm, 0, 4).samples(), 1);
    assert_eq!(RenderTarget::with_samples("m", 1, 1, Format::Rgba8Unorm, 32, 64).samples(), 16);
    assert_eq!(RenderTarget::with_samples("m", 1, 1, Format::Rgba8Unorm, 4, 0).samples(), 1);
    let out = CameraOutput::Offscreen(t);
    assert!(matches!(out, CameraOutput::Offscreen(ref r) if r.name == "crt"));
    assert_eq!(CameraId(3), CameraId(3));
    assert_ne!(MeshId(1), MeshId(2));
    assert_ne!(ObjectKind::Static, ObjectKind::Dynamic);
}

#[test]
fn powers_of_two() {
    assert_eq!(next_power_of_two(0), 1);
    assert_eq!(next_power_of_two(1), 1);
    assert_eq!(next_power_of_two(5), 8);
    assert_eq!(next_power_of_two(64), 64);
    assert_eq!(next_power_of_two(65), 128);
    for n in 0..2000usize {
        assert_eq!(next_power_of_two(n), n.next_power_of_two());
    }
    assert_eq!(grow_capacity(1), 4);
    assert_eq!(grow_capacity(9), 16);
}

#[test]
fn batch_allocation_cycle() {
    let mut b = InstanceBatch::new(7);
    assert_eq!(b.total_count(), 0);
    assert_eq!(b.instance_allocation(), None);
    b.static_count = 3;
    b.dynamic_count = 2;
    assert_eq!(b.total_count(), 5);
    assert_eq!(b.instance_allocation(), Some(8));
    b.instance_buffer_allocated(8);
    assert!(b.static_upload_needed());
    b.static_uploaded();
    assert!(!b.static_upload_needed());
    assert_eq!(b.instance_allocation(), None);
    assert_eq!(b.dynamic_upload_slot(), Some(3));
    b.dynamic_count = 6;
    assert_eq!(b.instance_allocation(), Some(16));
    assert_eq!(b.indirect_allocation(0), None);
    assert_eq!(b.indirect_allocation(3), Some(4));
    b.indirect_buffer_allocated(4);
    assert_eq!(b.indirect_allocation(4), None);
    assert_eq!(b.bounds_allocation(17), Some(32));
    b.bounds_buffer_allocated(32);
    assert_eq!(b.bounds_allocation(20), None);
}

#[test]
fn transform_words_round_trip() {
    assert_eq!(pack_words(1, 2), (2u64 << 32) | 1);
    assert_eq!(unpack_words(0xdead_beef_0000_0001), (1, 0xdead_beef));
    let cols: [u32; 16] = core::array::from_fn(|i| (i as u32).wrapping_mul(0x9e37_79b9));
    let words = pack_transform(&cols);
    assert_eq!(unpack_transform(&words), cols);
    let identity: [f32; 16] = [1.0, 0.0, 0.0, 0.0, 0.0, 1.0, 0.0, 0.0, 0.0, 0.0, 1.0, 0.0, 0.0, 0.0, 0.0, 1.0];
    let bits: [u32; 16] = core::array::from_fn(|i| identity[i].to_bits());
    let back = unpack_transform(&pack_transform(&bits));
    let floats: [f32; 16] = core::array::from_fn(|i| f32::from_bits(back[i]));
    assert_eq!(floats, identity);
}

fn konst(text: &str) -> MaterialExprTree {
    MaterialExprTree::Constant(text.to_string())
}

fn seq(name: &str, frame_count: u32) -> MaterialExprTree {
    MaterialExprTree::ImageSequence {
        name: name.to_string(),
        frame_count,
        fps: "24.000000".to_string(),
        uv: UvSourceKind::MeshUv0,
        uv_slang: "v.uv".to_string(),
    }
}

fn tex(name: &str) -> MaterialExprTree {
    MaterialExprTree::Texture { name: name.to_string(), uv: UvSourceKind::MeshUv0, uv_slang: "v.uv".to_string() }
}

#[test]
fn time_mentions() {
    assert!(mentions_time("sin(cam.time)"));
    assert!(mentions_time("cam.time"));
    assert!(!mentions_time("cam.tim"));
    assert!(!mentions_time(""));
    assert!(!mentions_time("camera.time"));
}

#[test]
fn expression_shapes() {
    let e = MaterialExprTree::Multiply(
        Box::new(tex("albedo")),
        Box::new(MaterialExprTree::Mix {
            a: Box::new(tex("albedo")),
            b: Box::new(seq("fire", 8)),
            t: Box::new(konst("0.500000")),
        }),
    );
    let mut all = Vec::new();
    e.collect_textures(&mut all);
    assert_eq!(all, vec!["albedo", "fire"]);
    let mut arrays = Vec::new();
    e.collect_array_textures(&mut arrays);
    assert_eq!(arrays, vec!["fire"]);
    assert!(e.uses_time());
    assert!(!tex("a").uses_time());
    let scrolled = MaterialExprTree::TextureFactor {
        name: "s".to_string(),
        uv: UvSourceKind::Scrolled,
        uv_slang: "(v.uv + float2(1.000000, 0.000000) * cam.time)".to_string(),
        factor: "2.000000".to_string(),
    };
    assert!(scrolled.uses_time());
    let custom = MaterialExprTree::Texture {
        name: "c".to_string(),
        uv: UvSourceKind::Custom("v.uv + cam.time".to_string()),
        uv_slang: "(v.uv + cam.time)".to_string(),
    };
    assert!(custom.uses_time());
    assert!(MaterialExprTree::Procedural("frac(cam.time)".to_string()).uses_time());
    assert!(!MaterialExprTree::Pow(
        Box::new(MaterialExprTree::Clamp {
            value: Box::new(tex("x")),
            min: "0.000000".to_string(),
            max: "1.000000".to_string(),
        }),
        "2.200000".to_string(),
    ).uses_time());
}

#[test]
fn gbuffer_declarations_list_each_texture_once() {
    let channels = vec![
        tex("albedo"),
        MaterialExprTree::Add(Box::new(tex("albedo")), Box::new(tex("detail"))),
        seq("flip", 4),
        konst("1.000000"),
    ];
    let d = gbuffer_texture_declarations(&channels);
    assert_eq!(
        d,
        "SamplerState material_sampler;\nTexture2D<float4> albedo;\nTexture2D<float4> detail;\nTexture2DArray<float4> flip;\n"
    );
    let none = gbuffer_texture_declarations(&vec![konst("1.000000")]);
    assert_eq!(none, "SamplerState material_sampler;\n");
}

#[test]
fn slang_expressions() {
    assert_eq!(tex("albedo").to_slang_expr("float"), "(albedo.Sample(material_sampler, v.uv).r)");
    assert_eq!(tex("albedo").to_slang_expr("float3"), "(albedo.Sample(material_sampler, v.uv).rgb)");
    assert_eq!(tex("albedo").to_slang_expr("float4"), "(albedo.Sample(material_sampler, v.uv))");
    assert_eq!(konst("0.250000").to_slang_expr("float"), "0.250000");
    assert_eq!(
        seq("fire", 12).to_slang_expr("float4"),
        "fire.Sample(material_sampler, float3(v.uv, float(int(cam.time * 24.000000) % 12)))"
    );
    let mix = MaterialExprTree::Mix {
        a: Box::new(tex("a")),
        b: Box::new(konst("float3(1.000000, 1.000000, 1.000000)")),
        t: Box::new(tex("mask")),
    };
    assert_eq!(
        mix.to_slang_expr("float3"),
        "lerp(((a.Sample(material_sampler, v.uv).rgb)), (float3(1.000000, 1.000000, 1.000000)), \
         ((mask.Sample(material_sampler, v.uv).r)))"
    );
    let clamp = MaterialExprTree::Pow(
        Box::new(MaterialExprTree::Clamp {
            value: Box::new(MaterialExprTree::Procedural("v.uv.x".to_string())),
            min: "0.000000".to_string(),
            max: "1.000000".to_string(),
        }),
        "2.000000".to_string(),
    );
    assert_eq!(clamp.to_slang_expr("float"), "pow((clamp(((v.uv.x)), 0.000000, 1.000000)), 2.000000)");
    let sum = MaterialExprTree::Multiply(Box::new(konst("2.000000")), Box::new(MaterialExprTree::Add(
        Box::new(konst("1.000000")),
        Box::new(konst("3.000000")),
    )));
    assert_eq!(sum.to_slang_expr("float"), "((2.000000) * (((1.000000) + (3.000000))))");
}

#[test]
fn gbuffer_shader_assembles_channels() {
    let channels = vec![
        tex("albedo"),
        konst("0.000000"),
        konst("0.500000"),
        konst("float3(0.000000, 0.000000, 1.000000)"),
        tex("ao"),
        konst("float3(0.000000, 0.000000, 0.000000)"),
    ];
    let s = gbuffer_source("brick", &channels);
    assert!(s.starts_with("\n// ── Material: brick ──"));
    assert!(s.contains("SamplerState material_sampler;\nTexture2D<float4> albedo;\nTexture2D<float4> ao;\n"));
    assert!(s.contains("    float4 base_color = (albedo.Sample(material_sampler, v.uv));\n"));
    assert!(s.contains("    float metallic = 0.000000;\n"));
    assert!(s.contains("    float roughness = 0.500000;\n"));
    assert!(s.contains("    float3 normal_ts = float3(0.000000, 0.000000, 1.000000);  // tangent-space normal\n"));
    assert!(s.contains("    float3 emissive = float3(0.000000, 0.000000, 0.000000);\n"));
    assert!(s.ends_with("    return o;\n}\n"));
}

#[test]
fn scene_object_transform_and_upload_flag() {
    let identity: [f32; 16] = [1.0, 0.0, 0.0, 0.0, 0.0, 1.0, 0.0, 0.0, 0.0, 0.0, 1.0, 0.0, 0.0, 0.0, 0.0, 1.0];
    let moved: [f32; 16] = [1.0, 0.0, 0.0, 0.0, 0.0, 1.0, 0.0, 0.0, 0.0, 0.0, 1.0, 0.0, 3.5, -2.0, 7.25, 1.0];
    let bits = |m: &[f32; 16]| -> [u32; 16] { core::array::from_fn(|i| m[i].to_bits()) };
    let mut fixed = SceneObject::new(MeshId(2), bits(&identity), ObjectKind::Static);
    assert!(fixed.static_dirty);
    assert_eq!(fixed.get_transform(), bits(&identity));
    fixed.static_dirty = false;
    fixed.set_transform_atomic(bits(&moved));
    assert!(fixed.static_dirty);
    assert_eq!(fixed.get_transform(), bits(&moved));
    let mut moving = SceneObject::new(MeshId(3), bits(&identity), ObjectKind::Dynamic);
    moving.static_dirty = false;
    moving.set_transform_atomic(bits(&moved));
    assert!(!moving.static_dirty);
    assert_eq!(moving.mesh_id, MeshId(3));
    let back: [f32; 16] = core::array::from_fn(|i| f32::from_bits(moving.get_transform()[i]));
    assert_eq!(back, moved);
}

#[test]
fn object_table_ids_and_transforms() {
    let mut table = SceneObjectTable::new();
    let a = table.add_object(MeshId(0), ObjectKind::Static);
    let moved: [f32; 16] = [2.0, 0.0, 0.0, 0.0, 0.0, 2.0, 0.0, 0.0, 0.0, 0.0, 2.0, 0.0, 1.0, 2.0, 3.0, 1.0];
    let bits: [u32; 16] = core::array::from_fn(|i| moved[i].to_bits());
    let b = table.add_object_at(MeshId(1), bits, ObjectKind::Dynamic);
    assert_eq!((a, b), (ObjectId(0), ObjectId(1)));
    assert_eq!(table.object_count(), 2);
    let identity: [f32; 16] = core::array::from_fn(|i| f32::from_bits(table.get_transform(a).unwrap()[i]));
    assert_eq!(identity, [1.0, 0.0, 0.0, 0.0, 0.0, 1.0, 0.0, 0.0, 0.0, 0.0, 1.0, 0.0, 0.0, 0.0, 0.0, 1.0]);
    assert_eq!(identity_transform_bits()[5], 1.0f32.to_bits());
    assert_eq!(table.get_transform(b), Some(bits));
    table.objects[0].static_dirty = false;
    table.set_transform(a, bits);
    assert!(table.objects[0].static_dirty);
    assert_eq!(table.get_transform(a), Some(bits));
    table.set_transform(ObjectId(9), bits);
    assert_eq!(table.get_transform(ObjectId(9)), None);
    table.remove_object_deferred(b);
    assert_eq!(table.objects[1].mesh_id, MeshId(REMOVED_MESH_ID));
    assert_eq!(table.objects[0].mesh_id, MeshId(0));
    table.next_object_id = u32::MAX;
    assert_eq!(table.add_object(MeshId(2), ObjectKind::Dynamic), ObjectId(u32::MAX));
    assert_eq!(table.next_object_id, 0);
}

fn swizzle(input: MaterialExprTree, components: &str) -> MaterialExprTree {
    MaterialExprTree::Swizzle { input: Box::new(input), components: components.to_string() }
}

#[test]
fn material_expr_swizzles_and_constant_alias_generate_expected_slang() {
    let scalar = swizzle(tex("packed"), "g");
    assert_eq!(scalar.to_slang_expr("float"), "(((packed.Sample(material_sampler, v.uv))).g)");

    let rgb = swizzle(seq("fire_frames", 8), "rgb");
    let rgb_slang = rgb.to_slang_expr("float3");
    assert!(rgb_slang.contains("fire_frames.Sample"));
    assert!(rgb_slang.ends_with(".rgb)"));

    let constant = konst("float4(0.250000, 0.500000, 0.750000, 1.000000)");
    assert_eq!(constant.to_slang_expr("float4"), "float4(0.250000, 0.500000, 0.750000, 1.000000)");
}

#[test]
fn metallic_roughness_texture_uses_single_packed_gltf_texture_channels() {
    let (metallic, roughness) = metallic_roughness_channels("orm");
    let channels = vec![
        konst("float4(1.000000, 1.000000, 1.000000, 1.000000)"),
        metallic,
        roughness,
        konst("float3(0.000000, 0.000000, 1.000000)"),
        konst("1.000000"),
        konst("float3(0.000000, 0.000000, 0.000000)"),
    ];
    let source = gbuffer_source("packed_mr", &channels);

    assert_eq!(source.matches("Texture2D<float4> orm;").count(), 1);
    assert!(source.contains("float metallic = (((orm.Sample(material_sampler, v.uv))).b);"));
    assert!(source.contains("float roughness = (((orm.Sample(material_sampler, v.uv))).g);"));
    assert!(!source.contains("orm__met"));
    assert!(!source.contains("orm__rou"));
}

#[test]
fn swizzles_pass_texture_and_time_through() {
    let e = swizzle(seq("flip", 2), "r");
    let mut all = Vec::new();
    e.collect_textures(&mut all);
    assert_eq!(all, vec!["flip"]);
    let mut arrays = Vec::new();
    e.collect_array_textures(&mut arrays);
    assert_eq!(arrays, vec!["flip"]);
    assert!(e.uses_time());
    assert!(!swizzle(tex("a"), "a").uses_time());
}

#[test]
fn batches_are_planned_per_drawn_mesh_in_first_use_order() {
    // (mesh id, static, visible)
    let objects = vec![(2, true, true), (0, false, true), (2, false, true), (5, true, true), (0, true, false), (2, true, true)];
    let plans = plan_batches(&objects, 3);
    assert_eq!(plans.len(), 2);
    assert_eq!(plans[0].mesh_id, 2);
    assert_eq!(plans[0].static_objects, vec![0, 5]);
    assert_eq!(plans[0].dynamic_objects, vec![2]);
    assert_eq!(plans[1].mesh_id, 0);
    assert!(plans[1].static_objects.is_empty());
    assert_eq!(plans[1].dynamic_objects, vec![1]);
    assert!(plan_batches(&vec![], 4).is_empty());
}

#[test]
fn syncing_render_world_objects() {
    let t = identity_transform_bits();
    let mut table = SceneObjectTable::new();
    // Invalid mesh: not mirrored, no object created.
    assert_eq!(table.sync_object(None, Some(0), true, ObjectKind::Dynamic, 0, t, None, 0), None);
    assert_eq!(table.object_count(), 0);
    // A drawn object gets a new scene object, then keeps it.
    let id = table.sync_object(None, Some(0), true, ObjectKind::Dynamic, 1, t, None, 0);
    assert_eq!(id, Some(ObjectId(0)));
    table.objects[0].static_dirty = false;
    assert_eq!(table.sync_object(id, Some(0), true, ObjectKind::Dynamic, 1, t, Some(9), 5), id);
    assert!(!table.objects[0].static_dirty);
    assert_eq!(table.objects[0].material, Some(9));
    assert_eq!(table.objects[0].visibility_flags, 5);
    assert_eq!(table.sync_object(id, Some(0), true, sync_kind(true, false), 1, t, None, 0), id);
    assert!(table.objects[0].static_dirty);
    assert_eq!(table.objects[0].kind, ObjectKind::Static);
    // Hidden: the mapped object is removed and the mapping dropped.
    assert_eq!(table.sync_object(id, Some(0), false, ObjectKind::Dynamic, 1, t, None, 0), None);
    assert_eq!(table.objects[0].mesh_id, MeshId(REMOVED_MESH_ID));
    assert_eq!(sync_kind(true, true), ObjectKind::Dynamic);
}

fn render_state(object: u64, mesh: Option<u32>, visible: bool) -> RenderObjectState {
    RenderObjectState {
        object,
        mesh,
        visible,
        kind: ObjectKind::Dynamic,
        transform: identity_transform_bits(),
        material: None,
        flags: 0,
    }
}

#[test]
fn sync_render_world_ignores_invalid_mesh_without_creating_scene_object() {
    let mut table = SceneObjectTable::new();
    let mut mapped: Vec<(u64, ObjectId)> = Vec::new();
    let snapshot = vec![render_state(0, Some(0), true)];
    assert_eq!(table.sync_all(&mut mapped, &snapshot, 0), 0);
    assert!(table.objects.is_empty());
    assert!(mapped.is_empty());
}

#[test]
fn sync_render_world_removes_hidden_mapped_scene_object() {
    let mut table = SceneObjectTable::new();
    table.add_object(MeshId(0), ObjectKind::Dynamic);
    let mut mapped: Vec<(u64, ObjectId)> = vec![(0, ObjectId(0))];
    let snapshot = vec![render_state(0, Some(0), false)];
    assert_eq!(table.sync_all(&mut mapped, &snapshot, 1), 0);
    assert!(mapped.is_empty());
    assert_eq!(table.objects[0].mesh_id, MeshId(REMOVED_MESH_ID));
}

#[test]
fn sync_all_keeps_adds_and_removes_scene_objects() {
    let mut table = SceneObjectTable::new();
    let mut mapped: Vec<(u64, ObjectId)> = Vec::new();
    // Two drawn objects, one without a mesh.
    let snapshot = vec![render_state(7, Some(1), true), render_state(8, None, true), render_state(9, Some(0), true)];
    assert_eq!(table.sync_all(&mut mapped, &snapshot, 2), 2);
    assert_eq!(mapped, vec![(7, ObjectId(0)), (9, ObjectId(1))]);
    assert_eq!(table.object_count(), 2);
    assert_eq!(table.objects[0].mesh_id, MeshId(1));
    assert_eq!(table.objects[1].mesh_id, MeshId(0));
    assert_eq!(table.objects[1].material, None);
    // Object 7 goes away, 9 changes mesh and becomes static, 10 is new.
    table.objects[1].static_dirty = false;
    let mut moved = render_state(9, Some(1), true);
    moved.kind = sync_kind(true, false);
    moved.material = Some(3);
    moved.flags = 0b101;
    let snapshot = vec![render_state(10, Some(0), true), moved];
    assert_eq!(table.sync_all(&mut mapped, &snapshot, 2), 2);
    assert_eq!(mapped, vec![(10, ObjectId(2)), (9, ObjectId(1))]);
    assert_eq!(table.objects[0].mesh_id, MeshId(REMOVED_MESH_ID));
    assert_eq!(table.objects[1].mesh_id, MeshId(1));
    assert_eq!(table.objects[1].kind, ObjectKind::Static);
    assert!(table.objects[1].static_dirty);
    assert_eq!(table.objects[1].material, Some(3));
    assert_eq!(table.objects[1].visibility_flags, 0b101);
    assert_eq!(table.objects[2].mesh_id, MeshId(0));
    assert_eq!(table.next_object_id, 3);
    // An empty snapshot removes everything that was mapped.
    assert_eq!(table.sync_all(&mut mapped, &Vec::new(), 2), 0);
    assert!(mapped.is_empty());
    assert_eq!(table.objects[1].mesh_id, MeshId(REMOVED_MESH_ID));
    assert_eq!(table.objects[2].mesh_id, MeshId(REMOVED_MESH_ID));
}

#[test]
fn draw_output_must_be_a_colour_render_target() {
    match check_draw_output("hdr", Format::Depth32Float, true, "RENDER_TARGET") {
        Err(EngineError::InvalidInput(m)) => {
            assert_eq!(m, "Scene::draw output 'hdr' has depth format Depth32Float; use a colour-renderable format")
        }
        _ => panic!("expected InvalidInput"),
    }
    match check_draw_output("hdr", Format::Rgba16Float, false, "SAMPLED") {
        Err(EngineError::InvalidInput(m)) => {
            assert_eq!(m, "Scene::draw output 'hdr' requires ImageUsage::RENDER_TARGET but was created with SAMPLED")
        }
        _ => panic!("expected InvalidInput"),
    }
    match check_draw_output("shadow", Format::Depth24Stencil8, true, "RENDER_TARGET") {
        Err(EngineError::InvalidInput(m)) => {
            assert_eq!(m, "Scene::draw output 'shadow' has depth format Depth24Stencil8; use a colour-renderable format")
        }
        _ => panic!("expected InvalidInput"),
    }
    assert!(check_draw_output("hdr", Format::Rgba16Float, true, "RENDER_TARGET").is_ok());
}

#[test]
fn duplicated_expressions_print_the_same() {
    let e = MaterialExprTree::Mix {
        a: Box::new(swizzle(tex("albedo"), "rgb")),
        b: Box::new(seq("fire", 8)),
        t: Box::new(konst("0.500000")),
    };
    let copy = duplicate_tree(&e);
    assert_eq!(copy.to_slang_expr("float3"), e.to_slang_expr("float3"));
    let (metallic, roughness) = metallic_roughness_channels("orm");
    assert_eq!(metallic.to_slang_expr("float"), "(((orm.Sample(material_sampler, v.uv))).b)");
    assert_eq!(roughness.to_slang_expr("float"), "(((orm.Sample(material_sampler, v.uv))).g)");
}

#[test]
fn scene_object_keeps_render_metadata() {
    let mut object = SceneObject::new(MeshId(2), identity_transform_bits(), ObjectKind::Dynamic);
    assert_eq!(object.material, None);
    assert_eq!(object.visibility_flags, 0);
    object.set_render_metadata(Some(9), 0b11);
    assert_eq!(object.material, Some(9));
    assert_eq!(object.visibility_flags, 0b11);
    assert_eq!(object.mesh_id, MeshId(2));
    assert!(object.static_dirty);
}

#[test]
fn gbuffer_content_hash_hashes_the_shader_text() {
    let channels = vec![
        tex("albedo"),
        konst("0.000000"),
        konst("0.500000"),
        konst("float3(0.000000, 0.000000, 1.000000)"),
        konst("1.000000"),
        konst("float3(0.000000, 0.000000, 0.000000)"),
    ];
    let mut h = std::collections::hash_map::DefaultHasher::new();
    Hash::hash(&gbuffer_source("rock", &channels), &mut h);
    assert_eq!(gbuffer_content_hash("rock", &channels), Hasher::finish(&h));
    assert_eq!(gbuffer_content_hash("rock", &channels), gbuffer_content_hash("rock", &channels));
    assert_ne!(gbuffer_content_hash("rock", &channels), gbuffer_content_hash("lava", &channels));
}
