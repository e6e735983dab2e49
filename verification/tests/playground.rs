use sturdy_engine::playground::{
    sort_fields_by_offset, PcFieldKind, PlaygroundValue, PushConstantField, ShaderPlayground,
    RANGE_MAX_BITS,
};

fn field(name: &str, byte_offset: u32, kind: PcFieldKind) -> PushConstantField {
    PushConstantField { name: name.to_string(), byte_offset, kind }
}

fn playground() -> ShaderPlayground {
    ShaderPlayground::new(
        &vec![
            field("color", 16, PcFieldKind::Float3),
            field("time", 0, PcFieldKind::Float),
            field("count", 4, PcFieldKind::Uint),
            field("enabled", 8, PcFieldKind::Bool),
        ],
        32,
    )
}

#[test]
fn params_are_in_offset_order_with_defaults() {
    let pg = playground();
    let names: Vec<&str> = pg.params().iter().map(|p| p.field.name.as_str()).collect();
    assert_eq!(names, vec!["time", "count", "enabled", "color"]);
    assert_eq!(pg.params()[0].label, "time");
    assert_eq!(pg.params()[0].max, RANGE_MAX_BITS);
    assert_eq!(f32::from_bits(RANGE_MAX_BITS), 1.0);
    assert!(matches!(pg.get("color"), Some(PlaygroundValue::Float3([0, 0, 0]))));
    assert_eq!(pg.total_bytes(), 32);
    assert!(pg.presets().is_empty());
}

#[test]
fn stable_sort_keeps_equal_offsets_in_order() {
    let sorted = sort_fields_by_offset(&vec![
        field("b", 8, PcFieldKind::Int),
        field("a1", 0, PcFieldKind::Int),
        field("a2", 0, PcFieldKind::Int),
    ]);
    let names: Vec<&str> = sorted.iter().map(|f| f.name.as_str()).collect();
    assert_eq!(names, vec!["a1", "a2", "b"]);
}

#[test]
fn set_and_get() {
    let mut pg = playground();
    assert!(pg.set("time", PlaygroundValue::Float(2.5f32.to_bits())));
    assert!(!pg.set("missing", PlaygroundValue::Uint(1)));
    assert!(!pg.set("time", PlaygroundValue::Uint(1)));
    assert!(matches!(pg.get("time"), Some(PlaygroundValue::Float(b)) if f32::from_bits(*b) == 2.5));
    assert!(matches!(pg.get("time"), Some(PlaygroundValue::Float(b)) if f32::from_bits(*b) == 2.5));
    assert!(pg.get("missing").is_none());
    pg.set_label("time", "Time (s)");
    assert_eq!(pg.params()[0].label, "Time (s)");
    pg.set_range("time", 0, 10.0f32.to_bits());
    assert_eq!(f32::from_bits(pg.params()[0].max), 10.0);
}

#[test]
fn pack_writes_little_endian_values_at_offsets() {
    let mut pg = playground();
    pg.set("time", PlaygroundValue::Float(1.0f32.to_bits()));
    pg.set("count", PlaygroundValue::Uint(0x0102_0304));
    pg.set("enabled", PlaygroundValue::Bool(true));
    pg.set("color", PlaygroundValue::Float3([1, 2, 3]));
    let bytes = pg.pack_bytes();
    assert_eq!(bytes.len(), 32);
    assert_eq!(&bytes[0..4], &1.0f32.to_le_bytes());
    assert_eq!(&bytes[4..8], &[4, 3, 2, 1]);
    assert_eq!(&bytes[8..12], &[1, 0, 0, 0]);
    assert_eq!(&bytes[12..16], &[0, 0, 0, 0]);
    assert_eq!(&bytes[16..28], &[1, 0, 0, 0, 2, 0, 0, 0, 3, 0, 0, 0]);
    assert_eq!(&bytes[28..32], &[0, 0, 0, 0]);
}

#[test]
fn pack_skips_values_past_the_end_and_empty_blocks() {
    let pg = ShaderPlayground::new(&vec![field("m", 8, PcFieldKind::Mat4), field("i", 0, PcFieldKind::Int)], 16);
    assert_eq!(pg.pack_bytes(), vec![0u8; 16]);
    let mut neg = ShaderPlayground::new(&vec![field("i", 0, PcFieldKind::Int)], 4);
    neg.set("i", PlaygroundValue::Int(-2));
    assert_eq!(neg.pack_bytes(), (-2i32).to_le_bytes().to_vec());
    let empty = ShaderPlayground::new(&vec![field("i", 0, PcFieldKind::Int)], 0);
    assert!(empty.pack_bytes().is_empty());
}

#[test]
fn preset_save_then_load_restores_values() {
    let mut pg = playground();
    pg.set("count", PlaygroundValue::Uint(7));
    pg.save_preset("seven");
    pg.set("count", PlaygroundValue::Uint(9));
    assert!(matches!(pg.get("count"), Some(PlaygroundValue::Uint(9))));
    assert!(pg.load_preset("seven"));
    assert!(matches!(pg.get("count"), Some(PlaygroundValue::Uint(7))));
    assert!(!pg.load_preset("unknown"));
    pg.set("count", PlaygroundValue::Uint(11));
    pg.save_preset("seven");
    assert_eq!(pg.presets().len(), 1);
    pg.set("count", PlaygroundValue::Uint(0));
    pg.load_preset("seven");
    assert!(matches!(pg.get("count"), Some(PlaygroundValue::Uint(11))));
}

#[test]
fn value_sizes_and_defaults() {
    assert_eq!(PlaygroundValue::Float4([0; 4]).byte_size(), 16);
    assert_eq!(PlaygroundValue::Raw(vec![1, 2, 3]).byte_size(), 3);
    assert!(matches!(PlaygroundValue::default_for(&PcFieldKind::Mat4), PlaygroundValue::Raw(v) if v.len() == 64));
    assert!(matches!(PlaygroundValue::default_for(&PcFieldKind::Other { byte_size: 12 }), PlaygroundValue::Raw(v) if v == vec![0u8; 12]));
    assert_eq!(PlaygroundValue::Bool(true).to_bytes(), vec![1, 0, 0, 0]);
}
