use sturdy_engine::screenshot::{bytes_per_pixel, rgba8_from_raw, ScreenshotCapture};
use sturdy_engine::screenshot_png::encode_png;
use sturdy_engine::shader_data::{decimal_string, BufferUsage, ShaderData};
use sturdy_engine::shader_program::{ShaderName, ShaderProgram, ShaderProgramDesc, SlangEntryPoints};
use sturdy_engine::shader_watcher::{Reloadable, ShaderReloadDiagnostic, ShaderWatcher};
use sturdy_engine::types::{EngineError, Format, ShaderDesc, ShaderSource, ShaderStage};

#[test]
fn shader_names_and_entry_points() {
    assert_eq!(ShaderName::new("bloom").as_str(), "bloom");
    match SlangEntryPoints::graphics("vs", "ps") {
        SlangEntryPoints::Graphics { vertex, fragment } => {
            assert_eq!(vertex, "vs");
            assert_eq!(fragment, "ps");
        }
        _ => panic!("expected graphics entry points"),
    }
    assert!(matches!(SlangEntryPoints::compute("cs"), SlangEntryPoints::Compute { compute } if compute == "cs"));
}

#[test]
fn inline_programs_have_no_reload_source() {
    let p = ShaderProgram::from_inline_fragment("float4 main() : SV_Target { return 0; }");
    assert_eq!(p.stage(), ShaderStage::Fragment);
    assert_eq!(p.stage_mask().bits, 2);
    assert!(p.source_path().is_none());
    assert!(p.reload().is_none());
    let c = ShaderProgram::from_inline_compute("[numthreads(1,1,1)] void main() {}");
    assert_eq!(c.stage(), ShaderStage::Compute);
    assert_eq!(c.stage_mask().bits, 4);
}

#[test]
fn file_program_reloads_from_its_file() {
    let desc = ShaderProgramDesc {
        fragment: ShaderDesc {
            source: ShaderSource::File("post.slang".to_string()),
            entry_point: "main".to_string(),
            stage: ShaderStage::Fragment,
        },
        vertex: None,
    };
    let mut p = ShaderProgram::new(desc);
    assert!(matches!(&p.vertex.source, ShaderSource::File(f) if f == "shaders/fullscreen_vertex.slang"));
    assert_eq!(p.vertex.stage, ShaderStage::Vertex);
    p.source_path = Some("post.slang".to_string());
    let d = p.reload().unwrap();
    assert!(matches!(&d.source, ShaderSource::File(f) if f == "post.slang"));
    assert_eq!(d.entry_point, "main");
    assert_eq!(d.stage, ShaderStage::Fragment);
    assert_eq!(p.source_path(), Some("post.slang"));
}

#[test]
fn screenshot_formats() {
    assert_eq!(bytes_per_pixel(Format::Rgba8Unorm).unwrap(), 4);
    assert_eq!(bytes_per_pixel(Format::Bgra8Srgb).unwrap(), 4);
    assert_eq!(bytes_per_pixel(Format::Rgba16Float).unwrap(), 8);
    match bytes_per_pixel(Format::Depth32Float) {
        Err(EngineError::InvalidInput(m)) => assert_eq!(m, "ScreenshotCapture: unsupported format Depth32Float"),
        _ => panic!("expected InvalidInput"),
    }
    let c = ScreenshotCapture::new(4, 2, Format::Rgba16Float).unwrap();
    assert_eq!(c.readback_size(), 64);
    assert!(ScreenshotCapture::new(1, 1, Format::Rgba32Float).is_err());
}

#[test]
fn bgra_capture_swaps_red_and_blue() {
    let raw = vec![10, 20, 30, 40, 50, 60, 70, 80];
    let out = rgba8_from_raw(&raw, Format::Bgra8Unorm, 2, 1);
    assert_eq!(out, vec![30, 20, 10, 40, 70, 60, 50, 80]);
    let back = rgba8_from_raw(&out, Format::Bgra8Unorm, 2, 1);
    assert_eq!(back, raw);
    let same = rgba8_from_raw(&raw, Format::Rgba8Unorm, 1, 2);
    assert_eq!(same, raw);
    let cap = ScreenshotCapture::new(2, 1, Format::Bgra8Srgb).unwrap();
    assert_eq!(cap.read_rgba8_pixels(&raw), vec![30, 20, 10, 40, 70, 60, 50, 80]);
}

#[test]
fn decimal_text() {
    assert_eq!(decimal_string(0), "0");
    assert_eq!(decimal_string(7), "7");
    assert_eq!(decimal_string(1024), "1024");
    assert_eq!(decimal_string(u64::MAX), "18446744073709551615");
}

#[test]
fn shader_data_creation_checks() {
    match ShaderData::with_usage_bytes(BufferUsage::storage(), 1, 0, &[1, 2]) {
        Err(EngineError::InvalidInput(m)) => assert_eq!(m, "shader data cannot be created for zero-sized element types"),
        _ => panic!("expected zero-stride error"),
    }
    match ShaderData::with_usage_bytes(BufferUsage::copy_dst(), 1, 4, &[1, 2, 3, 4]) {
        Err(EngineError::InvalidInput(m)) => assert_eq!(m, "shader data usage must include STORAGE or UNIFORM"),
        _ => panic!("expected usage error"),
    }
    let d = ShaderData::with_usage_bytes(BufferUsage::uniform(), 1, 16, &[0u8; 16]).unwrap();
    assert_eq!(d.byte_len(), 16);
    assert_eq!(d.capacity_bytes(), 16);
    assert!(d.usage().contains(BufferUsage::copy_dst()));
    assert!(d.usage().contains(BufferUsage::uniform()));
    let e = ShaderData::with_usage_bytes(BufferUsage::storage(), 0, 4, &[]).unwrap();
    assert!(e.is_empty());
    assert_eq!(e.capacity_bytes(), 1);
}

#[test]
fn shader_data_writes() {
    let mut d = ShaderData::with_usage_bytes(BufferUsage::storage(), 2, 8, &[0u8; 16]).unwrap();
    match d.write_bytes(3, 8, &[0u8; 24]) {
        Err(EngineError::InvalidInput(m)) => assert_eq!(
            m,
            "shader data write needs 24 bytes but buffer capacity is 16; use resize_and_write_* to grow it"
        ),
        _ => panic!("expected capacity error"),
    }
    assert_eq!(d.len(), 2);
    assert!(d.write_bytes(1, 8, &[0u8; 8]).is_ok());
    assert_eq!(d.len(), 1);
    assert_eq!(d.byte_len(), 8);
    assert_eq!(d.capacity_bytes(), 16);
    assert!(d.resize_and_write_bytes(3, 8, &[0u8; 24]).is_ok());
    assert_eq!(d.capacity_bytes(), 24);
    assert_eq!(d.byte_len(), 24);
    assert_eq!(d.element_stride(), 8);
    assert!(d.resize_and_write_bytes(1, 0, &[0u8; 4]).is_err());
}

struct FakeProgram {
    path: Option<String>,
    outcome: Result<bool, String>,
    reloads: usize,
}

impl Reloadable for FakeProgram {
    fn source_path(&self) -> Option<String> {
        self.path.clone()
    }

    fn reload(&mut self) -> Result<bool, EngineError> {
        self.reloads += 1;
        match &self.outcome {
            Ok(b) => Ok(*b),
            Err(m) => Err(EngineError::Unknown(m.clone())),
        }
    }
}

#[test]
fn watcher_reports_changes_once() {
    let mut w = ShaderWatcher::new();
    w.watch("a.slang", Some(1));
    w.watch("b.slang", None);
    assert_eq!(w.watched_paths(), vec!["a.slang", "b.slang"]);
    assert!(w.poll_changed(&vec![Some(1), None]).is_empty());
    assert_eq!(w.poll_changed(&vec![Some(2), None]), vec!["a.slang"]);
    assert!(w.poll_changed(&vec![Some(2), None]).is_empty());
    assert_eq!(w.poll_changed(&vec![None, Some(5)]), vec!["a.slang", "b.slang"]);
}

#[test]
fn watcher_watch_if_file_and_unwatch() {
    let mut w = ShaderWatcher::new();
    assert!(!w.watch_if_file("", true, None));
    assert!(!w.watch_if_file("missing.slang", false, None));
    assert!(w.watch_if_file("x.slang", true, Some(3)));
    w.watch_program(Some("y.slang"), true, Some(4));
    w.watch_program(None, true, Some(4));
    w.watch("x.slang", Some(9));
    assert_eq!(w.watched_paths(), vec!["x.slang", "y.slang", "x.slang"]);
    w.unwatch("x.slang");
    assert_eq!(w.watched_paths(), vec!["y.slang"]);
    w.clear();
    assert!(w.watched_paths().is_empty());
}

#[test]
fn tick_reloads_matching_programs() {
    let mut w = ShaderWatcher::new();
    w.watch("a.slang", Some(1));
    w.watch("b.slang", Some(1));
    w.watch("c.slang", Some(1));
    let mut programs = vec![
        FakeProgram { path: Some("a.slang".to_string()), outcome: Ok(true), reloads: 0 },
        FakeProgram { path: Some("b.slang".to_string()), outcome: Err("syntax error".to_string()), reloads: 0 },
        FakeProgram { path: None, outcome: Ok(true), reloads: 0 },
    ];
    let diags = w.tick(&vec![Some(2), Some(2), Some(2)], &mut programs);
    assert_eq!(diags.len(), 3);
    assert_eq!(diags[0].path, "a.slang");
    assert!(diags[0].success);
    assert!(!diags[1].success);
    assert_eq!(diags[1].error.as_deref(), Some("syntax error"));
    assert!(!diags[2].success);
    assert!(diags[2].error.is_none());
    assert_eq!(programs[0].reloads, 1);
    assert_eq!(programs[1].reloads, 1);
    assert_eq!(programs[2].reloads, 0);
    assert!(w.tick(&vec![Some(2), Some(2), Some(2)], &mut programs).is_empty());
}

#[test]
fn diagnostic_summaries() {
    let ok = ShaderReloadDiagnostic { path: "a.slang".to_string(), success: true, error: None };
    assert_eq!(ok.summary(), "[shader-reload] \u{2713} a.slang");
    let bad = ShaderReloadDiagnostic { path: "b.slang".to_string(), success: false, error: Some("oops".to_string()) };
    assert_eq!(bad.summary(), "[shader-reload] \u{2717} b.slang: oops");
    let unknown = ShaderReloadDiagnostic { path: "c.slang".to_string(), success: false, error: None };
    assert_eq!(unknown.summary(), "[shader-reload] \u{2717} c.slang: unknown error");
    let d = ShaderReloadDiagnostic::from_outcomes("d".to_string(), &vec![Ok(false), Ok(true)]);
    assert!(d.success);
    let e = ShaderReloadDiagnostic::from_outcomes("e".to_string(), &vec![Err("first".to_string()), Ok(true), Err("last".to_string())]);
    assert!(!e.success);
    assert_eq!(e.error.as_deref(), Some("last"));
}

#[test]
fn reload_keeps_the_program_on_failure_and_clears_pipelines_on_success() {
    let mut p = ShaderProgram::from_inline_fragment("void main() {}");
    assert!(matches!(p.finish_reload(Err(EngineError::Unknown("x".to_string()))), Ok(false)));
    p.source_path = Some("post.slang".to_string());
    assert!(p.request_pipeline(Format::Rgba8Unorm, 0));
    assert!(p.finish_pipeline(Format::Rgba8Unorm, 0, Ok(())).is_ok());
    assert!(!p.request_pipeline(Format::Rgba8Unorm, 1));
    assert!(p.finish_pipeline(Format::Rgba8Unorm, 1, Ok(())).is_ok());
    assert!(p.request_pipeline(Format::Rgba8Unorm, 4));
    // A failed compile caches nothing and is asked for again.
    assert!(p.finish_pipeline(Format::Rgba8Unorm, 4, Err(EngineError::Unknown("no".to_string()))).is_err());
    assert!(p.request_pipeline(Format::Rgba8Unorm, 4));
    assert!(p.finish_pipeline(Format::Rgba8Unorm, 4, Ok(())).is_ok());
    assert_eq!(p.pipeline_keys, vec![(Format::Rgba8Unorm, 1), (Format::Rgba8Unorm, 4)]);
    let err = p.finish_reload(Err(EngineError::Unknown("syntax error".to_string())));
    assert!(matches!(err, Err(EngineError::Unknown(ref m)) if m == "syntax error"));
    assert_eq!(p.pipeline_keys.len(), 2);
    assert!(matches!(p.fragment.source, ShaderSource::Inline(_)));
    let desc = p.reload().unwrap();
    assert!(matches!(p.finish_reload(Ok(desc)), Ok(true)));
    assert!(matches!(p.fragment.source, ShaderSource::File(ref f) if f == "post.slang"));
    assert!(p.pipeline_keys.is_empty());
    assert!(!p.has_pipeline(Format::Rgba8Unorm, 1));
}

#[test]
fn screenshot_png_bytes() {
    let pixels: Vec<u8> = vec![255, 0, 0, 255, 0, 255, 0, 255];
    let bytes = encode_png(2, 1, &pixels).unwrap();
    assert_eq!(&bytes[..8], &[137, 80, 78, 71, 13, 10, 26, 10]);
    assert_ne!(bytes, pixels);
    assert_eq!(&bytes[12..16], b"IHDR");
    assert_eq!(&bytes[bytes.len() - 8..bytes.len() - 4], b"IEND");
    assert!(matches!(encode_png(0, 1, &[]), Err(EngineError::Unknown(m)) if m.starts_with("screenshot: PNG encode error: ")));
    assert!(matches!(encode_png(2, 1, &pixels[..4]), Err(EngineError::Unknown(m)) if m.starts_with("screenshot: PNG encode error: ")));
}

#[test]
fn newly_watched_unchanged_file_is_not_reported() {
    let mut w = ShaderWatcher::new();
    w.watch("a.slang", Some(1));
    assert!(w.poll_changed(&vec![Some(2)]) == vec!["a.slang"]);
    w.watch("b.slang", Some(7));
    assert_eq!(w.watched_paths(), vec!["a.slang", "b.slang"]);
    assert!(w.poll_changed(&vec![Some(2), Some(7)]).is_empty());
    assert_eq!(w.poll_changed(&vec![Some(3), Some(7)]), vec!["a.slang"]);
}
