use naga_bridge::naga_converter_t;
use naga_bridge::stage_for_entry_point;
use naga_bridge::stage_from_selector;
use naga_bridge::ConvertError;
use naga_bridge::OutputKind;
use naga_bridge::Stage;

const MINIMAL_FRAGMENT_GLSL: &str = "#version 450\nvoid main() {}\n";

const OUTPUT_FRAGMENT_GLSL: &str =
    "#version 450\nlayout(location = 0) out vec4 color;\nvoid main() { color = vec4(1.0); }\n";

const MINIMAL_COMPUTE_WGSL: &str = "@compute @workgroup_size(1)\nfn main() {}\n";

const MINIMAL_VERTEX_WGSL: &str =
    "@vertex\nfn vs_main() -> @builtin(position) vec4<f32> { return vec4<f32>(0.0, 0.0, 0.0, 1.0); }\n";

#[test]
fn create_then_destroy() {
    let converter = naga_converter_t::new();
    assert_eq!(converter.query_last_result_length(), 0);
    assert_eq!(converter.last_output_kind(), OutputKind::Nothing);
    assert_eq!(converter.binary_result().len(), 0);
    assert_eq!(converter.text_result().len(), 0);
    drop(converter);
}

#[test]
fn selector_mapping_is_exact() {
    assert_eq!(stage_from_selector(1), Ok(Stage::Vertex));
    assert_eq!(stage_from_selector(2), Ok(Stage::Fragment));
    assert_eq!(stage_from_selector(3), Ok(Stage::Compute));
    assert_eq!(stage_from_selector(0), Err(ConvertError::UnknownStage));
    assert_eq!(stage_from_selector(4), Err(ConvertError::UnknownStage));
    assert_eq!(stage_from_selector(-1), Err(ConvertError::UnknownStage));
    assert_eq!(stage_from_selector(i32::MAX), Err(ConvertError::UnknownStage));
}

#[test]
fn unknown_stage_selector_is_fatal() {
    let mut converter = naga_converter_t::new();
    let r = converter.convert_glsl_to_spirv(MINIMAL_FRAGMENT_GLSL, 4);
    assert_eq!(r, Err(ConvertError::UnknownStage));
    let r = converter.convert_glsl_to_spirv(MINIMAL_FRAGMENT_GLSL, 0);
    assert_eq!(r, Err(ConvertError::UnknownStage));
    // The selector is checked before the source is even parsed.
    let r = converter.convert_glsl_to_spirv("not glsl at all", 9);
    assert_eq!(r, Err(ConvertError::UnknownStage));
    // Nothing was dispatched, so nothing is reported.
    assert_eq!(converter.query_last_result_length(), 0);
    assert_eq!(converter.last_output_kind(), OutputKind::Nothing);
}

#[test]
fn entry_point_prefix_inference() {
    assert_eq!(stage_for_entry_point("vs_main"), Stage::Vertex);
    assert_eq!(stage_for_entry_point("vs_"), Stage::Vertex);
    assert_eq!(stage_for_entry_point("fs_main"), Stage::Fragment);
    // Unrecognized prefixes default to compute, never an error.
    assert_eq!(stage_for_entry_point("main"), Stage::Compute);
    assert_eq!(stage_for_entry_point("cs_main"), Stage::Compute);
    assert_eq!(stage_for_entry_point("vsmain"), Stage::Compute);
    assert_eq!(stage_for_entry_point("vs"), Stage::Compute);
    assert_eq!(stage_for_entry_point(""), Stage::Compute);
}

#[test]
fn glsl_fragment_to_spirv_reports_written_length() {
    let mut converter = naga_converter_t::new();
    let n = converter
        .convert_glsl_to_spirv(MINIMAL_FRAGMENT_GLSL, 2)
        .expect("minimal fragment shader should convert");
    assert!(n > 0);
    assert_eq!(n, converter.binary_result().len());
    assert_eq!(n, converter.query_last_result_length());
    assert_eq!(converter.last_output_kind(), OutputKind::Binary);
    // The output opens with the SPIR-V magic number.
    assert_eq!(converter.binary_result()[0], 0x0723_0203);
}

#[test]
fn glsl_vertex_and_compute_selectors_convert() {
    let mut converter = naga_converter_t::new();
    let n = converter
        .convert_glsl_to_spirv("#version 450\nvoid main() { gl_Position = vec4(0.0); }\n", 1)
        .expect("minimal vertex shader should convert");
    assert!(n > 0);
    let n = converter
        .convert_glsl_to_spirv(
            "#version 450\nlayout(local_size_x = 1) in;\nvoid main() {}\n",
            3,
        )
        .expect("minimal compute shader should convert");
    assert!(n > 0);
}

#[test]
fn wgsl_to_glsl_unprefixed_entry_defaults_to_compute() {
    let mut converter = naga_converter_t::new();
    let n = converter
        .convert_wgsl_to_glsl(MINIMAL_COMPUTE_WGSL, "main")
        .expect("an unrecognized entry-point prefix must default to compute, not fail");
    assert!(n > 0);
    assert_eq!(n, converter.text_result().len());
    assert_eq!(n, converter.query_last_result_length());
    assert_eq!(converter.last_output_kind(), OutputKind::Text);
    let text = String::from_utf8(converter.text_result().clone()).unwrap();
    assert!(text.contains("#version 320 es"));
}

#[test]
fn wgsl_to_glsl_vertex_prefix_converts() {
    let mut converter = naga_converter_t::new();
    let n = converter
        .convert_wgsl_to_glsl(MINIMAL_VERTEX_WGSL, "vs_main")
        .expect("a vertex-prefixed entry point should convert");
    assert!(n > 0);
    let text = String::from_utf8(converter.text_result().clone()).unwrap();
    assert!(text.contains("#version 320 es"));
    assert!(text.contains("main"));
}

#[test]
fn spirv_to_wgsl_reports_written_length() {
    let mut converter = naga_converter_t::new();
    converter
        .convert_glsl_to_spirv(OUTPUT_FRAGMENT_GLSL, 2)
        .expect("fragment shader should convert");
    let words = converter.binary_result().clone();
    let n = converter
        .convert_spirv_to_wgsl(&words)
        .expect("generated SPIR-V should convert back to WGSL");
    assert!(n > 0);
    assert_eq!(n, converter.text_result().len());
    assert_eq!(n, converter.query_last_result_length());
    assert_eq!(converter.last_output_kind(), OutputKind::Text);
    // The binary buffer still holds the previous result untouched.
    assert_eq!(&words, converter.binary_result());
}

#[test]
fn spirv_to_msl_reports_written_length() {
    let mut converter = naga_converter_t::new();
    converter
        .convert_glsl_to_spirv(OUTPUT_FRAGMENT_GLSL, 2)
        .expect("fragment shader should convert");
    let words = converter.binary_result().clone();
    let n = converter
        .convert_spirv_to_msl(&words)
        .expect("generated SPIR-V should convert to MSL");
    assert!(n > 0);
    assert_eq!(n, converter.text_result().len());
    assert_eq!(n, converter.query_last_result_length());
    assert_eq!(converter.last_output_kind(), OutputKind::Text);
    let text = String::from_utf8(converter.text_result().clone()).unwrap();
    assert!(text.contains("metal"));
}

#[test]
fn malformed_glsl_fails_at_parse() {
    let mut converter = naga_converter_t::new();
    let r = converter.convert_glsl_to_spirv("#version 450\nvoid main( {", 2);
    assert_eq!(r, Err(ConvertError::Parse));
    // The failure does not poison the converter.
    let n = converter
        .convert_glsl_to_spirv(MINIMAL_FRAGMENT_GLSL, 2)
        .expect("the converter must stay usable after a failed call");
    assert!(n > 0);
}

#[test]
fn malformed_wgsl_fails_at_parse() {
    let mut converter = naga_converter_t::new();
    let r = converter.convert_wgsl_to_glsl("fn fn fn", "main");
    assert_eq!(r, Err(ConvertError::Parse));
}

#[test]
fn truncated_spirv_fails_at_parse() {
    let mut converter = naga_converter_t::new();
    // The magic number alone, with the header cut off.
    let r = converter.convert_spirv_to_wgsl(&[0x0723_0203]);
    assert_eq!(r, Err(ConvertError::Parse));
    let r = converter.convert_spirv_to_msl(&[0x0723_0203]);
    assert_eq!(r, Err(ConvertError::Parse));
    // An empty stream is no better.
    let r = converter.convert_spirv_to_wgsl(&[]);
    assert_eq!(r, Err(ConvertError::Parse));
}

#[test]
fn ill_typed_module_fails_at_validation() {
    let mut converter = naga_converter_t::new();
    // Parses fine, but a uniform of a non-host-shareable type breaks a
    // semantic rule, so this fails one stage later than malformed source.
    let src = "@group(0) @binding(0) var<uniform> flag: bool;\n@compute @workgroup_size(1)\nfn main() {}\n";
    let r = converter.convert_wgsl_to_glsl(src, "main");
    assert_eq!(r, Err(ConvertError::Validation));
    // The converter stays usable after the failure.
    let n = converter
        .convert_wgsl_to_glsl(MINIMAL_COMPUTE_WGSL, "main")
        .expect("the converter must stay usable after a failed call");
    assert!(n > 0);
}

#[test]
fn error_kinds_are_distinct() {
    assert_ne!(ConvertError::Parse, ConvertError::Validation);
    assert_ne!(ConvertError::Parse, ConvertError::Generation);
    assert_ne!(ConvertError::Validation, ConvertError::Generation);
    assert_ne!(ConvertError::UnknownStage, ConvertError::Parse);
}

#[test]
fn rerun_is_idempotent() {
    let mut converter = naga_converter_t::new();
    let n1 = converter
        .convert_glsl_to_spirv(OUTPUT_FRAGMENT_GLSL, 2)
        .expect("fragment shader should convert");
    let first = converter.binary_result().clone();
    let n2 = converter
        .convert_glsl_to_spirv(OUTPUT_FRAGMENT_GLSL, 2)
        .expect("the identical translation should convert again");
    assert_eq!(n1, n2);
    assert_eq!(&first, converter.binary_result());

    let m1 = converter
        .convert_wgsl_to_glsl(MINIMAL_COMPUTE_WGSL, "main")
        .expect("compute shader should convert");
    let first_text = converter.text_result().clone();
    let m2 = converter
        .convert_wgsl_to_glsl(MINIMAL_COMPUTE_WGSL, "main")
        .expect("the identical translation should convert again");
    assert_eq!(m1, m2);
    assert_eq!(&first_text, converter.text_result());
}

#[test]
fn independent_converters_do_not_interfere() {
    // Reference results, each from its own fresh converter run alone.
    let mut alone_a = naga_converter_t::new();
    let n_a = alone_a.convert_glsl_to_spirv(OUTPUT_FRAGMENT_GLSL, 2).unwrap();
    let out_a = alone_a.binary_result().clone();
    let mut alone_b = naga_converter_t::new();
    let n_b = alone_b.convert_wgsl_to_glsl(MINIMAL_COMPUTE_WGSL, "main").unwrap();
    let out_b = alone_b.text_result().clone();

    // The same two translations, interleaved across two converters.
    let mut a = naga_converter_t::new();
    let mut b = naga_converter_t::new();
    let n_a2 = a.convert_glsl_to_spirv(OUTPUT_FRAGMENT_GLSL, 2).unwrap();
    let n_b2 = b.convert_wgsl_to_glsl(MINIMAL_COMPUTE_WGSL, "main").unwrap();
    let n_a3 = a.convert_glsl_to_spirv(OUTPUT_FRAGMENT_GLSL, 2).unwrap();

    assert_eq!(n_a, n_a2);
    assert_eq!(n_a, n_a3);
    assert_eq!(n_b, n_b2);
    assert_eq!(&out_a, a.binary_result());
    assert_eq!(&out_b, b.text_result());
}

#[test]
fn fragment_translation_is_deterministic() {
    let mut first = naga_converter_t::new();
    let n1 = first
        .convert_glsl_to_spirv(OUTPUT_FRAGMENT_GLSL, 2)
        .expect("fragment shader should convert");
    let mut second = naga_converter_t::new();
    let n2 = second
        .convert_glsl_to_spirv(OUTPUT_FRAGMENT_GLSL, 2)
        .expect("fragment shader should convert");
    assert!(n1 > 0);
    assert_eq!(n1, n2);
    assert_eq!(first.binary_result(), second.binary_result());
}

#[test]
fn query_tracks_most_recent_dispatch() {
    let mut converter = naga_converter_t::new();
    let n = converter.convert_glsl_to_spirv(MINIMAL_FRAGMENT_GLSL, 2).unwrap();
    assert_eq!(converter.query_last_result_length(), n);
    let m = converter.convert_wgsl_to_glsl(MINIMAL_COMPUTE_WGSL, "main").unwrap();
    assert_eq!(converter.query_last_result_length(), m);
    assert_eq!(converter.last_output_kind(), OutputKind::Text);
}
