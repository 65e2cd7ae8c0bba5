//! The trusted surface toward the naga crate.
//!
//! naga's front-ends, validator and back-ends are the converter's black-box
//! collaborators: this module declares their types and wraps the few calls the
//! pipeline makes. Every item here is believed, not verified; each doc comment
//! names the naga item it relies on.
use vstd::prelude::*;

use crate::stage::Stage;

verus! {

// ---- naga's types, declared so they can stand in signatures and fields ----

/// naga's format-agnostic intermediate representation of a shader program.
#[verifier::external_type_specification]
#[verifier::external_body]
pub struct ExModule(naga::Module);

/// naga's analysis artifacts, produced by validation and read by back-ends.
#[verifier::external_type_specification]
#[verifier::external_body]
pub struct ExModuleInfo(naga::valid::ModuleInfo);

/// naga's pipeline-stage discriminant.
#[verifier::external_type_specification]
#[verifier::external_body]
pub struct ExShaderStage(naga::ShaderStage);

/// naga's GLSL front-end; reusable, reset on every parse.
#[verifier::external_type_specification]
#[verifier::external_body]
pub struct ExGlslFrontend(naga::front::glsl::Frontend);

/// naga's WGSL front-end; reusable across parses.
#[verifier::external_type_specification]
#[verifier::external_body]
pub struct ExWgslFrontend(naga::front::wgsl::Frontend);

/// naga's module validator; reusable, reset on every validation.
#[verifier::external_type_specification]
#[verifier::external_body]
pub struct ExValidator(naga::valid::Validator);

/// naga's SPIR-V back-end; reusable, reset on every write.
#[verifier::external_type_specification]
#[verifier::external_body]
pub struct ExSpvWriter(naga::back::spv::Writer);

/// The error list naga's GLSL front-end reports.
#[verifier::external_type_specification]
#[verifier::external_body]
pub struct ExGlslParseErrors(naga::front::glsl::ParseErrors);

/// The error naga's WGSL front-end reports.
#[verifier::external_type_specification]
#[verifier::external_body]
pub struct ExWgslParseError(naga::front::wgsl::ParseError);

/// The error naga's SPIR-V front-end reports.
#[verifier::external_type_specification]
#[verifier::external_body]
pub struct ExSpvFrontError(naga::front::spv::Error);

/// naga's carrier of an error together with its source spans.
#[verifier::external_type_specification]
#[verifier::external_body]
#[verifier::reject_recursive_types(E)]
pub struct ExWithSpan<E>(naga::WithSpan<E>);

/// The error naga's validator reports.
#[verifier::external_type_specification]
#[verifier::external_body]
pub struct ExValidationError(naga::valid::ValidationError);

/// The error naga's SPIR-V back-end reports.
#[verifier::external_type_specification]
#[verifier::external_body]
pub struct ExSpvBackError(naga::back::spv::Error);

/// The error naga's WGSL back-end reports.
#[verifier::external_type_specification]
#[verifier::external_body]
pub struct ExWgslBackError(naga::back::wgsl::Error);

/// The error naga's MSL back-end reports.
#[verifier::external_type_specification]
#[verifier::external_body]
pub struct ExMslBackError(naga::back::msl::Error);

/// The error naga's GLSL back-end reports.
#[verifier::external_type_specification]
#[verifier::external_body]
pub struct ExGlslBackError(naga::back::glsl::Error);

/// The retained configuration of naga's GLSL back-end.
#[verifier::external_type_specification]
#[verifier::external_body]
pub struct ExGlslOptions(naga::back::glsl::Options);

/// The per-call configuration of naga's GLSL back-end.
#[verifier::external_type_specification]
#[verifier::external_body]
pub struct ExGlslPipelineOptions(naga::back::glsl::PipelineOptions);

// ---- names for what the front-ends decide ----

/// Whether naga's GLSL front-end accepts this source for this stage. The
/// front-end resets all retained state at the top of every parse, and the
/// converter's parse options hold only the stage (no preprocessor defines),
/// so acceptance depends on the stage and the source alone.
pub uninterp spec fn glsl_parses(source: Seq<char>, stage: Stage) -> bool;

/// Whether naga's WGSL front-end accepts this source. The front-end holds
/// the fixed default parser options and no state that outlives a parse, so
/// acceptance depends on the source alone.
pub uninterp spec fn wgsl_parses(source: Seq<char>) -> bool;

/// Whether naga's SPIR-V front-end accepts this word stream. A fresh
/// front-end is built per call from the words and the fixed default options,
/// so acceptance depends on the words alone.
pub uninterp spec fn spv_parses(words: Seq<u32>) -> bool;

// ---- the calls the pipeline makes ----

/// Relies on naga::ShaderStage: names the naga stage matching a converter
/// stage, one variant each.
#[verifier::external_body]
pub(crate) fn to_naga_stage(stage: Stage) -> naga::ShaderStage {
    match stage {
        Stage::Vertex => naga::ShaderStage::Vertex,
        Stage::Fragment => naga::ShaderStage::Fragment,
        Stage::Compute => naga::ShaderStage::Compute,
    }
}

/// Relies on naga::front::glsl::Frontend::default to build a fresh GLSL
/// front-end.
#[verifier::external_body]
pub(crate) fn glsl_frontend_new() -> naga::front::glsl::Frontend {
    naga::front::glsl::Frontend::default()
}

/// Relies on naga::front::wgsl::Frontend::new to build a fresh WGSL
/// front-end with the default parser options.
#[verifier::external_body]
pub(crate) fn wgsl_frontend_new() -> naga::front::wgsl::Frontend {
    naga::front::wgsl::Frontend::new()
}

/// Relies on naga::valid::Validator::new, configured as the converter runs
/// it: no validation flags, all capabilities allowed.
#[verifier::external_body]
pub(crate) fn validator_new() -> naga::valid::Validator {
    naga::valid::Validator::new(
        naga::valid::ValidationFlags::empty(),
        naga::valid::Capabilities::all(),
    )
}

/// Relies on naga::back::spv::Writer::new, which fails only for a SPIR-V
/// language version whose major part is not 1; the default options carry
/// version (1, 0), so the call succeeds.
#[verifier::external_body]
pub(crate) fn spv_writer_new() -> naga::back::spv::Writer {
    naga::back::spv::Writer::new(&naga::back::spv::Options::default()).unwrap()
}

/// Relies on naga::front::glsl::Frontend::parse: parses GLSL source tagged
/// with the given stage into a module, or reports the source's errors.
/// Succeeds exactly when the front-end accepts the source for that stage.
#[verifier::external_body]
pub(crate) fn glsl_parse(front: &mut naga::front::glsl::Frontend, stage: Stage, source: &str) -> (r: Result<
    naga::Module,
    naga::front::glsl::ParseErrors,
>)
    ensures
        (r matches Ok(_)) <==> glsl_parses(source@, stage),
{
    front.parse(&naga::front::glsl::Options::from(to_naga_stage(stage)), source)
}

/// Relies on naga::front::wgsl::Frontend::parse: parses WGSL source into a
/// module, or reports the source's error. Succeeds exactly when the
/// front-end accepts the source.
#[verifier::external_body]
pub(crate) fn wgsl_parse(front: &mut naga::front::wgsl::Frontend, source: &str) -> (r: Result<
    naga::Module,
    naga::front::wgsl::ParseError,
>)
    ensures
        (r matches Ok(_)) <==> wgsl_parses(source@),
{
    front.parse(source)
}

/// Relies on naga::front::spv::Frontend::{new, parse}: decodes a SPIR-V word
/// stream into a module with the default front-end options, or reports the
/// stream's error. Succeeds exactly when the front-end accepts the stream.
#[verifier::external_body]
pub(crate) fn spv_parse(words: &[u32]) -> (r: Result<naga::Module, naga::front::spv::Error>)
    ensures
        (r matches Ok(_)) <==> spv_parses(words@),
{
    let options = naga::front::spv::Options::default();
    naga::front::spv::Frontend::new(words.iter().cloned(), &options).parse()
}

/// Relies on naga::valid::Validator::validate: checks the module and, on
/// success, returns the analysis information back-ends need.
#[verifier::external_body]
pub(crate) fn validate(validator: &mut naga::valid::Validator, module: &naga::Module) -> Result<
    naga::valid::ModuleInfo,
    naga::WithSpan<naga::valid::ValidationError>,
> {
    validator.validate(module)
}

/// Relies on naga::back::spv::Writer::write, with no per-pipeline options and
/// no debug information: renders the module as SPIR-V, appending the words to
/// `out`.
#[verifier::external_body]
pub(crate) fn spv_write(
    writer: &mut naga::back::spv::Writer,
    module: &naga::Module,
    info: &naga::valid::ModuleInfo,
    out: &mut Vec<u32>,
) -> Result<(), naga::back::spv::Error> {
    writer.write(module, info, None, &None, out)
}

/// Relies on naga::back::wgsl::Writer::{new, write}, with no writer flags:
/// renders the module as WGSL text through the reusable scratch sink,
/// appending the UTF-8 bytes to `out`.
#[verifier::external_body]
pub(crate) fn wgsl_write(
    module: &naga::Module,
    info: &naga::valid::ModuleInfo,
    sink: &mut String,
    out: &mut Vec<u8>,
) -> Result<(), naga::back::wgsl::Error> {
    sink.clear();
    let mut writer = naga::back::wgsl::Writer::new(
        &mut *sink,
        naga::back::wgsl::WriterFlags::empty(),
    );
    writer.write(module, info)?;
    out.extend_from_slice(sink.as_bytes());
    Ok(())
}

/// Relies on naga::back::msl::Writer::{new, write}, with the default MSL
/// options and pipeline options: renders the module as MSL text through the
/// reusable scratch sink, appending the UTF-8 bytes to `out`.
#[verifier::external_body]
pub(crate) fn msl_write(
    module: &naga::Module,
    info: &naga::valid::ModuleInfo,
    sink: &mut String,
    out: &mut Vec<u8>,
) -> Result<(), naga::back::msl::Error> {
    sink.clear();
    let mut writer = naga::back::msl::Writer::new(&mut *sink);
    writer.write(
        module,
        info,
        &naga::back::msl::Options::default(),
        &naga::back::msl::PipelineOptions::default(),
    )?;
    out.extend_from_slice(sink.as_bytes());
    Ok(())
}

/// Relies on naga::back::glsl::Options and its Default: the GLSL back-end
/// configuration the converter uses, an `es` target of the given version with
/// no writer flags.
#[verifier::external_body]
pub(crate) fn glsl_options(version: u16) -> naga::back::glsl::Options {
    naga::back::glsl::Options {
        version: naga::back::glsl::Version::new_gles(version),
        writer_flags: naga::back::glsl::WriterFlags::empty(),
        ..Default::default()
    }
}

/// Relies on naga::back::glsl::PipelineOptions: the per-call GLSL back-end
/// configuration, naming the entry point and its stage, with no multiview
/// rendering.
#[verifier::external_body]
pub(crate) fn glsl_pipeline_options(stage: Stage, entry_point: &str) -> naga::back::glsl::PipelineOptions {
    naga::back::glsl::PipelineOptions {
        shader_stage: to_naga_stage(stage),
        entry_point: entry_point.to_string(),
        multiview: None,
    }
}

/// Relies on naga::back::glsl::Writer::{new, write}: renders the
/// module as GLSL text for the given stage, entry point and `es` language
/// version, with no writer flags and otherwise default options, through the
/// reusable scratch sink, appending the UTF-8 bytes to `out`.
#[verifier::external_body]
pub(crate) fn glsl_write(
    module: &naga::Module,
    info: &naga::valid::ModuleInfo,
    stage: Stage,
    entry_point: &str,
    version: u16,
    sink: &mut String,
    out: &mut Vec<u8>,
) -> Result<(), naga::back::glsl::Error> {
    let options = glsl_options(version);
    let pipeline_options = glsl_pipeline_options(stage, entry_point);
    sink.clear();
    let mut writer = naga::back::glsl::Writer::new(
        &mut *sink,
        module,
        info,
        &options,
        &pipeline_options,
        Default::default(),
    )?;
    writer.write()?;
    out.extend_from_slice(sink.as_bytes());
    Ok(())
}

} // verus!
