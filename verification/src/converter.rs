//! The reusable converter context and its pipeline dispatchers.
//!
//! The validator and the back-ends are black-box collaborators: whether a
//! parsed module validates, and what bytes or words a validated module
//! renders to, is decided inside them, behind an intermediate module that
//! this crate holds only as an opaque value. The dispatch contracts
//! therefore pin down everything on this side of that value — which inputs
//! are rejected before the pipeline runs, which error names which stage,
//! what each buffer and the reported length hold after every outcome — and
//! the decisions made inside the collaborators are exercised by the test
//! suite rather than stated as contracts.
use vstd::prelude::*;

use crate::error::ConvertError;
use crate::naga_api;
use crate::stage;
use crate::stage::Stage;

verus! {

/// The initial capacity of each reusable output buffer, chosen to amortize
/// reallocation across repeated translations of similar size.
pub const INITIAL_BUFFER_CAPACITY: usize = 0x1000;

/// The GLSL `es` language version the GLSL back-end emits.
pub const GLSL_OUTPUT_VERSION: u16 = 320;

/// Which of the two reusable output buffers the most recent successful
/// dispatch wrote.
#[derive(Clone, Copy, Debug, PartialEq, Eq, Structural)]
pub enum OutputKind {
    /// No dispatch has succeeded yet on this converter.
    Nothing,
    /// The binary word buffer holds the most recent result.
    Binary,
    /// The text byte buffer holds the most recent result.
    Text,
}

/// A reusable shader converter.
///
/// It owns one front-end per source format, the validator, the one back-end
/// that benefits from retained state, and two reusable output buffers. Each
/// translation call clears the buffer matching the target format's native
/// kind, refills it, and reports its length; the contents stay valid until
/// the next translation call on the same converter. The buffers and the text
/// back-ends' scratch sink are cleared, never deallocated, so repeated
/// same-size conversions allocate nothing after warm-up. Failure of one call
/// does not poison the converter: later, independent calls see fresh state.
pub struct naga_converter_t {
    glsl_in: naga::front::glsl::Frontend,
    wgsl_in: naga::front::wgsl::Frontend,
    validator: naga::valid::Validator,
    spv_out: naga::back::spv::Writer,
    temp_spv: Vec<u32>,
    temp_string: String,
    temp_text: Vec<u8>,
    last_output: OutputKind,
}

impl naga_converter_t {
    /// The words in the reusable binary output buffer.
    pub closed spec fn binary_view(&self) -> Seq<u32> {
        self.temp_spv@
    }

    /// The UTF-8 bytes in the reusable text output buffer.
    pub closed spec fn text_view(&self) -> Seq<u8> {
        self.temp_text@
    }

    /// Which buffer the most recent successful dispatch wrote.
    pub closed spec fn last_kind(&self) -> OutputKind {
        self.last_output
    }

    /// Builds a converter with fresh sub-components and empty output buffers.
    /// Creation never fails: running out of memory aborts the process.
    pub fn new() -> (r: naga_converter_t)
        ensures
            r.binary_view() == Seq::<u32>::empty(),
            r.text_view() == Seq::<u8>::empty(),
            r.last_kind() == OutputKind::Nothing,
    {
        naga_converter_t {
            glsl_in: naga_api::glsl_frontend_new(),
            wgsl_in: naga_api::wgsl_frontend_new(),
            validator: naga_api::validator_new(),
            spv_out: naga_api::spv_writer_new(),
            temp_spv: Vec::with_capacity(INITIAL_BUFFER_CAPACITY),
            temp_string: String::new(),
            temp_text: Vec::with_capacity(INITIAL_BUFFER_CAPACITY),
            last_output: OutputKind::Nothing,
        }
    }

    /// Translates stage-tagged GLSL source into SPIR-V words, depositing them
    /// in the binary buffer and returning their count.
    ///
    /// `UnknownStage` is reported exactly when the stage selector is outside
    /// the documented codes: a contract violation, never silently coerced.
    /// With a valid selector, the parse error is reported exactly when the
    /// front-end does not accept the source for that stage. Parse, validation
    /// and generation failures are kept apart; after a failure the buffer's
    /// content is not meaningful for the host, though the converter stays
    /// usable.
    pub fn convert_glsl_to_spirv(&mut self, source: &str, stage_selector: i32) -> (r: Result<
        usize,
        ConvertError,
    >)
        ensures
            (r == Err::<usize, ConvertError>(ConvertError::UnknownStage)) <==> !stage::valid_stage_selector(
                stage_selector,
            ),
            stage::valid_stage_selector(stage_selector) ==> ((r == Err::<usize, ConvertError>(
                ConvertError::Parse,
            )) <==> !naga_api::glsl_parses(source@, stage::stage_of_selector(stage_selector))),
            r matches Ok(n) ==> n == final(self).binary_view().len() && final(self).last_kind()
                == OutputKind::Binary,
            final(self).text_view() == old(self).text_view(),
            !(r matches Ok(_)) ==> final(self).last_kind() == old(self).last_kind(),
            (r == Err::<usize, ConvertError>(ConvertError::UnknownStage) || r == Err::<
                usize,
                ConvertError,
            >(ConvertError::Parse) || r == Err::<usize, ConvertError>(ConvertError::Validation))
                ==> final(self).binary_view() == old(self).binary_view(),
    {
        let stage = match stage::stage_from_selector(stage_selector) {
            Ok(stage) => stage,
            Err(e) => {
                return Err(e);
            },
        };
        let module = match naga_api::glsl_parse(&mut self.glsl_in, stage, source) {
            Ok(module) => module,
            Err(_) => {
                return Err(ConvertError::Parse);
            },
        };
        let info = match naga_api::validate(&mut self.validator, &module) {
            Ok(info) => info,
            Err(_) => {
                return Err(ConvertError::Validation);
            },
        };
        self.temp_spv.clear();
        match naga_api::spv_write(&mut self.spv_out, &module, &info, &mut self.temp_spv) {
            Ok(_) => {},
            Err(_) => {
                return Err(ConvertError::Generation);
            },
        }
        self.last_output = OutputKind::Binary;
        Ok(self.temp_spv.len())
    }

    /// Translates a SPIR-V word stream into WGSL text, depositing its UTF-8
    /// bytes in the text buffer and returning their count. The parse error is
    /// reported exactly when the front-end does not accept the word stream.
    pub fn convert_spirv_to_wgsl(&mut self, source: &[u32]) -> (r: Result<usize, ConvertError>)
        ensures
            r != Err::<usize, ConvertError>(ConvertError::UnknownStage),
            (r == Err::<usize, ConvertError>(ConvertError::Parse)) <==> !naga_api::spv_parses(
                source@,
            ),
            r matches Ok(n) ==> n == final(self).text_view().len() && final(self).last_kind()
                == OutputKind::Text,
            final(self).binary_view() == old(self).binary_view(),
            !(r matches Ok(_)) ==> final(self).last_kind() == old(self).last_kind(),
            (r == Err::<usize, ConvertError>(ConvertError::Parse) || r == Err::<
                usize,
                ConvertError,
            >(ConvertError::Validation)) ==> final(self).text_view() == old(self).text_view(),
    {
        let module = match naga_api::spv_parse(source) {
            Ok(module) => module,
            Err(_) => {
                return Err(ConvertError::Parse);
            },
        };
        let info = match naga_api::validate(&mut self.validator, &module) {
            Ok(info) => info,
            Err(_) => {
                return Err(ConvertError::Validation);
            },
        };
        self.temp_text.clear();
        match naga_api::wgsl_write(&module, &info, &mut self.temp_string, &mut self.temp_text) {
            Ok(_) => {},
            Err(_) => {
                return Err(ConvertError::Generation);
            },
        }
        self.last_output = OutputKind::Text;
        Ok(self.temp_text.len())
    }

    /// Translates a SPIR-V word stream into MSL text, depositing its UTF-8
    /// bytes in the text buffer and returning their count. The parse error is
    /// reported exactly when the front-end does not accept the word stream.
    pub fn convert_spirv_to_msl(&mut self, source: &[u32]) -> (r: Result<usize, ConvertError>)
        ensures
            r != Err::<usize, ConvertError>(ConvertError::UnknownStage),
            (r == Err::<usize, ConvertError>(ConvertError::Parse)) <==> !naga_api::spv_parses(
                source@,
            ),
            r matches Ok(n) ==> n == final(self).text_view().len() && final(self).last_kind()
                == OutputKind::Text,
            final(self).binary_view() == old(self).binary_view(),
            !(r matches Ok(_)) ==> final(self).last_kind() == old(self).last_kind(),
            (r == Err::<usize, ConvertError>(ConvertError::Parse) || r == Err::<
                usize,
                ConvertError,
            >(ConvertError::Validation)) ==> final(self).text_view() == old(self).text_view(),
    {
        let module = match naga_api::spv_parse(source) {
            Ok(module) => module,
            Err(_) => {
                return Err(ConvertError::Parse);
            },
        };
        let info = match naga_api::validate(&mut self.validator, &module) {
            Ok(info) => info,
            Err(_) => {
                return Err(ConvertError::Validation);
            },
        };
        self.temp_text.clear();
        match naga_api::msl_write(&module, &info, &mut self.temp_string, &mut self.temp_text) {
            Ok(_) => {},
            Err(_) => {
                return Err(ConvertError::Generation);
            },
        }
        self.last_output = OutputKind::Text;
        Ok(self.temp_text.len())
    }

    /// Translates WGSL source into GLSL text for the entry point named
    /// `entry_point`, depositing the UTF-8 bytes in the text buffer and
    /// returning their count.
    ///
    /// The stage is inferred from the entry-point name's prefix and an
    /// unrecognized prefix defaults to compute, so this dispatch never
    /// reports `UnknownStage`. The parse error is reported exactly when the
    /// front-end does not accept the source.
    pub fn convert_wgsl_to_glsl(&mut self, source: &str, entry_point: &str) -> (r: Result<
        usize,
        ConvertError,
    >)
        ensures
            r != Err::<usize, ConvertError>(ConvertError::UnknownStage),
            (r == Err::<usize, ConvertError>(ConvertError::Parse)) <==> !naga_api::wgsl_parses(
                source@,
            ),
            r matches Ok(n) ==> n == final(self).text_view().len() && final(self).last_kind()
                == OutputKind::Text,
            final(self).binary_view() == old(self).binary_view(),
            !(r matches Ok(_)) ==> final(self).last_kind() == old(self).last_kind(),
            (r == Err::<usize, ConvertError>(ConvertError::Parse) || r == Err::<
                usize,
                ConvertError,
            >(ConvertError::Validation)) ==> final(self).text_view() == old(self).text_view(),
    {
        let module = match naga_api::wgsl_parse(&mut self.wgsl_in, source) {
            Ok(module) => module,
            Err(_) => {
                return Err(ConvertError::Parse);
            },
        };
        let info = match naga_api::validate(&mut self.validator, &module) {
            Ok(info) => info,
            Err(_) => {
                return Err(ConvertError::Validation);
            },
        };
        let stage = stage::stage_for_entry_point(entry_point);
        self.temp_text.clear();
        match naga_api::glsl_write(
            &module,
            &info,
            stage,
            entry_point,
            GLSL_OUTPUT_VERSION,
            &mut self.temp_string,
            &mut self.temp_text,
        ) {
            Ok(_) => {},
            Err(_) => {
                return Err(ConvertError::Generation);
            },
        }
        self.last_output = OutputKind::Text;
        Ok(self.temp_text.len())
    }

    /// Reports the length of the most recent successful dispatch's result:
    /// the deferred half of the two-phase size-then-fetch protocol. Before
    /// any successful dispatch it reports zero.
    pub fn query_last_result_length(&self) -> (r: usize)
        ensures
            r == (match self.last_kind() {
                OutputKind::Nothing => 0,
                OutputKind::Binary => self.binary_view().len(),
                OutputKind::Text => self.text_view().len(),
            }),
    {
        match self.last_output {
            OutputKind::Nothing => 0,
            OutputKind::Binary => self.temp_spv.len(),
            OutputKind::Text => self.temp_text.len(),
        }
    }

    /// Which buffer the most recent successful dispatch wrote.
    pub fn last_output_kind(&self) -> (r: OutputKind)
        ensures
            r == self.last_kind(),
    {
        self.last_output
    }

    /// Read-only access to the binary output buffer, for copy-out. Its
    /// contents stay valid until the next translation call on this converter.
    pub fn binary_result(&self) -> (r: &Vec<u32>)
        ensures
            r@ == self.binary_view(),
    {
        &self.temp_spv
    }

    /// Read-only access to the text output buffer, for copy-out. Its contents
    /// stay valid until the next translation call on this converter.
    pub fn text_result(&self) -> (r: &Vec<u8>)
        ensures
            r@ == self.text_view(),
    {
        &self.temp_text
    }
}

} // verus!
