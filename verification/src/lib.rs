//! A reusable shader cross-compiler bridge built on naga.
//!
//! A [`naga_converter_t`] owns one front-end per source format, one validator,
//! one retained SPIR-V back-end, and two reusable output buffers (one binary,
//! one text). Each translation call runs front-end, validator and back-end in
//! sequence, deposits the result in the matching buffer, and reports its
//! length, so a host that cannot receive dynamically sized values can size a
//! copy-out from the reported length.
#![allow(non_camel_case_types)]

pub mod converter;
pub mod error;
pub mod naga_api;
pub mod stage;

pub use converter::OutputKind;
pub use converter::naga_converter_t;
pub use error::ConvertError;
pub use stage::Stage;
pub use stage::stage_for_entry_point;
pub use stage::stage_from_selector;
