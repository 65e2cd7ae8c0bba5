use vstd::prelude::*;
use vstd::string::StringSliceAdditionalSpecFns;

use crate::error::ConvertError;

verus! {

/// The pipeline role a shader program is compiled for.
#[derive(Clone, Copy, Debug, PartialEq, Eq, Structural)]
pub enum Stage {
    Vertex,
    Fragment,
    Compute,
}

/// The explicit stage selectors the boundary documents: 1 for vertex,
/// 2 for fragment, 3 for compute.
pub open spec fn valid_stage_selector(selector: i32) -> bool {
    selector == 1 || selector == 2 || selector == 3
}

/// The stage a documented selector denotes.
pub open spec fn stage_of_selector(selector: i32) -> Stage
    recommends
        valid_stage_selector(selector),
{
    if selector == 1 {
        Stage::Vertex
    } else if selector == 2 {
        Stage::Fragment
    } else {
        Stage::Compute
    }
}

/// Maps an explicit stage selector to its stage. Any selector outside the
/// documented domain is a contract violation, never silently coerced.
pub fn stage_from_selector(selector: i32) -> (r: Result<Stage, ConvertError>)
    ensures
        valid_stage_selector(selector) ==> r == Ok::<Stage, ConvertError>(
            stage_of_selector(selector),
        ),
        !valid_stage_selector(selector) ==> r == Err::<Stage, ConvertError>(
            ConvertError::UnknownStage,
        ),
{
    match selector {
        1 => Ok(Stage::Vertex),
        2 => Ok(Stage::Fragment),
        3 => Ok(Stage::Compute),
        _ => Err(ConvertError::UnknownStage),
    }
}

/// The UTF-8 bytes of the entry-point prefix that marks a vertex stage, "vs_".
pub open spec fn vertex_prefix() -> Seq<u8> {
    seq!['v' as u8, 's' as u8, '_' as u8]
}

/// The UTF-8 bytes of the entry-point prefix that marks a fragment stage, "fs_".
pub open spec fn fragment_prefix() -> Seq<u8> {
    seq!['f' as u8, 's' as u8, '_' as u8]
}

/// Whether `prefix` opens `name`.
pub open spec fn has_prefix(name: Seq<u8>, prefix: Seq<u8>) -> bool {
    prefix.len() <= name.len() && name.subrange(0, prefix.len() as int) == prefix
}

/// The name-based inference policy: a vertex-prefixed name maps to vertex, a
/// fragment-prefixed name to fragment, and anything else defaults to compute.
/// The default is deliberate: an unrecognized prefix is not an error.
pub open spec fn stage_of_entry_point(name: Seq<u8>) -> Stage {
    if has_prefix(name, vertex_prefix()) {
        Stage::Vertex
    } else if has_prefix(name, fragment_prefix()) {
        Stage::Fragment
    } else {
        Stage::Compute
    }
}

/// Infers the stage from an entry-point name's prefix, defaulting to compute.
pub fn stage_for_entry_point(name: &str) -> (r: Stage)
    ensures
        r == stage_of_entry_point(name.spec_bytes()),
{
    let bytes: &[u8] = name.as_bytes();
    if bytes.len() >= 3 && bytes[0] == 'v' as u8 && bytes[1] == 's' as u8 && bytes[2] == '_' as u8 {
        proof {
            assert(bytes@.subrange(0, 3) =~= vertex_prefix());
        }
        Stage::Vertex
    } else if bytes.len() >= 3 && bytes[0] == 'f' as u8 && bytes[1] == 's' as u8 && bytes[2] == '_' as u8 {
        proof {
            assert(bytes@.subrange(0, 3) =~= fragment_prefix());
            assert(!has_prefix(bytes@, vertex_prefix()));
        }
        Stage::Fragment
    } else {
        proof {
            if has_prefix(bytes@, vertex_prefix()) {
                assert(bytes@[0] == 'v' as u8 && bytes@[1] == 's' as u8 && bytes@[2] == '_' as u8);
            }
            if has_prefix(bytes@, fragment_prefix()) {
                assert(bytes@[0] == 'f' as u8 && bytes@[1] == 's' as u8 && bytes@[2] == '_' as u8);
            }
        }
        Stage::Compute
    }
}

} // verus!
