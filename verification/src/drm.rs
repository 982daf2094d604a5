//! The DRM format description of the `drm_fourcc` crate, as far as this
//! library relies on it.
//!
//! Nothing in this file is proved. Each item states what the source of
//! `drm_fourcc` shows, and the conversions of a pixel format are verified
//! against these statements.

use vstd::prelude::*;
use drm_fourcc::{DrmFormat, DrmFourcc, DrmModifier, UnrecognizedFourcc};

verus! {

/// `drm_fourcc::DrmFourcc`: one of the codes that the DRM format list knows.
#[verifier::external_type_specification]
#[verifier::external_body]
pub struct ExDrmFourcc(drm_fourcc::DrmFourcc);

/// `drm_fourcc::DrmModifier`: a layout modifier, known by name or not.
#[verifier::external_type_specification]
#[verifier::external_body]
pub struct ExDrmModifier(drm_fourcc::DrmModifier);

/// `drm_fourcc::DrmFormat`: a code of the list together with a modifier.
#[verifier::external_type_specification]
#[verifier::external_body]
pub struct ExDrmFormat(drm_fourcc::DrmFormat);

/// `drm_fourcc::UnrecognizedFourcc`: the error that carries a code which
/// the DRM format list does not know.
#[verifier::external_type_specification]
#[verifier::external_body]
pub struct ExUnrecognizedFourcc(drm_fourcc::UnrecognizedFourcc);

/// The number that a listed code stands for: the value of `code as u32`.
pub uninterp spec fn fourcc_code(code: DrmFourcc) -> u32;

/// The 64 bits that a modifier stands for: the value of `u64::from(modifier)`.
pub uninterp spec fn modifier_bits(modifier: DrmModifier) -> u64;

/// The field `code` of a format description.
pub uninterp spec fn format_code(format: DrmFormat) -> DrmFourcc;

/// The field `modifier` of a format description.
pub uninterp spec fn format_modifier(format: DrmFormat) -> DrmModifier;

/// The number that the error carries: its only field.
pub uninterp spec fn unrecognized_code(error: UnrecognizedFourcc) -> u32;

/// A number is recognized where some code of the DRM format list stands for
/// it.
pub open spec fn is_recognized(fourcc: u32) -> bool {
    exists|code: DrmFourcc| fourcc_code(code) == fourcc
}

/// `DrmFourcc::try_from(u32)`. The source matches the number against the
/// value of every variant of the enumeration: it answers with the variant
/// that stands for the number where there is one, and otherwise with an
/// error that holds the number.
#[verifier::external_body]
pub(crate) fn fourcc_from_u32(fourcc: u32) -> (found: Result<DrmFourcc, UnrecognizedFourcc>)
    ensures
        found is Ok <==> is_recognized(fourcc),
        found matches Ok(code) ==> fourcc_code(code) == fourcc,
        found matches Err(error) ==> unrecognized_code(error) == fourcc,
{
    DrmFourcc::try_from(fourcc)
}

/// `DrmModifier::from(u64)`. The source picks the named modifier whose
/// constant equals the bits, or keeps the bits in `Unrecognized`: either
/// way the modifier converts back to the same bits.
#[verifier::external_body]
pub(crate) fn modifier_from_u64(bits: u64) -> (modifier: DrmModifier)
    ensures
        modifier_bits(modifier) == bits,
{
    DrmModifier::from(bits)
}

/// The struct literal of `DrmFormat`, whose two fields are public.
#[verifier::external_body]
pub(crate) fn drm_format(code: DrmFourcc, modifier: DrmModifier) -> (format: DrmFormat)
    ensures
        format_code(format) == code,
        format_modifier(format) == modifier,
{
    DrmFormat { code, modifier }
}

/// The cast of the field `code` to `u32`: the enumeration is `repr(u32)`,
/// and each variant's value is the number it stands for.
#[verifier::external_body]
pub(crate) fn fourcc_of(format: &DrmFormat) -> (fourcc: u32)
    ensures
        fourcc == fourcc_code(format_code(*format)),
{
    format.code as u32
}

/// `u64::from(DrmModifier)`, on the field `modifier`.
#[verifier::external_body]
pub(crate) fn modifier_of(format: &DrmFormat) -> (bits: u64)
    ensures
        bits == modifier_bits(format_modifier(*format)),
{
    u64::from(format.modifier)
}

} // verus!
