//! A single pixel format.

use vstd::prelude::*;
use vstd::std_specs::convert::{FromSpecImpl, TryFromSpecImpl};
use drm_fourcc::{DrmFormat, UnrecognizedFourcc};
use crate::drm::{
    drm_format, format_code, format_modifier, fourcc_code, fourcc_from_u32, fourcc_of,
    is_recognized, modifier_bits, modifier_from_u64, modifier_of, unrecognized_code,
};

verus! {

/// The pixel format that a DRM format description stands for: the number of
/// its code and the bits of its modifier.
pub open spec fn pixel_format_of(format: DrmFormat) -> PixelFormat {
    PixelFormat {
        fourcc: fourcc_code(format_code(format)),
        modifier: modifier_bits(format_modifier(format)),
    }
}

/// What converting `pixel` to a DRM format description may answer: a
/// description that stands for `pixel` where the code is recognized, and
/// otherwise the error that carries the code.
pub open spec fn describes(
    pixel: PixelFormat,
    converted: Result<DrmFormat, UnrecognizedFourcc>,
) -> bool {
    match converted {
        Ok(format) => is_recognized(pixel.fourcc) && pixel_format_of(format) == pixel,
        Err(error) => !is_recognized(pixel.fourcc) && unrecognized_code(error) == pixel.fourcc,
    }
}

/// A pixel layout: the four-character code of the layout family and the
/// modifier that says how the pixels are tiled or compressed in memory.
///
/// Any pair is a value of this type. Whether the code is one that the DRM
/// format list knows is only asked when the value is converted.
#[derive(Clone, Copy, PartialEq, Eq, Structural)]
pub struct PixelFormat {
    pub fourcc: u32,
    pub modifier: u64,
}

impl PixelFormat {
    /// Pairs a code with a modifier. Nothing is checked, and the format
    /// holds exactly what it was given.
    pub fn new(fourcc: u32, modifier: u64) -> (format: Self)
        ensures
            format.fourcc == fourcc,
            format.modifier == modifier,
    {
        PixelFormat { fourcc, modifier }
    }

    /// The four-character code.
    pub fn fourcc(&self) -> (fourcc: u32)
        ensures
            fourcc == self.fourcc,
    {
        self.fourcc
    }

    /// Replaces the four-character code and keeps the modifier.
    pub fn set_fourcc(&mut self, fourcc: u32)
        ensures
            final(self).fourcc == fourcc,
            final(self).modifier == old(self).modifier,
    {
        self.fourcc = fourcc;
    }

    /// The layout modifier.
    pub fn modifier(&self) -> (modifier: u64)
        ensures
            modifier == self.modifier,
    {
        self.modifier
    }

    /// Replaces the layout modifier and keeps the code.
    pub fn set_modifier(&mut self, modifier: u64)
        ensures
            final(self).fourcc == old(self).fourcc,
            final(self).modifier == modifier,
    {
        self.modifier = modifier;
    }
}

impl TryFrom<PixelFormat> for DrmFormat {
    type Error = UnrecognizedFourcc;

    /// Describes the pixel format in DRM terms. This succeeds exactly where
    /// the code is one of the DRM format list; an unknown code comes back
    /// inside the error.
    fn try_from(value: PixelFormat) -> (converted: Result<DrmFormat, UnrecognizedFourcc>)
        ensures
            describes(value, converted),
    {
        match fourcc_from_u32(value.fourcc) {
            Ok(code) => {
                let modifier = modifier_from_u64(value.modifier);
                Ok(drm_format(code, modifier))
            },
            Err(error) => Err(error),
        }
    }
}

/// The answer of `try_from` is stated as a relation, `describes`: a format
/// description is a value of another crate, and no spec function builds one.
impl TryFromSpecImpl<PixelFormat> for DrmFormat {
    open spec fn obeys_try_from_spec() -> bool {
        false
    }

    open spec fn try_from_spec(value: PixelFormat) -> Result<DrmFormat, UnrecognizedFourcc> {
        arbitrary()
    }
}

impl From<DrmFormat> for PixelFormat {
    /// The pixel format that the description stands for. Every description
    /// has one.
    fn from(f: DrmFormat) -> (pixel: PixelFormat)
        ensures
            pixel == pixel_format_of(f),
    {
        PixelFormat::new(fourcc_of(&f), modifier_of(&f))
    }
}

impl FromSpecImpl<DrmFormat> for PixelFormat {
    open spec fn obeys_from_spec() -> bool {
        true
    }

    open spec fn from_spec(f: DrmFormat) -> PixelFormat {
        pixel_format_of(f)
    }
}

/// Whether two format descriptions are equal as `drm_fourcc` compares them:
/// by the number of the code and by the bits of the modifier.
pub open spec fn same_description(first: DrmFormat, second: DrmFormat) -> bool {
    &&& fourcc_code(format_code(first)) == fourcc_code(format_code(second))
    &&& modifier_bits(format_modifier(first)) == modifier_bits(format_modifier(second))
}

/// A format description that is turned into a pixel format and back comes
/// back: the way back succeeds, and what it answers equals the description
/// that was started from.
pub proof fn lemma_description_round_trip(
    format: DrmFormat,
    back: Result<DrmFormat, UnrecognizedFourcc>,
)
    requires
        describes(pixel_format_of(format), back),
    ensures
        back matches Ok(again) && same_description(again, format),
{
    assert(fourcc_code(format_code(format)) == pixel_format_of(format).fourcc);
}

/// A code that the DRM format list does not know is refused, and the error
/// carries that very code, whatever the modifier is.
pub proof fn lemma_unrecognized_code_is_refused(
    pixel: PixelFormat,
    converted: Result<DrmFormat, UnrecognizedFourcc>,
)
    requires
        !is_recognized(pixel.fourcc),
        describes(pixel, converted),
    ensures
        converted matches Err(error) && unrecognized_code(error) == pixel.fourcc,
{
}

} // verus!
