use camera_pixel_format::PixelFormat;
use drm_fourcc::{DrmFormat, DrmFourcc, DrmModifier, UnrecognizedFourcc};

const NV12: u32 = 842094158;
const XR24: u32 = 875713112;
const SAMSUNG_16_16_TILE: u64 = 288230376151711746;

#[test]
fn new_keeps_code_and_modifier() {
    let format = PixelFormat::new(NV12, 7);
    assert_eq!(format.fourcc(), NV12);
    assert_eq!(format.modifier(), 7);
}

#[test]
fn new_keeps_extreme_values() {
    let low = PixelFormat::new(0, 0);
    assert_eq!(low.fourcc(), 0);
    assert_eq!(low.modifier(), 0);
    let high = PixelFormat::new(u32::MAX, u64::MAX);
    assert_eq!(high.fourcc(), u32::MAX);
    assert_eq!(high.modifier(), u64::MAX);
}

#[test]
fn set_fourcc_changes_only_the_code() {
    let mut format = PixelFormat::new(NV12, 99);
    format.set_fourcc(XR24);
    assert_eq!(format.fourcc(), XR24);
    assert_eq!(format.modifier(), 99);
}

#[test]
fn set_modifier_changes_only_the_modifier() {
    let mut format = PixelFormat::new(NV12, 99);
    format.set_modifier(u64::MAX);
    assert_eq!(format.fourcc(), NV12);
    assert_eq!(format.modifier(), u64::MAX);
}

#[test]
fn formats_are_copied_and_compared_by_value() {
    let first = PixelFormat::new(NV12, 1);
    let mut second = first;
    assert!(first == second);
    second.set_modifier(2);
    assert!(first != second);
    assert_eq!(first.modifier(), 1);
}

#[test]
fn recognized_code_converts_to_description() {
    let converted = DrmFormat::try_from(PixelFormat::new(XR24, 0));
    assert_eq!(
        converted,
        Ok(DrmFormat { code: DrmFourcc::Xrgb8888, modifier: DrmModifier::Linear })
    );
}

#[test]
fn unnamed_modifier_is_kept() {
    let converted = DrmFormat::try_from(PixelFormat::new(NV12, 0x1234)).unwrap();
    assert_eq!(converted.code, DrmFourcc::Nv12);
    assert_eq!(converted.modifier, DrmModifier::Unrecognized(0x1234));
    assert_eq!(u64::from(converted.modifier), 0x1234);
}

#[test]
fn description_converts_to_pixel_format() {
    let format = PixelFormat::from(DrmFormat {
        code: DrmFourcc::Nv12,
        modifier: DrmModifier::Linear,
    });
    assert_eq!(format.fourcc(), NV12);
    assert_eq!(format.modifier(), 0);
    assert!(format == PixelFormat::new(NV12, 0));
}

#[test]
fn description_with_named_modifier_converts_to_its_bits() {
    let format: PixelFormat = DrmFormat {
        code: DrmFourcc::Xrgb8888,
        modifier: DrmModifier::Samsung_16_16_tile,
    }
    .into();
    assert_eq!(format.fourcc(), XR24);
    assert_eq!(format.modifier(), SAMSUNG_16_16_TILE);
}

#[test]
fn description_round_trip() {
    let descriptions = [
        DrmFormat { code: DrmFourcc::Xrgb8888, modifier: DrmModifier::Linear },
        DrmFormat { code: DrmFourcc::Nv12, modifier: DrmModifier::I915_y_tiled },
        DrmFormat { code: DrmFourcc::Yuyv, modifier: DrmModifier::Invalid },
        DrmFormat { code: DrmFourcc::Abgr1555, modifier: DrmModifier::Samsung_16_16_tile },
        DrmFormat { code: DrmFourcc::Big_endian, modifier: DrmModifier::Generic_16_16_tile },
        DrmFormat { code: DrmFourcc::C8, modifier: DrmModifier::Unrecognized(u64::MAX - 1) },
    ];
    for description in descriptions {
        let back = DrmFormat::try_from(PixelFormat::from(description));
        assert_eq!(back, Ok(description));
    }
}

#[test]
fn pixel_format_round_trip() {
    let format = PixelFormat::new(NV12, 0xdead_beef);
    let description = DrmFormat::try_from(format).unwrap();
    assert!(PixelFormat::from(description) == format);
}

#[test]
fn unrecognized_code_is_refused_with_the_code() {
    let refused = DrmFormat::try_from(PixelFormat::new(828601953, 0));
    assert_eq!(refused, Err(UnrecognizedFourcc(828601953)));
    assert_eq!(refused.unwrap_err().0, 828601953);
}

#[test]
fn zero_code_is_refused() {
    let refused = DrmFormat::try_from(PixelFormat::new(0, DrmModifier::Linear.into()));
    assert_eq!(refused, Err(UnrecognizedFourcc(0)));
}

#[test]
fn refusal_does_not_depend_on_the_modifier() {
    for modifier in [0, 1, SAMSUNG_16_16_TILE, u64::MAX] {
        let refused = DrmFormat::try_from(PixelFormat::new(u32::MAX, modifier));
        assert_eq!(refused, Err(UnrecognizedFourcc(u32::MAX)));
    }
}

#[test]
fn try_into_and_into_agree_with_the_conversions() {
    let format = PixelFormat::new(XR24, 0);
    let description: Result<DrmFormat, UnrecognizedFourcc> = format.try_into();
    assert_eq!(description, DrmFormat::try_from(format));
    let again: PixelFormat = description.unwrap().into();
    assert!(again == format);
}
