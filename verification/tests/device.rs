use kaiga::device::Device;
use kaiga::error::Error;
use kaiga::geometry::PrimitiveKind;
use kaiga::shader::Capabilities;
use kaiga::shader::ShaderVariant;
use kaiga::texture::Texture;

fn caps(supports_120: bool, supports_150: bool, reported: &str) -> Capabilities {
    Capabilities {
        supports_glsl_120: supports_120,
        supports_glsl_150: supports_150,
        reported_version: String::from(reported),
    }
}

#[test]
fn tier_12_selects_the_120_variant_for_both_sets() {
    let device = Device::new(caps(true, false, "GLSL 1.20")).unwrap();
    assert_eq!(device.rect_geometry.variant, ShaderVariant::Glsl120);
    assert_eq!(device.image_geometry.variant, ShaderVariant::Glsl120);
    assert_eq!(device.rect_geometry.kind, PrimitiveKind::Rectangle);
    assert_eq!(device.image_geometry.kind, PrimitiveKind::Image);
}

#[test]
fn tier_15_selects_the_150_variant_for_both_sets() {
    let device = Device::new(caps(true, true, "GLSL 1.50")).unwrap();
    assert_eq!(device.rect_geometry.variant, ShaderVariant::Glsl150);
    assert_eq!(device.image_geometry.variant, ShaderVariant::Glsl150);
}

#[test]
fn unknown_tier_fails_with_unsupported_capability() {
    let result = Device::new(caps(false, false, "GLSL 1.10"));
    match result {
        Err(Error::UnsupportedCapability(reported)) => assert_eq!(reported, "GLSL 1.10"),
        other => panic!("expected UnsupportedCapability, got {:?}", other),
    }
}

#[test]
fn create_texture_validates_pixel_length() {
    let mut device = Device::new(caps(true, true, "GLSL 1.50")).unwrap();

    let red_8x8: Vec<u8> = [255u8, 0, 0, 255].repeat(64);
    let texture = device.create_texture(&red_8x8, (8, 8)).unwrap();
    assert_eq!((texture.id, texture.width, texture.height), (0, 8, 8));

    let short_buffer: Vec<u8> = vec![255u8; 16];
    match device.create_texture(&short_buffer, (8, 8)) {
        Err(Error::ResourceCreationFailure) => {}
        other => panic!("expected ResourceCreationFailure, got {:?}", other),
    }

    let second = device.create_texture(&red_8x8, (8, 8)).unwrap();
    assert_eq!(second.id, 1, "a rejected upload must not consume a handle");
}

#[test]
fn texture_new_delegates_to_the_device() {
    let mut device = Device::new(caps(true, true, "GLSL 1.50")).unwrap();
    let checker_2x2: Vec<u8> = vec![
        255, 255, 255, 255, 0, 0, 0, 255,
        0, 0, 0, 255, 255, 255, 255, 255,
    ];
    let texture = Texture::new(&mut device, &checker_2x2, (2, 2)).unwrap();
    assert_eq!((texture.id, texture.width, texture.height), (0, 2, 2));
    assert_eq!(device.next_texture_id, 1);
}
