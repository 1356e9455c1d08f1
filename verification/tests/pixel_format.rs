use iosurface_gl::config::{GlConfig, GlError, Profile};
use iosurface_gl::pixel_format::{choose_profile, PixelFormat, PFA_DOUBLE_BUFFER};

fn config() -> GlConfig {
    GlConfig {
        version: (3, 2),
        profile: Profile::Core,
        red_bits: 8,
        blue_bits: 9,
        green_bits: 10,
        alpha_bits: 7,
        depth_bits: 24,
        stencil_bits: 6,
        samples: None,
        vsync: false,
    }
}

#[test]
fn core_3_2_is_offered() {
    assert_eq!(choose_profile((3, 2), Profile::Core), Ok(0x3200));
}

#[test]
fn core_above_3_2_is_the_4_1_profile() {
    assert_eq!(choose_profile((3, 3), Profile::Core), Ok(0x4100));
    assert_eq!(choose_profile((4, 0), Profile::Core), Ok(0x4100));
    assert_eq!(choose_profile((4, 6), Profile::Core), Ok(0x4100));
    assert_eq!(choose_profile((255, 255), Profile::Core), Ok(0x4100));
}

#[test]
fn compatibility_below_3_2_is_the_legacy_profile() {
    assert_eq!(choose_profile((3, 1), Profile::Compatibility), Ok(0x1000));
    assert_eq!(choose_profile((2, 255), Profile::Compatibility), Ok(0x1000));
    assert_eq!(choose_profile((0, 0), Profile::Compatibility), Ok(0x1000));
}

#[test]
fn other_versions_are_not_supported() {
    let refused = Err(GlError::VersionNotSupported);
    assert_eq!(choose_profile((3, 2), Profile::Compatibility), refused);
    assert_eq!(choose_profile((4, 1), Profile::Compatibility), refused);
    assert_eq!(choose_profile((3, 1), Profile::Core), refused);
    assert_eq!(choose_profile((2, 9), Profile::Core), refused);
}

#[test]
fn attributes_without_multisampling() {
    let format = PixelFormat::new(0x3200, config());
    assert_eq!(
        format.attributes(),
        vec![99, 0x3200, 8, 27, 11, 7, 12, 24, 13, 6, 73, 0]
    );
}

#[test]
fn attributes_with_multisampling() {
    let mut config = config();
    config.samples = Some(4);
    let format = PixelFormat::new(0x4100, config);
    assert_eq!(
        format.attributes(),
        vec![99, 0x4100, 8, 27, 11, 7, 12, 24, 13, 6, 73, 59, 55, 1, 56, 4, 0]
    );
}

#[test]
fn no_double_buffer_is_asked_for() {
    assert!(!PixelFormat::new(0x3200, config()).attributes().contains(&PFA_DOUBLE_BUFFER));
}

#[test]
fn the_largest_colour_size() {
    let mut config = config();
    config.red_bits = 85;
    config.blue_bits = 85;
    config.green_bits = 85;
    assert_eq!(PixelFormat::new(0x3200, config).color_size, 255);
}
