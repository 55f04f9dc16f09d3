use game_renderer::renderer::color::{hex_channels, HexChannels};

fn pack(c: HexChannels) -> u32 {
    ((c.r as u32) << 24) | ((c.g as u32) << 16) | ((c.b as u32) << 8) | (c.a as u32)
}

#[test]
fn hex_white_is_full_on_every_channel() {
    let c = hex_channels(0xFFFFFFFF);
    assert_eq!(c, HexChannels { r: 255, g: 255, b: 255, a: 255 });
}

#[test]
fn hex_splits_rrggbbaa() {
    let c = hex_channels(0xFFF22FFF);
    assert_eq!(c, HexChannels { r: 0xFF, g: 0xF2, b: 0x2F, a: 0xFF });
    let c = hex_channels(0x12345678);
    assert_eq!(c, HexChannels { r: 0x12, g: 0x34, b: 0x56, a: 0x78 });
}

#[test]
fn hex_zero_is_transparent_black() {
    assert_eq!(hex_channels(0), HexChannels { r: 0, g: 0, b: 0, a: 0 });
}

#[test]
fn hex_channels_recompose_to_the_value() {
    for value in [0u32, 1, 0xFF, 0x100, 0xFFF22FFF, 0x80000000, 0xDEADBEEF, u32::MAX] {
        assert_eq!(pack(hex_channels(value)), value);
    }
}

#[test]
fn hex_channel_fractions_match_division_by_255() {
    let c = hex_channels(0xFF00807F);
    assert_eq!(c.r as f32 / 255.0, 1.0);
    assert_eq!(c.g as f32 / 255.0, 0.0);
    assert_eq!(c.b, 0x80);
    assert_eq!(c.a, 0x7F);
}
