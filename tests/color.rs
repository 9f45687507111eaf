use ray_tracing_in_one_weekend::color::{pack_rgb, unpack_rgb, CHANNEL_LEVELS};

#[test]
fn pack_puts_red_highest() {
    assert_eq!(pack_rgb(255, 128, 0), 0xFF8000);
    assert_eq!(pack_rgb(1, 2, 3), 0x010203);
}

#[test]
fn pack_black_and_white() {
    assert_eq!(pack_rgb(0, 0, 0), 0);
    assert_eq!(pack_rgb(255, 255, 255), 0xFFFFFF);
}

#[test]
fn unpack_reads_each_channel() {
    assert_eq!(unpack_rgb(0x123456), (0x12, 0x34, 0x56));
}

#[test]
fn unpack_ignores_bits_above_the_pixel() {
    assert_eq!(unpack_rgb(0xFFFF_FFFF), (255, 255, 255));
    assert_eq!(unpack_rgb(0xAB00_0000), (0, 0, 0));
}

#[test]
fn pack_then_unpack_gives_the_channels_back() {
    for r in [0u32, 1, 127, 128, 254, 255] {
        for g in [0u32, 7, 200, 255] {
            for b in [0u32, 99, 255] {
                let p = pack_rgb(r, g, b);
                assert!(p < 1 << 24);
                assert_eq!(unpack_rgb(p), (r, g, b));
            }
        }
    }
}

#[test]
fn every_channel_stays_below_the_level_count() {
    for p in [0u32, 0x00FF_FFFF, 0x0180_7F01, u32::MAX] {
        let (r, g, b) = unpack_rgb(p);
        assert!(r < CHANNEL_LEVELS && g < CHANNEL_LEVELS && b < CHANNEL_LEVELS);
    }
}
