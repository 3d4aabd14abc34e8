#![allow(unused_imports)]

use emurs_kernel::video::{
    EmuRsBgrColor, EmuRsColor, EmuRsColorFormatBgr565, EmuRsColorFormatRgb111, EmuRsColorFormatRgb222,
    EmuRsColorFormatRgb333, EmuRsColorFormatRgb444, EmuRsColorFormatRgb555, EmuRsColorFormatRgb565,
    EmuRsColorFormatRgb666, EmuRsColorFormatRgb777, EmuRsColorFormatRgb888, EmuRsRgbColor,
};

#[test]
fn test_color_conversion() {
    (0..u8::MAX).for_each(|num| {
        let color = EmuRsColorFormatRgb888::new(num, num, num)
            .convert_rgb::<EmuRsColorFormatRgb777>()
            .convert_rgb::<EmuRsColorFormatRgb666>()
            .convert_rgb::<EmuRsColorFormatRgb565>()
            .convert_rgb::<EmuRsColorFormatRgb555>()
            .convert_rgb::<EmuRsColorFormatRgb444>()
            .convert_rgb::<EmuRsColorFormatRgb333>()
            .convert_rgb::<EmuRsColorFormatRgb222>()
            .convert_rgb::<EmuRsColorFormatRgb111>();

        println!("{}: {:?}", num, color);
    });
}

#[test]
fn test_new_packs_channels() {
    let c = EmuRsColorFormatRgb565::new(31, 63, 31);
    assert_eq!(c.data, 0xffff);
    assert_eq!(c.red(), 31);
    assert_eq!(c.green(), 63);
    assert_eq!(c.blue(), 31);

    let c = EmuRsColorFormatRgb888::new(10, 20, 30);
    assert_eq!(c.raw(), (10 << 16) | (20 << 8) | 30);
}

#[test]
fn test_convert_rgb_scales_and_caps() {
    // Each 8-bit channel is multiplied by 256 / target range and capped at
    // the target range, so 10, 20 and 30 all saturate their 5- or 6-bit
    // targets; the red cap of 32 then overflows the 5-bit field to zero.
    let c: EmuRsColorFormatRgb565 =
        EmuRsColorFormatRgb888::new(10, 20, 30).convert_rgb::<EmuRsColorFormatRgb565>();
    assert_eq!(c.data, 2080);
}

#[test]
fn test_convert_bgr_lands_in_bgr_slots() {
    let c: EmuRsColorFormatBgr565 =
        EmuRsColorFormatRgb888::new(10, 20, 30).convert_bgr::<EmuRsColorFormatBgr565>();
    assert_eq!(c.data, 2080);
    assert_eq!(c.raw(), 2080);
}

#[test]
fn test_convert_same_range_passes_through() {
    let c = EmuRsColorFormatRgb555::new(1, 2, 3);
    let d: EmuRsColorFormatRgb555 = c.convert_rgb::<EmuRsColorFormatRgb555>();
    assert_eq!(c, d);
    assert_eq!(d.data, (1 << 10) | (2 << 5) | 3);
}

#[test]
fn test_channel_ranges() {
    assert_eq!(EmuRsColorFormatRgb565::rmax(), 32);
    assert_eq!(EmuRsColorFormatRgb565::gmax(), 64);
    assert_eq!(EmuRsColorFormatRgb565::bmax(), 32);
    assert_eq!(EmuRsColorFormatRgb888::rmax(), 256);
    assert_eq!(EmuRsColorFormatRgb111::bmax(), 2);
}

#[test]
fn test_bgr_channels_land_in_bgr_slots() {
    let c = EmuRsColorFormatBgr565::new(1, 2, 3);
    assert_eq!(c.data, (1 << 11) | (2 << 5) | 3);
    assert_eq!(c.channel_blue(), 1);
    assert_eq!(c.channel_green(), 2);
    assert_eq!(c.channel_red(), 3);
    assert_eq!(EmuRsColorFormatBgr565::bmax(), 32);
}

#[test]
fn test_convert_chain_exact() {
    let black = EmuRsColorFormatRgb888::new(0, 0, 0)
        .convert_rgb::<EmuRsColorFormatRgb777>()
        .convert_rgb::<EmuRsColorFormatRgb666>()
        .convert_rgb::<EmuRsColorFormatRgb565>()
        .convert_rgb::<EmuRsColorFormatRgb555>()
        .convert_rgb::<EmuRsColorFormatRgb444>()
        .convert_rgb::<EmuRsColorFormatRgb333>()
        .convert_rgb::<EmuRsColorFormatRgb222>()
        .convert_rgb::<EmuRsColorFormatRgb111>();
    assert_eq!(black.data, 0);

    let bright = EmuRsColorFormatRgb888::new(1, 1, 1)
        .convert_rgb::<EmuRsColorFormatRgb777>()
        .convert_rgb::<EmuRsColorFormatRgb666>()
        .convert_rgb::<EmuRsColorFormatRgb565>()
        .convert_rgb::<EmuRsColorFormatRgb555>()
        .convert_rgb::<EmuRsColorFormatRgb444>()
        .convert_rgb::<EmuRsColorFormatRgb333>()
        .convert_rgb::<EmuRsColorFormatRgb222>()
        .convert_rgb::<EmuRsColorFormatRgb111>();
    assert_eq!(bright.data, 8);
}
