//! Color formats and the integer channel conversions between them.
//!
//! Each format packs its red, green and blue channels into one integer.
//! Conversion between two formats rescales every channel by the integer
//! ratio of the two channel ranges and reassembles the result in the
//! target's own layout.

use vstd::prelude::*;

verus! {

/// One channel rescaled from a range of `from` values to a range of `to`
/// values: the value is multiplied by the integer ratio of the ranges and
/// capped at `to`. Equal ranges pass the value through unchanged.
pub open spec fn spec_convert_channel(value: u8, from: usize, to: usize) -> u8 {
    if to == from {
        value
    } else {
        let scaled = (value as int) * ((from as int) / (to as int));
        if scaled <= to {
            scaled as u8
        } else {
            to as u8
        }
    }
}

/// Convert a color channel to some kind of other color channel.
pub fn convert_channel(value: u8, from: usize, to: usize) -> (r: u8)
    requires
        to >= 1,
        (value as int) * ((from as int) / (to as int)) <= usize::MAX,
    ensures
        r == spec_convert_channel(value, from, to),
{
    if to == from {
        value
    } else {
        let factor = from / to;
        let scaled = (value as usize) * factor;
        if scaled <= to {
            #[verifier::truncate] (scaled as u8)
        } else {
            #[verifier::truncate] (to as u8)
        }
    }
}

/// Rescaling one 8-bit channel never overflows the machine word: the ratio
/// of two channel ranges is at most 256.
proof fn lemma_channel_scale_bounded(value: u8, from: usize, to: usize)
    requires
        1 <= to,
        from <= 256,
    ensures
        (value as int) * ((from as int) / (to as int)) <= usize::MAX,
{
    assert(0 <= (from as int) / (to as int) <= from as int) by (nonlinear_arith)
        requires
            to >= 1,
            from >= 0,
    ;
    assert((value as int) * ((from as int) / (to as int)) <= 255 * 256) by (nonlinear_arith)
        requires
            0 <= (from as int) / (to as int) <= 256,
            value <= 255,
    ;
}

/// The backend for a color format: the packed representation and the
/// reading of the color as red, green and blue channels. The conversions
/// between formats are methods of the formats themselves, all with the one
/// contract phrased over this trait's channel readings.
pub trait EmuRsColor: Sized + Copy {
    type InternalRepresentation;

    /// The packed bits of the color.
    spec fn spec_raw(self) -> Self::InternalRepresentation;

    /// The color read as a red channel, out of `spec_rmax()` values.
    spec fn spec_red(self) -> u8;

    /// The color read as a green channel, out of `spec_gmax()` values.
    spec fn spec_green(self) -> u8;

    /// The color read as a blue channel, out of `spec_bmax()` values.
    spec fn spec_blue(self) -> u8;

    /// How many values the red channel can carry.
    spec fn spec_rmax() -> usize;

    /// How many values the green channel can carry.
    spec fn spec_gmax() -> usize;

    /// How many values the blue channel can carry.
    spec fn spec_bmax() -> usize;

    /// The color assembled from these red, green and blue channels, in the
    /// format's own layout.
    spec fn spec_pack_rgb(red: u8, green: u8, blue: u8) -> Self;

    /// Every format carries between one bit and one byte per channel.
    proof fn channel_bounds()
        ensures
            1 <= Self::spec_rmax() <= 256,
            1 <= Self::spec_gmax() <= 256,
            1 <= Self::spec_bmax() <= 256,
    ;

    fn raw(&self) -> (r: Self::InternalRepresentation)
        ensures
            r == self.spec_raw(),
    ;

    fn channel_red(&self) -> (r: u8)
        ensures
            r == self.spec_red(),
    ;

    fn channel_green(&self) -> (r: u8)
        ensures
            r == self.spec_green(),
    ;

    fn channel_blue(&self) -> (r: u8)
        ensures
            r == self.spec_blue(),
    ;

    fn exec_rmax() -> (r: usize)
        ensures
            r == Self::spec_rmax(),
    ;

    fn exec_gmax() -> (r: usize)
        ensures
            r == Self::spec_gmax(),
    ;

    fn exec_bmax() -> (r: usize)
        ensures
            r == Self::spec_bmax(),
    ;

    /// Assembles a color from its red, green and blue channels.
    fn from_channels(red: u8, green: u8, blue: u8) -> (r: Self)
        ensures
            r == Self::spec_pack_rgb(red, green, blue),
    ;
}

/// The backend implementation for a color packed red, green, blue.
pub trait EmuRsRgbColor: EmuRsColor {
    fn new(red: u8, green: u8, blue: u8) -> (r: Self)
        ensures
            r == Self::spec_pack_rgb(red, green, blue),
    ;

    fn red(&self) -> (r: u8)
        ensures
            r == self.spec_red(),
    ;

    fn green(&self) -> (r: u8)
        ensures
            r == self.spec_green(),
    ;

    fn blue(&self) -> (r: u8)
        ensures
            r == self.spec_blue(),
    ;

    fn rmax() -> (r: usize)
        ensures
            r == Self::spec_rmax(),
    ;

    fn gmax() -> (r: usize)
        ensures
            r == Self::spec_gmax(),
    ;

    fn bmax() -> (r: usize)
        ensures
            r == Self::spec_bmax(),
    ;
}

/// The backend implementation for a color packed blue, green, red.
pub trait EmuRsBgrColor: EmuRsColor {
    fn new(blue: u8, green: u8, red: u8) -> (r: Self)
        ensures
            r == Self::spec_pack_rgb(red, green, blue),
    ;

    fn blue(&self) -> (r: u8)
        ensures
            r == self.spec_blue(),
    ;

    fn green(&self) -> (r: u8)
        ensures
            r == self.spec_green(),
    ;

    fn red(&self) -> (r: u8)
        ensures
            r == self.spec_red(),
    ;

    fn bmax() -> (r: usize)
        ensures
            r == Self::spec_bmax(),
    ;

    fn gmax() -> (r: usize)
        ensures
            r == Self::spec_gmax(),
    ;

    fn rmax() -> (r: usize)
        ensures
            r == Self::spec_rmax(),
    ;
}


/// A color with 1 red, 1 green and 1 blue bits packed into one `u8`.
#[derive(Clone, Copy, Debug, Default, PartialEq, Eq, Structural)]
pub struct EmuRsColorFormatRgb111 {
    pub data: u8,
}

impl EmuRsColorFormatRgb111 {
    /// The same color in another format, every channel rescaled to the
    /// target's range and packed in the target's own layout.
    pub fn convert_rgb<COLOR: EmuRsColor>(&self) -> (r: COLOR)
        ensures
            r == COLOR::spec_pack_rgb(
                spec_convert_channel(self.spec_red(), Self::spec_rmax(), COLOR::spec_rmax()),
                spec_convert_channel(self.spec_green(), Self::spec_gmax(), COLOR::spec_gmax()),
                spec_convert_channel(self.spec_blue(), Self::spec_bmax(), COLOR::spec_bmax()),
            ),
    {
        let red_channel: u8 = ((self.data as usize & 0x4) >> 2) as u8;
        let green_channel: u8 = ((self.data as usize & 0x2) >> 1) as u8;
        let blue_channel: u8 = (self.data as usize & 0x1) as u8;
        proof {
            COLOR::channel_bounds();
            lemma_channel_scale_bounded(red_channel, 2, COLOR::spec_rmax());
            lemma_channel_scale_bounded(green_channel, 2, COLOR::spec_gmax());
            lemma_channel_scale_bounded(blue_channel, 2, COLOR::spec_bmax());
        }
        let red = convert_channel(red_channel, 2, COLOR::exec_rmax());
        let green = convert_channel(green_channel, 2, COLOR::exec_gmax());
        let blue = convert_channel(blue_channel, 2, COLOR::exec_bmax());
        COLOR::from_channels(red, green, blue)
    }

    /// The same color in a blue-green-red format; each channel lands in the
    /// target's own slot, so the contract is the same as `convert_rgb`'s.
    pub fn convert_bgr<COLOR: EmuRsColor>(&self) -> (r: COLOR)
        ensures
            r == COLOR::spec_pack_rgb(
                spec_convert_channel(self.spec_red(), Self::spec_rmax(), COLOR::spec_rmax()),
                spec_convert_channel(self.spec_green(), Self::spec_gmax(), COLOR::spec_gmax()),
                spec_convert_channel(self.spec_blue(), Self::spec_bmax(), COLOR::spec_bmax()),
            ),
    {
        let red_channel: u8 = ((self.data as usize & 0x4) >> 2) as u8;
        let green_channel: u8 = ((self.data as usize & 0x2) >> 1) as u8;
        let blue_channel: u8 = (self.data as usize & 0x1) as u8;
        proof {
            COLOR::channel_bounds();
            lemma_channel_scale_bounded(red_channel, 2, COLOR::spec_rmax());
            lemma_channel_scale_bounded(green_channel, 2, COLOR::spec_gmax());
            lemma_channel_scale_bounded(blue_channel, 2, COLOR::spec_bmax());
        }
        let blue = convert_channel(blue_channel, 2, COLOR::exec_bmax());
        let green = convert_channel(green_channel, 2, COLOR::exec_gmax());
        let red = convert_channel(red_channel, 2, COLOR::exec_rmax());
        COLOR::from_channels(red, green, blue)
    }
}

impl EmuRsColor for EmuRsColorFormatRgb111 {
    type InternalRepresentation = u8;

    open spec fn spec_raw(self) -> u8 {
        self.data
    }

    open spec fn spec_red(self) -> u8 {
        ((self.data as usize & 0x4) >> 2) as u8
    }

    open spec fn spec_green(self) -> u8 {
        ((self.data as usize & 0x2) >> 1) as u8
    }

    open spec fn spec_blue(self) -> u8 {
        (self.data as usize & 0x1) as u8
    }

    open spec fn spec_rmax() -> usize {
        2
    }

    open spec fn spec_gmax() -> usize {
        2
    }

    open spec fn spec_bmax() -> usize {
        2
    }

    open spec fn spec_pack_rgb(red: u8, green: u8, blue: u8) -> Self {
        EmuRsColorFormatRgb111 { data: ((red as u8) << 2 | (green as u8) << 1 | (blue as u8)) as u8 }
    }

    proof fn channel_bounds() {
    }

    fn raw(&self) -> (r: u8) {
        self.data
    }

    fn channel_red(&self) -> (r: u8) {
        ((self.data as usize & 0x4) >> 2) as u8
    }

    fn channel_green(&self) -> (r: u8) {
        ((self.data as usize & 0x2) >> 1) as u8
    }

    fn channel_blue(&self) -> (r: u8) {
        (self.data as usize & 0x1) as u8
    }

    fn exec_rmax() -> (r: usize) {
        2
    }

    fn exec_gmax() -> (r: usize) {
        2
    }

    fn exec_bmax() -> (r: usize) {
        2
    }

    fn from_channels(red: u8, green: u8, blue: u8) -> (r: Self) {
        Self { data: (red as u8) << 2 | (green as u8) << 1 | (blue as u8) }
    }
}

impl EmuRsRgbColor for EmuRsColorFormatRgb111 {
    fn new(red: u8, green: u8, blue: u8) -> (r: Self) {
        Self { data: (red as u8) << 2 | (green as u8) << 1 | (blue as u8) }
    }

    fn red(&self) -> (r: u8) {
        ((self.data as usize & 0x4) >> 2) as u8
    }

    fn green(&self) -> (r: u8) {
        ((self.data as usize & 0x2) >> 1) as u8
    }

    fn blue(&self) -> (r: u8) {
        (self.data as usize & 0x1) as u8
    }

    fn rmax() -> (r: usize) {
        2
    }

    fn gmax() -> (r: usize) {
        2
    }

    fn bmax() -> (r: usize) {
        2
    }
}

/// A color with 2 red, 2 green and 2 blue bits packed into one `u8`.
#[derive(Clone, Copy, Debug, Default, PartialEq, Eq, Structural)]
pub struct EmuRsColorFormatRgb222 {
    pub data: u8,
}

impl EmuRsColorFormatRgb222 {
    /// The same color in another format, every channel rescaled to the
    /// target's range and packed in the target's own layout.
    pub fn convert_rgb<COLOR: EmuRsColor>(&self) -> (r: COLOR)
        ensures
            r == COLOR::spec_pack_rgb(
                spec_convert_channel(self.spec_red(), Self::spec_rmax(), COLOR::spec_rmax()),
                spec_convert_channel(self.spec_green(), Self::spec_gmax(), COLOR::spec_gmax()),
                spec_convert_channel(self.spec_blue(), Self::spec_bmax(), COLOR::spec_bmax()),
            ),
    {
        let red_channel: u8 = ((self.data as usize & 0x30) >> 4) as u8;
        let green_channel: u8 = ((self.data as usize & 0xc) >> 2) as u8;
        let blue_channel: u8 = (self.data as usize & 0x3) as u8;
        proof {
            COLOR::channel_bounds();
            lemma_channel_scale_bounded(red_channel, 4, COLOR::spec_rmax());
            lemma_channel_scale_bounded(green_channel, 4, COLOR::spec_gmax());
            lemma_channel_scale_bounded(blue_channel, 4, COLOR::spec_bmax());
        }
        let red = convert_channel(red_channel, 4, COLOR::exec_rmax());
        let green = convert_channel(green_channel, 4, COLOR::exec_gmax());
        let blue = convert_channel(blue_channel, 4, COLOR::exec_bmax());
        COLOR::from_channels(red, green, blue)
    }

    /// The same color in a blue-green-red format; each channel lands in the
    /// target's own slot, so the contract is the same as `convert_rgb`'s.
    pub fn convert_bgr<COLOR: EmuRsColor>(&self) -> (r: COLOR)
        ensures
            r == COLOR::spec_pack_rgb(
                spec_convert_channel(self.spec_red(), Self::spec_rmax(), COLOR::spec_rmax()),
                spec_convert_channel(self.spec_green(), Self::spec_gmax(), COLOR::spec_gmax()),
                spec_convert_channel(self.spec_blue(), Self::spec_bmax(), COLOR::spec_bmax()),
            ),
    {
        let red_channel: u8 = ((self.data as usize & 0x30) >> 4) as u8;
        let green_channel: u8 = ((self.data as usize & 0xc) >> 2) as u8;
        let blue_channel: u8 = (self.data as usize & 0x3) as u8;
        proof {
            COLOR::channel_bounds();
            lemma_channel_scale_bounded(red_channel, 4, COLOR::spec_rmax());
            lemma_channel_scale_bounded(green_channel, 4, COLOR::spec_gmax());
            lemma_channel_scale_bounded(blue_channel, 4, COLOR::spec_bmax());
        }
        let blue = convert_channel(blue_channel, 4, COLOR::exec_bmax());
        let green = convert_channel(green_channel, 4, COLOR::exec_gmax());
        let red = convert_channel(red_channel, 4, COLOR::exec_rmax());
        COLOR::from_channels(red, green, blue)
    }
}

impl EmuRsColor for EmuRsColorFormatRgb222 {
    type InternalRepresentation = u8;

    open spec fn spec_raw(self) -> u8 {
        self.data
    }

    open spec fn spec_red(self) -> u8 {
        ((self.data as usize & 0x30) >> 4) as u8
    }

    open spec fn spec_green(self) -> u8 {
        ((self.data as usize & 0xc) >> 2) as u8
    }

    open spec fn spec_blue(self) -> u8 {
        (self.data as usize & 0x3) as u8
    }

    open spec fn spec_rmax() -> usize {
        4
    }

    open spec fn spec_gmax() -> usize {
        4
    }

    open spec fn spec_bmax() -> usize {
        4
    }

    open spec fn spec_pack_rgb(red: u8, green: u8, blue: u8) -> Self {
        EmuRsColorFormatRgb222 { data: ((red as u8) << 4 | (green as u8) << 2 | (blue as u8)) as u8 }
    }

    proof fn channel_bounds() {
    }

    fn raw(&self) -> (r: u8) {
        self.data
    }

    fn channel_red(&self) -> (r: u8) {
        ((self.data as usize & 0x30) >> 4) as u8
    }

    fn channel_green(&self) -> (r: u8) {
        ((self.data as usize & 0xc) >> 2) as u8
    }

    fn channel_blue(&self) -> (r: u8) {
        (self.data as usize & 0x3) as u8
    }

    fn exec_rmax() -> (r: usize) {
        4
    }

    fn exec_gmax() -> (r: usize) {
        4
    }

    fn exec_bmax() -> (r: usize) {
        4
    }

    fn from_channels(red: u8, green: u8, blue: u8) -> (r: Self) {
        Self { data: (red as u8) << 4 | (green as u8) << 2 | (blue as u8) }
    }
}

impl EmuRsRgbColor for EmuRsColorFormatRgb222 {
    fn new(red: u8, green: u8, blue: u8) -> (r: Self) {
        Self { data: (red as u8) << 4 | (green as u8) << 2 | (blue as u8) }
    }

    fn red(&self) -> (r: u8) {
        ((self.data as usize & 0x30) >> 4) as u8
    }

    fn green(&self) -> (r: u8) {
        ((self.data as usize & 0xc) >> 2) as u8
    }

    fn blue(&self) -> (r: u8) {
        (self.data as usize & 0x3) as u8
    }

    fn rmax() -> (r: usize) {
        4
    }

    fn gmax() -> (r: usize) {
        4
    }

    fn bmax() -> (r: usize) {
        4
    }
}

/// A color with 3 red, 3 green and 3 blue bits packed into one `u16`.
#[derive(Clone, Copy, Debug, Default, PartialEq, Eq, Structural)]
pub struct EmuRsColorFormatRgb333 {
    pub data: u16,
}

impl EmuRsColorFormatRgb333 {
    /// The same color in another format, every channel rescaled to the
    /// target's range and packed in the target's own layout.
    pub fn convert_rgb<COLOR: EmuRsColor>(&self) -> (r: COLOR)
        ensures
            r == COLOR::spec_pack_rgb(
                spec_convert_channel(self.spec_red(), Self::spec_rmax(), COLOR::spec_rmax()),
                spec_convert_channel(self.spec_green(), Self::spec_gmax(), COLOR::spec_gmax()),
                spec_convert_channel(self.spec_blue(), Self::spec_bmax(), COLOR::spec_bmax()),
            ),
    {
        let red_channel: u8 = ((self.data as usize & 0x1c0) >> 6) as u8;
        let green_channel: u8 = ((self.data as usize & 0x38) >> 3) as u8;
        let blue_channel: u8 = (self.data as usize & 0x7) as u8;
        proof {
            COLOR::channel_bounds();
            lemma_channel_scale_bounded(red_channel, 8, COLOR::spec_rmax());
            lemma_channel_scale_bounded(green_channel, 8, COLOR::spec_gmax());
            lemma_channel_scale_bounded(blue_channel, 8, COLOR::spec_bmax());
        }
        let red = convert_channel(red_channel, 8, COLOR::exec_rmax());
        let green = convert_channel(green_channel, 8, COLOR::exec_gmax());
        let blue = convert_channel(blue_channel, 8, COLOR::exec_bmax());
        COLOR::from_channels(red, green, blue)
    }

    /// The same color in a blue-green-red format; each channel lands in the
    /// target's own slot, so the contract is the same as `convert_rgb`'s.
    pub fn convert_bgr<COLOR: EmuRsColor>(&self) -> (r: COLOR)
        ensures
            r == COLOR::spec_pack_rgb(
                spec_convert_channel(self.spec_red(), Self::spec_rmax(), COLOR::spec_rmax()),
                spec_convert_channel(self.spec_green(), Self::spec_gmax(), COLOR::spec_gmax()),
                spec_convert_channel(self.spec_blue(), Self::spec_bmax(), COLOR::spec_bmax()),
            ),
    {
        let red_channel: u8 = ((self.data as usize & 0x1c0) >> 6) as u8;
        let green_channel: u8 = ((self.data as usize & 0x38) >> 3) as u8;
        let blue_channel: u8 = (self.data as usize & 0x7) as u8;
        proof {
            COLOR::channel_bounds();
            lemma_channel_scale_bounded(red_channel, 8, COLOR::spec_rmax());
            lemma_channel_scale_bounded(green_channel, 8, COLOR::spec_gmax());
            lemma_channel_scale_bounded(blue_channel, 8, COLOR::spec_bmax());
        }
        let blue = convert_channel(blue_channel, 8, COLOR::exec_bmax());
        let green = convert_channel(green_channel, 8, COLOR::exec_gmax());
        let red = convert_channel(red_channel, 8, COLOR::exec_rmax());
        COLOR::from_channels(red, green, blue)
    }
}

impl EmuRsColor for EmuRsColorFormatRgb333 {
    type InternalRepresentation = u16;

    open spec fn spec_raw(self) -> u16 {
        self.data
    }

    open spec fn spec_red(self) -> u8 {
        ((self.data as usize & 0x1c0) >> 6) as u8
    }

    open spec fn spec_green(self) -> u8 {
        ((self.data as usize & 0x38) >> 3) as u8
    }

    open spec fn spec_blue(self) -> u8 {
        (self.data as usize & 0x7) as u8
    }

    open spec fn spec_rmax() -> usize {
        8
    }

    open spec fn spec_gmax() -> usize {
        8
    }

    open spec fn spec_bmax() -> usize {
        8
    }

    open spec fn spec_pack_rgb(red: u8, green: u8, blue: u8) -> Self {
        EmuRsColorFormatRgb333 { data: ((red as u16) << 6 | (green as u16) << 3 | (blue as u16)) as u16 }
    }

    proof fn channel_bounds() {
    }

    fn raw(&self) -> (r: u16) {
        self.data
    }

    fn channel_red(&self) -> (r: u8) {
        ((self.data as usize & 0x1c0) >> 6) as u8
    }

    fn channel_green(&self) -> (r: u8) {
        ((self.data as usize & 0x38) >> 3) as u8
    }

    fn channel_blue(&self) -> (r: u8) {
        (self.data as usize & 0x7) as u8
    }

    fn exec_rmax() -> (r: usize) {
        8
    }

    fn exec_gmax() -> (r: usize) {
        8
    }

    fn exec_bmax() -> (r: usize) {
        8
    }

    fn from_channels(red: u8, green: u8, blue: u8) -> (r: Self) {
        Self { data: (red as u16) << 6 | (green as u16) << 3 | (blue as u16) }
    }
}

impl EmuRsRgbColor for EmuRsColorFormatRgb333 {
    fn new(red: u8, green: u8, blue: u8) -> (r: Self) {
        Self { data: (red as u16) << 6 | (green as u16) << 3 | (blue as u16) }
    }

    fn red(&self) -> (r: u8) {
        ((self.data as usize & 0x1c0) >> 6) as u8
    }

    fn green(&self) -> (r: u8) {
        ((self.data as usize & 0x38) >> 3) as u8
    }

    fn blue(&self) -> (r: u8) {
        (self.data as usize & 0x7) as u8
    }

    fn rmax() -> (r: usize) {
        8
    }

    fn gmax() -> (r: usize) {
        8
    }

    fn bmax() -> (r: usize) {
        8
    }
}

/// A color with 4 red, 4 green and 4 blue bits packed into one `u16`.
#[derive(Clone, Copy, Debug, Default, PartialEq, Eq, Structural)]
pub struct EmuRsColorFormatRgb444 {
    pub data: u16,
}

impl EmuRsColorFormatRgb444 {
    /// The same color in another format, every channel rescaled to the
    /// target's range and packed in the target's own layout.
    pub fn convert_rgb<COLOR: EmuRsColor>(&self) -> (r: COLOR)
        ensures
            r == COLOR::spec_pack_rgb(
                spec_convert_channel(self.spec_red(), Self::spec_rmax(), COLOR::spec_rmax()),
                spec_convert_channel(self.spec_green(), Self::spec_gmax(), COLOR::spec_gmax()),
                spec_convert_channel(self.spec_blue(), Self::spec_bmax(), COLOR::spec_bmax()),
            ),
    {
        let red_channel: u8 = ((self.data as usize & 0xf00) >> 8) as u8;
        let green_channel: u8 = ((self.data as usize & 0xf0) >> 4) as u8;
        let blue_channel: u8 = (self.data as usize & 0xf) as u8;
        proof {
            COLOR::channel_bounds();
            lemma_channel_scale_bounded(red_channel, 16, COLOR::spec_rmax());
            lemma_channel_scale_bounded(green_channel, 16, COLOR::spec_gmax());
            lemma_channel_scale_bounded(blue_channel, 16, COLOR::spec_bmax());
        }
        let red = convert_channel(red_channel, 16, COLOR::exec_rmax());
        let green = convert_channel(green_channel, 16, COLOR::exec_gmax());
        let blue = convert_channel(blue_channel, 16, COLOR::exec_bmax());
        COLOR::from_channels(red, green, blue)
    }

    /// The same color in a blue-green-red format; each channel lands in the
    /// target's own slot, so the contract is the same as `convert_rgb`'s.
    pub fn convert_bgr<COLOR: EmuRsColor>(&self) -> (r: COLOR)
        ensures
            r == COLOR::spec_pack_rgb(
                spec_convert_channel(self.spec_red(), Self::spec_rmax(), COLOR::spec_rmax()),
                spec_convert_channel(self.spec_green(), Self::spec_gmax(), COLOR::spec_gmax()),
                spec_convert_channel(self.spec_blue(), Self::spec_bmax(), COLOR::spec_bmax()),
            ),
    {
        let red_channel: u8 = ((self.data as usize & 0xf00) >> 8) as u8;
        let green_channel: u8 = ((self.data as usize & 0xf0) >> 4) as u8;
        let blue_channel: u8 = (self.data as usize & 0xf) as u8;
        proof {
            COLOR::channel_bounds();
            lemma_channel_scale_bounded(red_channel, 16, COLOR::spec_rmax());
            lemma_channel_scale_bounded(green_channel, 16, COLOR::spec_gmax());
            lemma_channel_scale_bounded(blue_channel, 16, COLOR::spec_bmax());
        }
        let blue = convert_channel(blue_channel, 16, COLOR::exec_bmax());
        let green = convert_channel(green_channel, 16, COLOR::exec_gmax());
        let red = convert_channel(red_channel, 16, COLOR::exec_rmax());
        COLOR::from_channels(red, green, blue)
    }
}

impl EmuRsColor for EmuRsColorFormatRgb444 {
    type InternalRepresentation = u16;

    open spec fn spec_raw(self) -> u16 {
        self.data
    }

    open spec fn spec_red(self) -> u8 {
        ((self.data as usize & 0xf00) >> 8) as u8
    }

    open spec fn spec_green(self) -> u8 {
        ((self.data as usize & 0xf0) >> 4) as u8
    }

    open spec fn spec_blue(self) -> u8 {
        (self.data as usize & 0xf) as u8
    }

    open spec fn spec_rmax() -> usize {
        16
    }

    open spec fn spec_gmax() -> usize {
        16
    }

    open spec fn spec_bmax() -> usize {
        16
    }

    open spec fn spec_pack_rgb(red: u8, green: u8, blue: u8) -> Self {
        EmuRsColorFormatRgb444 { data: ((red as u16) << 8 | (green as u16) << 4 | (blue as u16)) as u16 }
    }

    proof fn channel_bounds() {
    }

    fn raw(&self) -> (r: u16) {
        self.data
    }

    fn channel_red(&self) -> (r: u8) {
        ((self.data as usize & 0xf00) >> 8) as u8
    }

    fn channel_green(&self) -> (r: u8) {
        ((self.data as usize & 0xf0) >> 4) as u8
    }

    fn channel_blue(&self) -> (r: u8) {
        (self.data as usize & 0xf) as u8
    }

    fn exec_rmax() -> (r: usize) {
        16
    }

    fn exec_gmax() -> (r: usize) {
        16
    }

    fn exec_bmax() -> (r: usize) {
        16
    }

    fn from_channels(red: u8, green: u8, blue: u8) -> (r: Self) {
        Self { data: (red as u16) << 8 | (green as u16) << 4 | (blue as u16) }
    }
}

impl EmuRsRgbColor for EmuRsColorFormatRgb444 {
    fn new(red: u8, green: u8, blue: u8) -> (r: Self) {
        Self { data: (red as u16) << 8 | (green as u16) << 4 | (blue as u16) }
    }

    fn red(&self) -> (r: u8) {
        ((self.data as usize & 0xf00) >> 8) as u8
    }

    fn green(&self) -> (r: u8) {
        ((self.data as usize & 0xf0) >> 4) as u8
    }

    fn blue(&self) -> (r: u8) {
        (self.data as usize & 0xf) as u8
    }

    fn rmax() -> (r: usize) {
        16
    }

    fn gmax() -> (r: usize) {
        16
    }

    fn bmax() -> (r: usize) {
        16
    }
}

/// A color with 5 red, 5 green and 5 blue bits packed into one `u16`.
#[derive(Clone, Copy, Debug, Default, PartialEq, Eq, Structural)]
pub struct EmuRsColorFormatRgb555 {
    pub data: u16,
}

impl EmuRsColorFormatRgb555 {
    /// The same color in another format, every channel rescaled to the
    /// target's range and packed in the target's own layout.
    pub fn convert_rgb<COLOR: EmuRsColor>(&self) -> (r: COLOR)
        ensures
            r == COLOR::spec_pack_rgb(
                spec_convert_channel(self.spec_red(), Self::spec_rmax(), COLOR::spec_rmax()),
                spec_convert_channel(self.spec_green(), Self::spec_gmax(), COLOR::spec_gmax()),
                spec_convert_channel(self.spec_blue(), Self::spec_bmax(), COLOR::spec_bmax()),
            ),
    {
        let red_channel: u8 = ((self.data as usize & 0x7c00) >> 10) as u8;
        let green_channel: u8 = ((self.data as usize & 0x3e0) >> 5) as u8;
        let blue_channel: u8 = (self.data as usize & 0x1f) as u8;
        proof {
            COLOR::channel_bounds();
            lemma_channel_scale_bounded(red_channel, 32, COLOR::spec_rmax());
            lemma_channel_scale_bounded(green_channel, 32, COLOR::spec_gmax());
            lemma_channel_scale_bounded(blue_channel, 32, COLOR::spec_bmax());
        }
        let red = convert_channel(red_channel, 32, COLOR::exec_rmax());
        let green = convert_channel(green_channel, 32, COLOR::exec_gmax());
        let blue = convert_channel(blue_channel, 32, COLOR::exec_bmax());
        COLOR::from_channels(red, green, blue)
    }

    /// The same color in a blue-green-red format; each channel lands in the
    /// target's own slot, so the contract is the same as `convert_rgb`'s.
    pub fn convert_bgr<COLOR: EmuRsColor>(&self) -> (r: COLOR)
        ensures
            r == COLOR::spec_pack_rgb(
                spec_convert_channel(self.spec_red(), Self::spec_rmax(), COLOR::spec_rmax()),
                spec_convert_channel(self.spec_green(), Self::spec_gmax(), COLOR::spec_gmax()),
                spec_convert_channel(self.spec_blue(), Self::spec_bmax(), COLOR::spec_bmax()),
            ),
    {
        let red_channel: u8 = ((self.data as usize & 0x7c00) >> 10) as u8;
        let green_channel: u8 = ((self.data as usize & 0x3e0) >> 5) as u8;
        let blue_channel: u8 = (self.data as usize & 0x1f) as u8;
        proof {
            COLOR::channel_bounds();
            lemma_channel_scale_bounded(red_channel, 32, COLOR::spec_rmax());
            lemma_channel_scale_bounded(green_channel, 32, COLOR::spec_gmax());
            lemma_channel_scale_bounded(blue_channel, 32, COLOR::spec_bmax());
        }
        let blue = convert_channel(blue_channel, 32, COLOR::exec_bmax());
        let green = convert_channel(green_channel, 32, COLOR::exec_gmax());
        let red = convert_channel(red_channel, 32, COLOR::exec_rmax());
        COLOR::from_channels(red, green, blue)
    }
}

impl EmuRsColor for EmuRsColorFormatRgb555 {
    type InternalRepresentation = u16;

    open spec fn spec_raw(self) -> u16 {
        self.data
    }

    open spec fn spec_red(self) -> u8 {
        ((self.data as usize & 0x7c00) >> 10) as u8
    }

    open spec fn spec_green(self) -> u8 {
        ((self.data as usize & 0x3e0) >> 5) as u8
    }

    open spec fn spec_blue(self) -> u8 {
        (self.data as usize & 0x1f) as u8
    }

    open spec fn spec_rmax() -> usize {
        32
    }

    open spec fn spec_gmax() -> usize {
        32
    }

    open spec fn spec_bmax() -> usize {
        32
    }

    open spec fn spec_pack_rgb(red: u8, green: u8, blue: u8) -> Self {
        EmuRsColorFormatRgb555 { data: ((red as u16) << 10 | (green as u16) << 5 | (blue as u16)) as u16 }
    }

    proof fn channel_bounds() {
    }

    fn raw(&self) -> (r: u16) {
        self.data
    }

    fn channel_red(&self) -> (r: u8) {
        ((self.data as usize & 0x7c00) >> 10) as u8
    }

    fn channel_green(&self) -> (r: u8) {
        ((self.data as usize & 0x3e0) >> 5) as u8
    }

    fn channel_blue(&self) -> (r: u8) {
        (self.data as usize & 0x1f) as u8
    }

    fn exec_rmax() -> (r: usize) {
        32
    }

    fn exec_gmax() -> (r: usize) {
        32
    }

    fn exec_bmax() -> (r: usize) {
        32
    }

    fn from_channels(red: u8, green: u8, blue: u8) -> (r: Self) {
        Self { data: (red as u16) << 10 | (green as u16) << 5 | (blue as u16) }
    }
}

impl EmuRsRgbColor for EmuRsColorFormatRgb555 {
    fn new(red: u8, green: u8, blue: u8) -> (r: Self) {
        Self { data: (red as u16) << 10 | (green as u16) << 5 | (blue as u16) }
    }

    fn red(&self) -> (r: u8) {
        ((self.data as usize & 0x7c00) >> 10) as u8
    }

    fn green(&self) -> (r: u8) {
        ((self.data as usize & 0x3e0) >> 5) as u8
    }

    fn blue(&self) -> (r: u8) {
        (self.data as usize & 0x1f) as u8
    }

    fn rmax() -> (r: usize) {
        32
    }

    fn gmax() -> (r: usize) {
        32
    }

    fn bmax() -> (r: usize) {
        32
    }
}

/// A color with 5 red, 6 green and 5 blue bits packed into one `u16`.
#[derive(Clone, Copy, Debug, Default, PartialEq, Eq, Structural)]
pub struct EmuRsColorFormatRgb565 {
    pub data: u16,
}

impl EmuRsColorFormatRgb565 {
    /// The same color in another format, every channel rescaled to the
    /// target's range and packed in the target's own layout.
    pub fn convert_rgb<COLOR: EmuRsColor>(&self) -> (r: COLOR)
        ensures
            r == COLOR::spec_pack_rgb(
                spec_convert_channel(self.spec_red(), Self::spec_rmax(), COLOR::spec_rmax()),
                spec_convert_channel(self.spec_green(), Self::spec_gmax(), COLOR::spec_gmax()),
                spec_convert_channel(self.spec_blue(), Self::spec_bmax(), COLOR::spec_bmax()),
            ),
    {
        let red_channel: u8 = ((self.data as usize & 0xf800) >> 11) as u8;
        let green_channel: u8 = ((self.data as usize & 0x7e0) >> 5) as u8;
        let blue_channel: u8 = (self.data as usize & 0x1f) as u8;
        proof {
            COLOR::channel_bounds();
            lemma_channel_scale_bounded(red_channel, 32, COLOR::spec_rmax());
            lemma_channel_scale_bounded(green_channel, 64, COLOR::spec_gmax());
            lemma_channel_scale_bounded(blue_channel, 32, COLOR::spec_bmax());
        }
        let red = convert_channel(red_channel, 32, COLOR::exec_rmax());
        let green = convert_channel(green_channel, 64, COLOR::exec_gmax());
        let blue = convert_channel(blue_channel, 32, COLOR::exec_bmax());
        COLOR::from_channels(red, green, blue)
    }

    /// The same color in a blue-green-red format; each channel lands in the
    /// target's own slot, so the contract is the same as `convert_rgb`'s.
    pub fn convert_bgr<COLOR: EmuRsColor>(&self) -> (r: COLOR)
        ensures
            r == COLOR::spec_pack_rgb(
                spec_convert_channel(self.spec_red(), Self::spec_rmax(), COLOR::spec_rmax()),
                spec_convert_channel(self.spec_green(), Self::spec_gmax(), COLOR::spec_gmax()),
                spec_convert_channel(self.spec_blue(), Self::spec_bmax(), COLOR::spec_bmax()),
            ),
    {
        let red_channel: u8 = ((self.data as usize & 0xf800) >> 11) as u8;
        let green_channel: u8 = ((self.data as usize & 0x7e0) >> 5) as u8;
        let blue_channel: u8 = (self.data as usize & 0x1f) as u8;
        proof {
            COLOR::channel_bounds();
            lemma_channel_scale_bounded(red_channel, 32, COLOR::spec_rmax());
            lemma_channel_scale_bounded(green_channel, 64, COLOR::spec_gmax());
            lemma_channel_scale_bounded(blue_channel, 32, COLOR::spec_bmax());
        }
        let blue = convert_channel(blue_channel, 32, COLOR::exec_bmax());
        let green = convert_channel(green_channel, 64, COLOR::exec_gmax());
        let red = convert_channel(red_channel, 32, COLOR::exec_rmax());
        COLOR::from_channels(red, green, blue)
    }
}

impl EmuRsColor for EmuRsColorFormatRgb565 {
    type InternalRepresentation = u16;

    open spec fn spec_raw(self) -> u16 {
        self.data
    }

    open spec fn spec_red(self) -> u8 {
        ((self.data as usize & 0xf800) >> 11) as u8
    }

    open spec fn spec_green(self) -> u8 {
        ((self.data as usize & 0x7e0) >> 5) as u8
    }

    open spec fn spec_blue(self) -> u8 {
        (self.data as usize & 0x1f) as u8
    }

    open spec fn spec_rmax() -> usize {
        32
    }

    open spec fn spec_gmax() -> usize {
        64
    }

    open spec fn spec_bmax() -> usize {
        32
    }

    open spec fn spec_pack_rgb(red: u8, green: u8, blue: u8) -> Self {
        EmuRsColorFormatRgb565 { data: ((red as u16) << 11 | (green as u16) << 5 | (blue as u16)) as u16 }
    }

    proof fn channel_bounds() {
    }

    fn raw(&self) -> (r: u16) {
        self.data
    }

    fn channel_red(&self) -> (r: u8) {
        ((self.data as usize & 0xf800) >> 11) as u8
    }

    fn channel_green(&self) -> (r: u8) {
        ((self.data as usize & 0x7e0) >> 5) as u8
    }

    fn channel_blue(&self) -> (r: u8) {
        (self.data as usize & 0x1f) as u8
    }

    fn exec_rmax() -> (r: usize) {
        32
    }

    fn exec_gmax() -> (r: usize) {
        64
    }

    fn exec_bmax() -> (r: usize) {
        32
    }

    fn from_channels(red: u8, green: u8, blue: u8) -> (r: Self) {
        Self { data: (red as u16) << 11 | (green as u16) << 5 | (blue as u16) }
    }
}

impl EmuRsRgbColor for EmuRsColorFormatRgb565 {
    fn new(red: u8, green: u8, blue: u8) -> (r: Self) {
        Self { data: (red as u16) << 11 | (green as u16) << 5 | (blue as u16) }
    }

    fn red(&self) -> (r: u8) {
        ((self.data as usize & 0xf800) >> 11) as u8
    }

    fn green(&self) -> (r: u8) {
        ((self.data as usize & 0x7e0) >> 5) as u8
    }

    fn blue(&self) -> (r: u8) {
        (self.data as usize & 0x1f) as u8
    }

    fn rmax() -> (r: usize) {
        32
    }

    fn gmax() -> (r: usize) {
        64
    }

    fn bmax() -> (r: usize) {
        32
    }
}

/// A color with 6 red, 6 green and 6 blue bits packed into one `u32`.
#[derive(Clone, Copy, Debug, Default, PartialEq, Eq, Structural)]
pub struct EmuRsColorFormatRgb666 {
    pub data: u32,
}

impl EmuRsColorFormatRgb666 {
    /// The same color in another format, every channel rescaled to the
    /// target's range and packed in the target's own layout.
    pub fn convert_rgb<COLOR: EmuRsColor>(&self) -> (r: COLOR)
        ensures
            r == COLOR::spec_pack_rgb(
                spec_convert_channel(self.spec_red(), Self::spec_rmax(), COLOR::spec_rmax()),
                spec_convert_channel(self.spec_green(), Self::spec_gmax(), COLOR::spec_gmax()),
                spec_convert_channel(self.spec_blue(), Self::spec_bmax(), COLOR::spec_bmax()),
            ),
    {
        let red_channel: u8 = ((self.data as usize & 0x3f000) >> 12) as u8;
        let green_channel: u8 = ((self.data as usize & 0xfc0) >> 6) as u8;
        let blue_channel: u8 = (self.data as usize & 0x3f) as u8;
        proof {
            COLOR::channel_bounds();
            lemma_channel_scale_bounded(red_channel, 64, COLOR::spec_rmax());
            lemma_channel_scale_bounded(green_channel, 64, COLOR::spec_gmax());
            lemma_channel_scale_bounded(blue_channel, 64, COLOR::spec_bmax());
        }
        let red = convert_channel(red_channel, 64, COLOR::exec_rmax());
        let green = convert_channel(green_channel, 64, COLOR::exec_gmax());
        let blue = convert_channel(blue_channel, 64, COLOR::exec_bmax());
        COLOR::from_channels(red, green, blue)
    }

    /// The same color in a blue-green-red format; each channel lands in the
    /// target's own slot, so the contract is the same as `convert_rgb`'s.
    pub fn convert_bgr<COLOR: EmuRsColor>(&self) -> (r: COLOR)
        ensures
            r == COLOR::spec_pack_rgb(
                spec_convert_channel(self.spec_red(), Self::spec_rmax(), COLOR::spec_rmax()),
                spec_convert_channel(self.spec_green(), Self::spec_gmax(), COLOR::spec_gmax()),
                spec_convert_channel(self.spec_blue(), Self::spec_bmax(), COLOR::spec_bmax()),
            ),
    {
        let red_channel: u8 = ((self.data as usize & 0x3f000) >> 12) as u8;
        let green_channel: u8 = ((self.data as usize & 0xfc0) >> 6) as u8;
        let blue_channel: u8 = (self.data as usize & 0x3f) as u8;
        proof {
            COLOR::channel_bounds();
            lemma_channel_scale_bounded(red_channel, 64, COLOR::spec_rmax());
            lemma_channel_scale_bounded(green_channel, 64, COLOR::spec_gmax());
            lemma_channel_scale_bounded(blue_channel, 64, COLOR::spec_bmax());
        }
        let blue = convert_channel(blue_channel, 64, COLOR::exec_bmax());
        let green = convert_channel(green_channel, 64, COLOR::exec_gmax());
        let red = convert_channel(red_channel, 64, COLOR::exec_rmax());
        COLOR::from_channels(red, green, blue)
    }
}

impl EmuRsColor for EmuRsColorFormatRgb666 {
    type InternalRepresentation = u32;

    open spec fn spec_raw(self) -> u32 {
        self.data
    }

    open spec fn spec_red(self) -> u8 {
        ((self.data as usize & 0x3f000) >> 12) as u8
    }

    open spec fn spec_green(self) -> u8 {
        ((self.data as usize & 0xfc0) >> 6) as u8
    }

    open spec fn spec_blue(self) -> u8 {
        (self.data as usize & 0x3f) as u8
    }

    open spec fn spec_rmax() -> usize {
        64
    }

    open spec fn spec_gmax() -> usize {
        64
    }

    open spec fn spec_bmax() -> usize {
        64
    }

    open spec fn spec_pack_rgb(red: u8, green: u8, blue: u8) -> Self {
        EmuRsColorFormatRgb666 { data: ((red as u32) << 12 | (green as u32) << 6 | (blue as u32)) as u32 }
    }

    proof fn channel_bounds() {
    }

    fn raw(&self) -> (r: u32) {
        self.data
    }

    fn channel_red(&self) -> (r: u8) {
        ((self.data as usize & 0x3f000) >> 12) as u8
    }

    fn channel_green(&self) -> (r: u8) {
        ((self.data as usize & 0xfc0) >> 6) as u8
    }

    fn channel_blue(&self) -> (r: u8) {
        (self.data as usize & 0x3f) as u8
    }

    fn exec_rmax() -> (r: usize) {
        64
    }

    fn exec_gmax() -> (r: usize) {
        64
    }

    fn exec_bmax() -> (r: usize) {
        64
    }

    fn from_channels(red: u8, green: u8, blue: u8) -> (r: Self) {
        Self { data: (red as u32) << 12 | (green as u32) << 6 | (blue as u32) }
    }
}

impl EmuRsRgbColor for EmuRsColorFormatRgb666 {
    fn new(red: u8, green: u8, blue: u8) -> (r: Self) {
        Self { data: (red as u32) << 12 | (green as u32) << 6 | (blue as u32) }
    }

    fn red(&self) -> (r: u8) {
        ((self.data as usize & 0x3f000) >> 12) as u8
    }

    fn green(&self) -> (r: u8) {
        ((self.data as usize & 0xfc0) >> 6) as u8
    }

    fn blue(&self) -> (r: u8) {
        (self.data as usize & 0x3f) as u8
    }

    fn rmax() -> (r: usize) {
        64
    }

    fn gmax() -> (r: usize) {
        64
    }

    fn bmax() -> (r: usize) {
        64
    }
}

/// A color with 7 red, 7 green and 7 blue bits packed into one `u32`.
#[derive(Clone, Copy, Debug, Default, PartialEq, Eq, Structural)]
pub struct EmuRsColorFormatRgb777 {
    pub data: u32,
}

impl EmuRsColorFormatRgb777 {
    /// The same color in another format, every channel rescaled to the
    /// target's range and packed in the target's own layout.
    pub fn convert_rgb<COLOR: EmuRsColor>(&self) -> (r: COLOR)
        ensures
            r == COLOR::spec_pack_rgb(
                spec_convert_channel(self.spec_red(), Self::spec_rmax(), COLOR::spec_rmax()),
                spec_convert_channel(self.spec_green(), Self::spec_gmax(), COLOR::spec_gmax()),
                spec_convert_channel(self.spec_blue(), Self::spec_bmax(), COLOR::spec_bmax()),
            ),
    {
        let red_channel: u8 = ((self.data as usize & 0x1fc000) >> 14) as u8;
        let green_channel: u8 = ((self.data as usize & 0x3f80) >> 7) as u8;
        let blue_channel: u8 = (self.data as usize & 0x7f) as u8;
        proof {
            COLOR::channel_bounds();
            lemma_channel_scale_bounded(red_channel, 128, COLOR::spec_rmax());
            lemma_channel_scale_bounded(green_channel, 128, COLOR::spec_gmax());
            lemma_channel_scale_bounded(blue_channel, 128, COLOR::spec_bmax());
        }
        let red = convert_channel(red_channel, 128, COLOR::exec_rmax());
        let green = convert_channel(green_channel, 128, COLOR::exec_gmax());
        let blue = convert_channel(blue_channel, 128, COLOR::exec_bmax());
        COLOR::from_channels(red, green, blue)
    }

    /// The same color in a blue-green-red format; each channel lands in the
    /// target's own slot, so the contract is the same as `convert_rgb`'s.
    pub fn convert_bgr<COLOR: EmuRsColor>(&self) -> (r: COLOR)
        ensures
            r == COLOR::spec_pack_rgb(
                spec_convert_channel(self.spec_red(), Self::spec_rmax(), COLOR::spec_rmax()),
                spec_convert_channel(self.spec_green(), Self::spec_gmax(), COLOR::spec_gmax()),
                spec_convert_channel(self.spec_blue(), Self::spec_bmax(), COLOR::spec_bmax()),
            ),
    {
        let red_channel: u8 = ((self.data as usize & 0x1fc000) >> 14) as u8;
        let green_channel: u8 = ((self.data as usize & 0x3f80) >> 7) as u8;
        let blue_channel: u8 = (self.data as usize & 0x7f) as u8;
        proof {
            COLOR::channel_bounds();
            lemma_channel_scale_bounded(red_channel, 128, COLOR::spec_rmax());
            lemma_channel_scale_bounded(green_channel, 128, COLOR::spec_gmax());
            lemma_channel_scale_bounded(blue_channel, 128, COLOR::spec_bmax());
        }
        let blue = convert_channel(blue_channel, 128, COLOR::exec_bmax());
        let green = convert_channel(green_channel, 128, COLOR::exec_gmax());
        let red = convert_channel(red_channel, 128, COLOR::exec_rmax());
        COLOR::from_channels(red, green, blue)
    }
}

impl EmuRsColor for EmuRsColorFormatRgb777 {
    type InternalRepresentation = u32;

    open spec fn spec_raw(self) -> u32 {
        self.data
    }

    open spec fn spec_red(self) -> u8 {
        ((self.data as usize & 0x1fc000) >> 14) as u8
    }

    open spec fn spec_green(self) -> u8 {
        ((self.data as usize & 0x3f80) >> 7) as u8
    }

    open spec fn spec_blue(self) -> u8 {
        (self.data as usize & 0x7f) as u8
    }

    open spec fn spec_rmax() -> usize {
        128
    }

    open spec fn spec_gmax() -> usize {
        128
    }

    open spec fn spec_bmax() -> usize {
        128
    }

    open spec fn spec_pack_rgb(red: u8, green: u8, blue: u8) -> Self {
        EmuRsColorFormatRgb777 { data: ((red as u32) << 14 | (green as u32) << 7 | (blue as u32)) as u32 }
    }

    proof fn channel_bounds() {
    }

    fn raw(&self) -> (r: u32) {
        self.data
    }

    fn channel_red(&self) -> (r: u8) {
        ((self.data as usize & 0x1fc000) >> 14) as u8
    }

    fn channel_green(&self) -> (r: u8) {
        ((self.data as usize & 0x3f80) >> 7) as u8
    }

    fn channel_blue(&self) -> (r: u8) {
        (self.data as usize & 0x7f) as u8
    }

    fn exec_rmax() -> (r: usize) {
        128
    }

    fn exec_gmax() -> (r: usize) {
        128
    }

    fn exec_bmax() -> (r: usize) {
        128
    }

    fn from_channels(red: u8, green: u8, blue: u8) -> (r: Self) {
        Self { data: (red as u32) << 14 | (green as u32) << 7 | (blue as u32) }
    }
}

impl EmuRsRgbColor for EmuRsColorFormatRgb777 {
    fn new(red: u8, green: u8, blue: u8) -> (r: Self) {
        Self { data: (red as u32) << 14 | (green as u32) << 7 | (blue as u32) }
    }

    fn red(&self) -> (r: u8) {
        ((self.data as usize & 0x1fc000) >> 14) as u8
    }

    fn green(&self) -> (r: u8) {
        ((self.data as usize & 0x3f80) >> 7) as u8
    }

    fn blue(&self) -> (r: u8) {
        (self.data as usize & 0x7f) as u8
    }

    fn rmax() -> (r: usize) {
        128
    }

    fn gmax() -> (r: usize) {
        128
    }

    fn bmax() -> (r: usize) {
        128
    }
}

/// A color with 8 red, 8 green and 8 blue bits packed into one `u32`.
#[derive(Clone, Copy, Debug, Default, PartialEq, Eq, Structural)]
pub struct EmuRsColorFormatRgb888 {
    pub data: u32,
}

impl EmuRsColorFormatRgb888 {
    /// The same color in another format, every channel rescaled to the
    /// target's range and packed in the target's own layout.
    pub fn convert_rgb<COLOR: EmuRsColor>(&self) -> (r: COLOR)
        ensures
            r == COLOR::spec_pack_rgb(
                spec_convert_channel(self.spec_red(), Self::spec_rmax(), COLOR::spec_rmax()),
                spec_convert_channel(self.spec_green(), Self::spec_gmax(), COLOR::spec_gmax()),
                spec_convert_channel(self.spec_blue(), Self::spec_bmax(), COLOR::spec_bmax()),
            ),
    {
        let red_channel: u8 = ((self.data as usize & 0xff0000) >> 16) as u8;
        let green_channel: u8 = ((self.data as usize & 0xff00) >> 8) as u8;
        let blue_channel: u8 = (self.data as usize & 0xff) as u8;
        proof {
            COLOR::channel_bounds();
            lemma_channel_scale_bounded(red_channel, 256, COLOR::spec_rmax());
            lemma_channel_scale_bounded(green_channel, 256, COLOR::spec_gmax());
            lemma_channel_scale_bounded(blue_channel, 256, COLOR::spec_bmax());
        }
        let red = convert_channel(red_channel, 256, COLOR::exec_rmax());
        let green = convert_channel(green_channel, 256, COLOR::exec_gmax());
        let blue = convert_channel(blue_channel, 256, COLOR::exec_bmax());
        COLOR::from_channels(red, green, blue)
    }

    /// The same color in a blue-green-red format; each channel lands in the
    /// target's own slot, so the contract is the same as `convert_rgb`'s.
    pub fn convert_bgr<COLOR: EmuRsColor>(&self) -> (r: COLOR)
        ensures
            r == COLOR::spec_pack_rgb(
                spec_convert_channel(self.spec_red(), Self::spec_rmax(), COLOR::spec_rmax()),
                spec_convert_channel(self.spec_green(), Self::spec_gmax(), COLOR::spec_gmax()),
                spec_convert_channel(self.spec_blue(), Self::spec_bmax(), COLOR::spec_bmax()),
            ),
    {
        let red_channel: u8 = ((self.data as usize & 0xff0000) >> 16) as u8;
        let green_channel: u8 = ((self.data as usize & 0xff00) >> 8) as u8;
        let blue_channel: u8 = (self.data as usize & 0xff) as u8;
        proof {
            COLOR::channel_bounds();
            lemma_channel_scale_bounded(red_channel, 256, COLOR::spec_rmax());
            lemma_channel_scale_bounded(green_channel, 256, COLOR::spec_gmax());
            lemma_channel_scale_bounded(blue_channel, 256, COLOR::spec_bmax());
        }
        let blue = convert_channel(blue_channel, 256, COLOR::exec_bmax());
        let green = convert_channel(green_channel, 256, COLOR::exec_gmax());
        let red = convert_channel(red_channel, 256, COLOR::exec_rmax());
        COLOR::from_channels(red, green, blue)
    }
}

impl EmuRsColor for EmuRsColorFormatRgb888 {
    type InternalRepresentation = u32;

    open spec fn spec_raw(self) -> u32 {
        self.data
    }

    open spec fn spec_red(self) -> u8 {
        ((self.data as usize & 0xff0000) >> 16) as u8
    }

    open spec fn spec_green(self) -> u8 {
        ((self.data as usize & 0xff00) >> 8) as u8
    }

    open spec fn spec_blue(self) -> u8 {
        (self.data as usize & 0xff) as u8
    }

    open spec fn spec_rmax() -> usize {
        256
    }

    open spec fn spec_gmax() -> usize {
        256
    }

    open spec fn spec_bmax() -> usize {
        256
    }

    open spec fn spec_pack_rgb(red: u8, green: u8, blue: u8) -> Self {
        EmuRsColorFormatRgb888 { data: ((red as u32) << 16 | (green as u32) << 8 | (blue as u32)) as u32 }
    }

    proof fn channel_bounds() {
    }

    fn raw(&self) -> (r: u32) {
        self.data
    }

    fn channel_red(&self) -> (r: u8) {
        ((self.data as usize & 0xff0000) >> 16) as u8
    }

    fn channel_green(&self) -> (r: u8) {
        ((self.data as usize & 0xff00) >> 8) as u8
    }

    fn channel_blue(&self) -> (r: u8) {
        (self.data as usize & 0xff) as u8
    }

    fn exec_rmax() -> (r: usize) {
        256
    }

    fn exec_gmax() -> (r: usize) {
        256
    }

    fn exec_bmax() -> (r: usize) {
        256
    }

    fn from_channels(red: u8, green: u8, blue: u8) -> (r: Self) {
        Self { data: (red as u32) << 16 | (green as u32) << 8 | (blue as u32) }
    }
}

impl EmuRsRgbColor for EmuRsColorFormatRgb888 {
    fn new(red: u8, green: u8, blue: u8) -> (r: Self) {
        Self { data: (red as u32) << 16 | (green as u32) << 8 | (blue as u32) }
    }

    fn red(&self) -> (r: u8) {
        ((self.data as usize & 0xff0000) >> 16) as u8
    }

    fn green(&self) -> (r: u8) {
        ((self.data as usize & 0xff00) >> 8) as u8
    }

    fn blue(&self) -> (r: u8) {
        (self.data as usize & 0xff) as u8
    }

    fn rmax() -> (r: usize) {
        256
    }

    fn gmax() -> (r: usize) {
        256
    }

    fn bmax() -> (r: usize) {
        256
    }
}

/// A color with 5 blue, 6 green and 5 red bits packed into one `u16`.
#[derive(Clone, Copy, Debug, Default, PartialEq, Eq, Structural)]
pub struct EmuRsColorFormatBgr565 {
    pub data: u16,
}

impl EmuRsColorFormatBgr565 {
    /// The same color in another format, every channel rescaled to the
    /// target's range and packed in the target's own layout.
    pub fn convert_rgb<COLOR: EmuRsColor>(&self) -> (r: COLOR)
        ensures
            r == COLOR::spec_pack_rgb(
                spec_convert_channel(self.spec_red(), Self::spec_rmax(), COLOR::spec_rmax()),
                spec_convert_channel(self.spec_green(), Self::spec_gmax(), COLOR::spec_gmax()),
                spec_convert_channel(self.spec_blue(), Self::spec_bmax(), COLOR::spec_bmax()),
            ),
    {
        let red_channel: u8 = (self.data as usize & 0x1f) as u8;
        let green_channel: u8 = ((self.data as usize & 0x7e0) >> 5) as u8;
        let blue_channel: u8 = ((self.data as usize & 0xf800) >> 11) as u8;
        proof {
            COLOR::channel_bounds();
            lemma_channel_scale_bounded(red_channel, 32, COLOR::spec_rmax());
            lemma_channel_scale_bounded(green_channel, 64, COLOR::spec_gmax());
            lemma_channel_scale_bounded(blue_channel, 32, COLOR::spec_bmax());
        }
        let red = convert_channel(red_channel, 32, COLOR::exec_rmax());
        let green = convert_channel(green_channel, 64, COLOR::exec_gmax());
        let blue = convert_channel(blue_channel, 32, COLOR::exec_bmax());
        COLOR::from_channels(red, green, blue)
    }

    /// The same color in a blue-green-red format; each channel lands in the
    /// target's own slot, so the contract is the same as `convert_rgb`'s.
    pub fn convert_bgr<COLOR: EmuRsColor>(&self) -> (r: COLOR)
        ensures
            r == COLOR::spec_pack_rgb(
                spec_convert_channel(self.spec_red(), Self::spec_rmax(), COLOR::spec_rmax()),
                spec_convert_channel(self.spec_green(), Self::spec_gmax(), COLOR::spec_gmax()),
                spec_convert_channel(self.spec_blue(), Self::spec_bmax(), COLOR::spec_bmax()),
            ),
    {
        let red_channel: u8 = (self.data as usize & 0x1f) as u8;
        let green_channel: u8 = ((self.data as usize & 0x7e0) >> 5) as u8;
        let blue_channel: u8 = ((self.data as usize & 0xf800) >> 11) as u8;
        proof {
            COLOR::channel_bounds();
            lemma_channel_scale_bounded(red_channel, 32, COLOR::spec_rmax());
            lemma_channel_scale_bounded(green_channel, 64, COLOR::spec_gmax());
            lemma_channel_scale_bounded(blue_channel, 32, COLOR::spec_bmax());
        }
        let blue = convert_channel(blue_channel, 32, COLOR::exec_bmax());
        let green = convert_channel(green_channel, 64, COLOR::exec_gmax());
        let red = convert_channel(red_channel, 32, COLOR::exec_rmax());
        COLOR::from_channels(red, green, blue)
    }
}

impl EmuRsColor for EmuRsColorFormatBgr565 {
    type InternalRepresentation = u16;

    open spec fn spec_raw(self) -> u16 {
        self.data
    }

    open spec fn spec_red(self) -> u8 {
        (self.data as usize & 0x1f) as u8
    }

    open spec fn spec_green(self) -> u8 {
        ((self.data as usize & 0x7e0) >> 5) as u8
    }

    open spec fn spec_blue(self) -> u8 {
        ((self.data as usize & 0xf800) >> 11) as u8
    }

    open spec fn spec_rmax() -> usize {
        32
    }

    open spec fn spec_gmax() -> usize {
        64
    }

    open spec fn spec_bmax() -> usize {
        32
    }

    open spec fn spec_pack_rgb(red: u8, green: u8, blue: u8) -> Self {
        EmuRsColorFormatBgr565 { data: ((blue as u16) << 11 | (green as u16) << 5 | (red as u16)) as u16 }
    }

    proof fn channel_bounds() {
    }

    fn raw(&self) -> (r: u16) {
        self.data
    }

    fn channel_red(&self) -> (r: u8) {
        (self.data as usize & 0x1f) as u8
    }

    fn channel_green(&self) -> (r: u8) {
        ((self.data as usize & 0x7e0) >> 5) as u8
    }

    fn channel_blue(&self) -> (r: u8) {
        ((self.data as usize & 0xf800) >> 11) as u8
    }

    fn exec_rmax() -> (r: usize) {
        32
    }

    fn exec_gmax() -> (r: usize) {
        64
    }

    fn exec_bmax() -> (r: usize) {
        32
    }

    fn from_channels(red: u8, green: u8, blue: u8) -> (r: Self) {
        Self { data: (blue as u16) << 11 | (green as u16) << 5 | (red as u16) }
    }
}

impl EmuRsBgrColor for EmuRsColorFormatBgr565 {
    fn new(blue: u8, green: u8, red: u8) -> (r: Self) {
        Self { data: (blue as u16) << 11 | (green as u16) << 5 | (red as u16) }
    }

    fn blue(&self) -> (r: u8) {
        ((self.data as usize & 0xf800) >> 11) as u8
    }

    fn green(&self) -> (r: u8) {
        ((self.data as usize & 0x7e0) >> 5) as u8
    }

    fn red(&self) -> (r: u8) {
        (self.data as usize & 0x1f) as u8
    }

    fn bmax() -> (r: usize) {
        32
    }

    fn gmax() -> (r: usize) {
        64
    }

    fn rmax() -> (r: usize) {
        32
    }
}

/// The format the rest of the kernel treats as its common currency.
pub type EmuRsGenericColor = EmuRsColorFormatRgb888;

} // verus!
