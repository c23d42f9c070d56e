//! The colour value: three 8-bit channels in the order luma, chroma-1, chroma-2.

use vstd::prelude::*;

verus! {

/// A colour in the frame's native space: `[luma, chroma-1, chroma-2]`.
#[derive(Clone, Copy, Debug)]
pub struct YUV(pub [u8; 3]);

/// The channels of black.
pub const BLACK: [u8; 3] = [0, 0x80, 0x80];

/// The channels of white.
pub const WHITE: [u8; 3] = [0xff, 0x80, 0x80];

/// The channels of red.
pub const RED: [u8; 3] = [0x4c, 0x55, 0xff];

/// The channels of green.
pub const GREEN: [u8; 3] = [0, 0, 0];

/// The channels of cyan.
pub const CYAN: [u8; 3] = [0xb3, 0xab, 0x00];

/// The channels of blue.
pub const BLUE: [u8; 3] = [0x1d, 0xff, 0x6b];

/// The channels of yellow.
pub const YELLOW: [u8; 3] = [0xe2, 0x00, 0x95];

/// The largest value of a channel, and the value of the implied opacity channel.
pub const DEFAULT_MAX_VALUE: u8 = 255;

/// The number of channels that a colour holds.
pub const CHANNEL_COUNT: u8 = 3;

/// The colour whose channels are `y`, `u` and `v`.
pub open spec fn yuv(y: u8, u: u8, v: u8) -> YUV {
    YUV([y, u, v])
}

/// A converted red-green-blue triple with full opacity behind it.
pub fn rgba_from_rgb(rgb: [u8; 3]) -> (r: [u8; 4])
    ensures
        r@ == seq![rgb[0], rgb[1], rgb[2], DEFAULT_MAX_VALUE],
{
    let r = [rgb[0], rgb[1], rgb[2], DEFAULT_MAX_VALUE];
    assert(r@ =~= seq![rgb[0], rgb[1], rgb[2], DEFAULT_MAX_VALUE]);
    r
}

/// The gray value of a converted red-green-blue triple: its red channel, with
/// no weighting of the three.
pub fn luma_from_rgb(rgb: [u8; 3]) -> (r: u8)
    ensures
        r == rgb[0],
{
    rgb[0]
}

/// The gray value of a converted red-green-blue triple with full opacity
/// behind it.
pub fn luma_alpha_from_rgb(rgb: [u8; 3]) -> (r: [u8; 2])
    ensures
        r@ == seq![rgb[0], DEFAULT_MAX_VALUE],
{
    let r = [rgb[0], DEFAULT_MAX_VALUE];
    assert(r@ =~= seq![rgb[0], DEFAULT_MAX_VALUE]);
    r
}

/// Two colours are equal when their channels are.
pub proof fn lemma_yuv_ext(a: YUV, b: YUV)
    requires
        a.luma() == b.luma(),
        a.chroma1() == b.chroma1(),
        a.chroma2() == b.chroma2(),
    ensures
        a == b,
{
    assert(a.0 =~= b.0);
}

impl YUV {
    /// The luma channel.
    pub open spec fn luma(self) -> u8 {
        self.0[0]
    }

    /// The first chroma channel.
    pub open spec fn chroma1(self) -> u8 {
        self.0[1]
    }

    /// The second chroma channel.
    pub open spec fn chroma2(self) -> u8 {
        self.0[2]
    }

    /// The colour with every channel replaced by its complement to 255.
    pub open spec fn spec_invert(self) -> YUV {
        yuv((255 - self.0[0]) as u8, (255 - self.0[1]) as u8, (255 - self.0[2]) as u8)
    }

    /// The three channels, in order.
    pub fn channels(&self) -> (r: &[u8])
        ensures
            r@ == self.0@,
    {
        self.0.as_slice()
    }

    /// The three channels, to be written in place.
    pub fn channels_mut(&mut self) -> (r: &mut [u8])
        ensures
            r@ == old(self).0@,
            final(self).0@ == final(r)@,
    {
        &mut self.0
    }

    /// The three channels followed by full opacity.
    pub fn channels4(&self) -> (r: (u8, u8, u8, u8))
        ensures
            r == (self.luma(), self.chroma1(), self.chroma2(), DEFAULT_MAX_VALUE),
    {
        (self.0[0], self.0[1], self.0[2], DEFAULT_MAX_VALUE)
    }

    /// The colour of the first three arguments; the fourth is dropped.
    pub fn from_channels(a: u8, b: u8, c: u8, d: u8) -> (r: YUV)
        ensures
            r == yuv(a, b, c),
    {
        YUV([a, b, c])
    }

    /// The colour whose channels are the three bytes of `slice`.
    pub fn from_slice(slice: &[u8]) -> (r: YUV)
        requires
            slice@.len() == CHANNEL_COUNT,
        ensures
            r.0@ == slice@,
    {
        let r = YUV([slice[0], slice[1], slice[2]]);
        assert(r.0@ =~= slice@);
        r
    }

    /// The colour whose channels are `f` of this colour's channels, asked in
    /// channel order.
    pub fn map<F: FnMut(u8) -> u8>(&self, f: F) -> (r: YUV)
        requires
            forall|i: int| 0 <= i < 3 ==> f.requires((#[trigger] self.0[i],)),
        ensures
            forall|i: int| 0 <= i < 3 ==> f.ensures((#[trigger] self.0[i],), r.0[i]),
    {
        let mut this = *self;
        this.apply(f);
        this
    }

    /// Replaces each channel by `f` of it, asked in channel order.
    pub fn apply<F: FnMut(u8) -> u8>(&mut self, mut f: F)
        requires
            forall|i: int| 0 <= i < 3 ==> f.requires((#[trigger] old(self).0[i],)),
        ensures
            forall|i: int| 0 <= i < 3 ==> f.ensures((#[trigger] old(self).0[i],), final(self).0[i]),
    {
        let y = f(self.0[0]);
        let u = f(self.0[1]);
        let v = f(self.0[2]);
        *self = YUV([y, u, v]);
    }

    /// As [`YUV::map`]: a colour has no opacity channel, so `g` is never asked.
    pub fn map_with_alpha<F: FnMut(u8) -> u8, G: FnMut(u8) -> u8>(&self, f: F, g: G) -> (r: YUV)
        requires
            forall|i: int| 0 <= i < 3 ==> f.requires((#[trigger] self.0[i],)),
        ensures
            forall|i: int| 0 <= i < 3 ==> f.ensures((#[trigger] self.0[i],), r.0[i]),
    {
        let mut this = *self;
        this.apply_with_alpha(f, g);
        this
    }

    /// As [`YUV::apply`]: a colour has no opacity channel, so `g` is never asked.
    pub fn apply_with_alpha<F: FnMut(u8) -> u8, G: FnMut(u8) -> u8>(&mut self, f: F, g: G)
        requires
            forall|i: int| 0 <= i < 3 ==> f.requires((#[trigger] old(self).0[i],)),
        ensures
            forall|i: int| 0 <= i < 3 ==> f.ensures((#[trigger] old(self).0[i],), final(self).0[i]),
    {
        self.apply(f)
    }

    /// The colour whose channels are `f` of this colour's and `other`'s
    /// channels, pair by pair in channel order.
    pub fn map2<F: FnMut(u8, u8) -> u8>(&self, other: &YUV, f: F) -> (r: YUV)
        requires
            forall|i: int| 0 <= i < 3 ==> f.requires((#[trigger] self.0[i], other.0[i])),
        ensures
            forall|i: int| 0 <= i < 3 ==> f.ensures((#[trigger] self.0[i], other.0[i]), r.0[i]),
    {
        let mut this = *self;
        this.apply2(other, f);
        this
    }

    /// Replaces each channel by `f` of it and of `other`'s channel in the same
    /// place, in channel order.
    pub fn apply2<F: FnMut(u8, u8) -> u8>(&mut self, other: &YUV, mut f: F)
        requires
            forall|i: int| 0 <= i < 3 ==> f.requires((#[trigger] old(self).0[i], other.0[i])),
        ensures
            forall|i: int|
                0 <= i < 3 ==> f.ensures((#[trigger] old(self).0[i], other.0[i]), final(self).0[i]),
    {
        let y = f(self.0[0], other.0[0]);
        let u = f(self.0[1], other.0[1]);
        let v = f(self.0[2], other.0[2]);
        *self = YUV([y, u, v]);
    }

    /// Replaces every channel `c` by `255 - c`, the chroma channels included.
    pub fn invert(&mut self)
        ensures
            *final(self) == old(self).spec_invert(),
    {
        let yuv = self.0;
        let max = DEFAULT_MAX_VALUE;
        let y = max - yuv[0];
        let u = max - yuv[1];
        let v = max - yuv[2];
        *self = YUV([y, u, v]);
    }

    /// Overwrites this colour with `other`: nothing of the old colour is kept.
    pub fn blend(&mut self, other: &YUV)
        ensures
            *final(self) == *other,
    {
        *self = *other;
    }
}

/// Inverting twice gives the colour back.
pub proof fn lemma_invert_involution(c: YUV)
    ensures
        c.spec_invert().spec_invert() == c,
{
    lemma_yuv_ext(c.spec_invert().spec_invert(), c);
}

} // verus!
