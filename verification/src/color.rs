//! A validated four-channel color.
//!
//! Channels are held exactly, as ratios of machine integers, so that the
//! value a caller stores is the value the accessors hand back: no clamping,
//! no rounding.  Construction succeeds only when every channel lies in the
//! unit interval, and a failed construction reports which channels were out
//! of range.

use vstd::prelude::*;

verus! {

/// One color channel, held exactly as the ratio `num / den`.
///
/// The ratio names a point of the unit interval only when `den` is
/// positive and `num` sits between `0` and `den`; see [`Channel::in_unit`].
#[derive(Clone, Copy, Debug, PartialEq, Eq, Structural)]
pub struct Channel {
    pub num: i64,
    pub den: i64,
}

impl Channel {
    /// The channel is a well-defined value of the unit interval `[0, 1]`:
    /// the denominator is positive and the ratio sits between 0 and 1.
    pub open spec fn in_unit(self) -> bool {
        self.den > 0 && 0 <= self.num <= self.den
    }

    /// The two ratios name the same number (cross multiplication).
    /// Meaningful only for channels with positive denominators.
    pub open spec fn rat_eq(self, other: Channel) -> bool {
        self.num * other.den == other.num * self.den
    }

    /// Build a channel from an arbitrary ratio; rejects a denominator
    /// that does not make the ratio well defined.
    pub fn new(num: i64, den: i64) -> (r: Option<Channel>)
        ensures
            den >= 1 ==> r == Some(Channel { num, den }),
            den < 1 ==> r is None,
    {
        if den >= 1 {
            Some(Channel { num, den })
        } else {
            None
        }
    }

    /// Exact comparison of the two ratios, by cross multiplication.
    pub fn eqv(&self, other: &Channel) -> (r: bool)
        ensures
            r == self.rat_eq(*other),
    {
        proof {
            lemma_cross_product_fits(self.num as int, other.den as int);
            lemma_cross_product_fits(other.num as int, self.den as int);
        }
        (self.num as i128) * (other.den as i128) == (other.num as i128) * (self.den as i128)
    }

    /// Runtime check that the channel lies in the unit interval.
    pub fn in_unit_range(&self) -> (r: bool)
        ensures
            r == self.in_unit(),
    {
        self.den > 0 && 0 <= self.num && self.num <= self.den
    }
}

/// The product of two factors of machine-integer magnitude stays inside
/// the range of the double-width comparison arithmetic.
proof fn lemma_cross_product_fits(a: int, b: int)
    requires
        -0x8000_0000_0000_0000 <= a <= 0x7fff_ffff_ffff_ffff,
        -0x8000_0000_0000_0000 <= b <= 0x7fff_ffff_ffff_ffff,
    ensures
        -0x4000_0000_0000_0000_0000_0000_0000_0000 <= a * b
            <= 0x4000_0000_0000_0000_0000_0000_0000_0000,
{
    assert(-0x4000_0000_0000_0000_0000_0000_0000_0000 <= a * b
        <= 0x4000_0000_0000_0000_0000_0000_0000_0000) by (nonlinear_arith)
        requires
            -0x8000_0000_0000_0000 <= a <= 0x7fff_ffff_ffff_ffff,
            -0x8000_0000_0000_0000 <= b <= 0x7fff_ffff_ffff_ffff,
    ;
}

/// A validated color: four channels, each inside the unit interval.
#[derive(Clone, Copy, Debug, PartialEq, Eq, Structural)]
pub struct RgbaColor {
    pub red: Channel,
    pub green: Channel,
    pub blue: Channel,
    pub alpha: Channel,
}

/// Which channels of an attempted construction lay outside `[0, 1]`.
#[derive(Clone, Copy, Debug, PartialEq, Eq, Structural)]
pub struct ChannelFault {
    pub red: bool,
    pub green: bool,
    pub blue: bool,
    pub alpha: bool,
}

impl ChannelFault {
    /// At least one channel was out of range.
    pub open spec fn any(self) -> bool {
        self.red || self.green || self.blue || self.alpha
    }
}

impl RgbaColor {
    /// Every channel of the tuple `(red, green, blue, alpha)` lies in `[0, 1]`.
    pub open spec fn all_in_unit(channels: (Channel, Channel, Channel, Channel)) -> bool {
        channels.0.in_unit() && channels.1.in_unit() && channels.2.in_unit()
            && channels.3.in_unit()
    }

    /// What construction returns: the color holding the channels exactly
    /// when all four are in range, nothing otherwise.
    pub open spec fn new_spec(channels: (Channel, Channel, Channel, Channel)) -> Option<
        RgbaColor,
    > {
        if Self::all_in_unit(channels) {
            Some(
                RgbaColor {
                    red: channels.0,
                    green: channels.1,
                    blue: channels.2,
                    alpha: channels.3,
                },
            )
        } else {
            None
        }
    }

    /// Construct a color from the four channels `(red, green, blue, alpha)`.
    /// Fails unless every channel lies in the unit interval; on success the
    /// channels are stored exactly as given.
    pub fn new(channels: (Channel, Channel, Channel, Channel)) -> (r: Option<RgbaColor>)
        ensures
            r == Self::new_spec(channels),
    {
        if channels.0.in_unit_range() && channels.1.in_unit_range() && channels.2.in_unit_range()
            && channels.3.in_unit_range() {
            Some(
                RgbaColor {
                    red: channels.0,
                    green: channels.1,
                    blue: channels.2,
                    alpha: channels.3,
                },
            )
        } else {
            None
        }
    }

    /// Report, channel by channel, which of the four inputs lie outside the
    /// unit interval; construction fails exactly when the report is non-empty.
    pub fn faults(channels: (Channel, Channel, Channel, Channel)) -> (r: ChannelFault)
        ensures
            r.red == !channels.0.in_unit(),
            r.green == !channels.1.in_unit(),
            r.blue == !channels.2.in_unit(),
            r.alpha == !channels.3.in_unit(),
            r.any() == Self::new_spec(channels) is None,
    {
        ChannelFault {
            red: !channels.0.in_unit_range(),
            green: !channels.1.in_unit_range(),
            blue: !channels.2.in_unit_range(),
            alpha: !channels.3.in_unit_range(),
        }
    }

    /// The stored red channel, exactly as constructed.
    pub fn red(&self) -> (r: Channel)
        ensures
            r == self.red,
    {
        self.red
    }

    /// The stored green channel, exactly as constructed.
    pub fn green(&self) -> (r: Channel)
        ensures
            r == self.green,
    {
        self.green
    }

    /// The stored blue channel, exactly as constructed.
    pub fn blue(&self) -> (r: Channel)
        ensures
            r == self.blue,
    {
        self.blue
    }

    /// The stored alpha channel, exactly as constructed.
    pub fn alpha(&self) -> (r: Channel)
        ensures
            r == self.alpha,
    {
        self.alpha
    }
}

/// Law: construction from channels that all lie in the unit interval
/// succeeds, and the constructed color holds each input channel exactly,
/// so the four accessors return exactly the inputs.
pub proof fn lemma_construction_in_unit_succeeds(channels: (Channel, Channel, Channel, Channel))
    requires
        channels.0.in_unit(),
        channels.1.in_unit(),
        channels.2.in_unit(),
        channels.3.in_unit(),
    ensures
        RgbaColor::new_spec(channels) == Some(
            RgbaColor {
                red: channels.0,
                green: channels.1,
                blue: channels.2,
                alpha: channels.3,
            },
        ),
{
}

/// Law: construction fails whenever any channel lies outside the unit
/// interval, whichever channel it is.
pub proof fn lemma_construction_out_of_unit_fails(channels: (Channel, Channel, Channel, Channel))
    requires
        !RgbaColor::all_in_unit(channels),
    ensures
        RgbaColor::new_spec(channels) is None,
{
}

} // verus!
