use vstd::prelude::*;

verus! {

/// The six sixty-degree sectors of the hue circle, from red round to red.
#[derive(Clone, Copy, Debug, PartialEq, Eq, Structural)]
pub enum HueSector {
    RedYellow,
    YellowGreen,
    GreenCyan,
    CyanBlue,
    BlueMagenta,
    MagentaRed,
}

/// The sector of hue `h` in degrees; hues above 360 have none. The first
/// sector holds 0 to 60, each later one the next sixty degrees.
pub open spec fn sector_of(h: int) -> Option<HueSector> {
    if 0 <= h <= 60 {
        Some(HueSector::RedYellow)
    } else if 61 <= h <= 120 {
        Some(HueSector::YellowGreen)
    } else if 121 <= h <= 180 {
        Some(HueSector::GreenCyan)
    } else if 181 <= h <= 240 {
        Some(HueSector::CyanBlue)
    } else if 241 <= h <= 300 {
        Some(HueSector::BlueMagenta)
    } else if 301 <= h <= 360 {
        Some(HueSector::MagentaRed)
    } else {
        None
    }
}

/// The sector of hue `h`, as the HSL and HSV conversions choose it.
pub fn hue_sector(h: u16) -> (res: Option<HueSector>)
    ensures
        res == sector_of(h as int),
{
    if h <= 60 {
        Some(HueSector::RedYellow)
    } else if h <= 120 {
        Some(HueSector::YellowGreen)
    } else if h <= 180 {
        Some(HueSector::GreenCyan)
    } else if h <= 240 {
        Some(HueSector::CyanBlue)
    } else if h <= 300 {
        Some(HueSector::BlueMagenta)
    } else if h <= 360 {
        Some(HueSector::MagentaRed)
    } else {
        None
    }
}

/// The three terms an RGB channel is made of in a hue conversion: the
/// chroma plus the offset, the second-largest component plus the offset,
/// and the offset alone.
#[derive(Clone, Copy, Debug, PartialEq, Eq, Structural)]
pub enum ColorPart {
    Chroma,
    Second,
    Base,
}

/// Which term goes to the red, green and blue channel in each sector.
pub open spec fn parts_of(s: HueSector) -> (ColorPart, ColorPart, ColorPart) {
    match s {
        HueSector::RedYellow => (ColorPart::Chroma, ColorPart::Second, ColorPart::Base),
        HueSector::YellowGreen => (ColorPart::Second, ColorPart::Chroma, ColorPart::Base),
        HueSector::GreenCyan => (ColorPart::Base, ColorPart::Chroma, ColorPart::Second),
        HueSector::CyanBlue => (ColorPart::Base, ColorPart::Second, ColorPart::Chroma),
        HueSector::BlueMagenta => (ColorPart::Second, ColorPart::Base, ColorPart::Chroma),
        HueSector::MagentaRed => (ColorPart::Chroma, ColorPart::Base, ColorPart::Second),
    }
}

/// The terms of the red, green and blue channel in sector `s`.
pub fn sector_parts(s: HueSector) -> (res: (ColorPart, ColorPart, ColorPart))
    ensures
        res == parts_of(s),
{
    match s {
        HueSector::RedYellow => (ColorPart::Chroma, ColorPart::Second, ColorPart::Base),
        HueSector::YellowGreen => (ColorPart::Second, ColorPart::Chroma, ColorPart::Base),
        HueSector::GreenCyan => (ColorPart::Base, ColorPart::Chroma, ColorPart::Second),
        HueSector::CyanBlue => (ColorPart::Base, ColorPart::Second, ColorPart::Chroma),
        HueSector::BlueMagenta => (ColorPart::Second, ColorPart::Base, ColorPart::Chroma),
        HueSector::MagentaRed => (ColorPart::Chroma, ColorPart::Base, ColorPart::Second),
    }
}

/// Every hue from 0 to 360 degrees lies in a sector, and in every sector
/// each of the three terms goes to exactly one channel.
pub proof fn law_sectors_cover_and_permute(h: int)
    ensures
        0 <= h <= 360 <==> sector_of(h) is Some,
        sector_of(h) matches Some(s) ==> {
            let (r, g, b) = parts_of(s);
            r != g && g != b && r != b
        },
{
}

/// The place of a sector round the hue circle, counting from red.
pub open spec fn sector_number(s: HueSector) -> int {
    match s {
        HueSector::RedYellow => 0,
        HueSector::YellowGreen => 1,
        HueSector::GreenCyan => 2,
        HueSector::CyanBlue => 3,
        HueSector::BlueMagenta => 4,
        HueSector::MagentaRed => 5,
    }
}

/// The channel (0 red, 1 green, 2 blue) that gets `part` in `parts`.
pub open spec fn channel_of(parts: (ColorPart, ColorPart, ColorPart), part: ColorPart) -> int {
    if parts.0 == part {
        0
    } else if parts.1 == part {
        1
    } else {
        2
    }
}

/// Each sector is the sixty degrees ending at its multiple of sixty: a hue
/// from 1 to 360 lies in sector `(h - 1) / 60`, and hue 0 in the first.
pub proof fn law_sector_by_sixty_degrees(h: int)
    requires
        0 <= h <= 360,
    ensures
        sector_of(h) is Some,
        h == 0 ==> sector_number(sector_of(h).unwrap()) == 0,
        h >= 1 ==> sector_number(sector_of(h).unwrap()) == (h - 1) / 60,
{
}

/// Round the hue circle the chroma goes to red, green, green, blue, blue,
/// red in the six sectors, and the offset alone to blue, blue, red, red,
/// green, green: sector `k` puts the chroma in channel `((k + 1) / 2) % 3`
/// and the offset alone in channel `(k / 2 + 2) % 3`, the remaining channel
/// taking the second component.
pub proof fn law_sector_channels(s: HueSector)
    ensures
        channel_of(parts_of(s), ColorPart::Chroma) == ((sector_number(s) + 1) / 2) % 3,
        channel_of(parts_of(s), ColorPart::Base) == (sector_number(s) / 2 + 2) % 3,
        channel_of(parts_of(s), ColorPart::Second) != channel_of(parts_of(s), ColorPart::Chroma),
        channel_of(parts_of(s), ColorPart::Second) != channel_of(parts_of(s), ColorPart::Base),
        parts_of(s).0 == ColorPart::Chroma || parts_of(s).1 == ColorPart::Chroma || parts_of(s).2 == ColorPart::Chroma,
        parts_of(s).0 == ColorPart::Base || parts_of(s).1 == ColorPart::Base || parts_of(s).2 == ColorPart::Base,
        parts_of(s).0 == ColorPart::Second || parts_of(s).1 == ColorPart::Second || parts_of(s).2 == ColorPart::Second,
{
}

/// The hue of entry `i` of the 129-entry colour table: `i * 360 / 129`
/// degrees, rounded down.
pub open spec fn lut_hue(i: int) -> int {
    i * 360 / 129
}

/// Entry `i` of the table has the largest whole hue not above `i` 129ths
/// of the circle: `129 * h <= 360 * i < 129 * (h + 1)`.
pub proof fn law_lut_hue_rounds_down(i: int)
    requires
        0 <= i < 129,
    ensures
        129 * lut_hue(i) <= 360 * i < 129 * (lut_hue(i) + 1),
        0 <= lut_hue(i) < 360,
{
}

/// The hues of the 129-entry colour table, one per entry.
pub fn lut_hues() -> (res: Vec<u16>)
    ensures
        res@.len() == 129,
        forall|i: int| 0 <= i < 129 ==> res@[i] == lut_hue(i),
{
    let mut res: Vec<u16> = Vec::with_capacity(129);
    let mut i: u32 = 0;
    while i < 129
        invariant
            i <= 129,
            res@.len() == i,
            forall|j: int| 0 <= j < i ==> res@[j] == lut_hue(j),
        decreases 129 - i,
    {
        assert(i * 360 / 129 <= 360) by (nonlinear_arith)
            requires
                i < 129,
        ;
        let h = (i * 360 / 129) as u16;
        res.push(h);
        i = i + 1;
    }
    res
}

} // verus!
