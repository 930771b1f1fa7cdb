use nanometers::utils::{hue_sector, lut_hues, sector_parts, ColorPart, HueSector};

#[test]
fn sectors_by_hue() {
    assert_eq!(hue_sector(0), Some(HueSector::RedYellow));
    assert_eq!(hue_sector(60), Some(HueSector::RedYellow));
    assert_eq!(hue_sector(61), Some(HueSector::YellowGreen));
    assert_eq!(hue_sector(120), Some(HueSector::YellowGreen));
    assert_eq!(hue_sector(180), Some(HueSector::GreenCyan));
    assert_eq!(hue_sector(240), Some(HueSector::CyanBlue));
    assert_eq!(hue_sector(241), Some(HueSector::BlueMagenta));
    assert_eq!(hue_sector(360), Some(HueSector::MagentaRed));
    assert_eq!(hue_sector(361), None);
    assert_eq!(hue_sector(u16::MAX), None);
}

#[test]
fn parts_per_sector() {
    assert_eq!(sector_parts(HueSector::RedYellow), (ColorPart::Chroma, ColorPart::Second, ColorPart::Base));
    assert_eq!(sector_parts(HueSector::YellowGreen), (ColorPart::Second, ColorPart::Chroma, ColorPart::Base));
    assert_eq!(sector_parts(HueSector::GreenCyan), (ColorPart::Base, ColorPart::Chroma, ColorPart::Second));
    assert_eq!(sector_parts(HueSector::CyanBlue), (ColorPart::Base, ColorPart::Second, ColorPart::Chroma));
    assert_eq!(sector_parts(HueSector::BlueMagenta), (ColorPart::Second, ColorPart::Base, ColorPart::Chroma));
    assert_eq!(sector_parts(HueSector::MagentaRed), (ColorPart::Chroma, ColorPart::Base, ColorPart::Second));
}

#[test]
fn lut_hue_values() {
    let h = lut_hues();
    assert_eq!(h.len(), 129);
    assert_eq!(h[0], 0);
    assert_eq!(h[1], 2);
    assert_eq!(h[43], 120);
    assert_eq!(h[86], 240);
    assert_eq!(h[128], 357);
}
