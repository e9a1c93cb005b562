use foray_render::color::Channel;
use foray_render::color::RgbaColor;

fn ch(num: i64, den: i64) -> Channel {
    Channel { num, den }
}

#[test]
fn construction_succeeds_on_unit_channels() {
    let channels = (ch(0, 1), ch(1, 1), ch(1, 2), ch(3, 4));
    let c = RgbaColor::new(channels).expect("all channels lie in [0, 1]");
    assert_eq!(c.red(), ch(0, 1));
    assert_eq!(c.green(), ch(1, 1));
    assert_eq!(c.blue(), ch(1, 2));
    assert_eq!(c.alpha(), ch(3, 4));
}

#[test]
fn construction_stores_exact_ratios() {
    let channels = (ch(1, 3), ch(2, 7), ch(99, 100), ch(0, 5));
    let c = RgbaColor::new(channels).expect("all channels lie in [0, 1]");
    assert_eq!(c.red().num, 1);
    assert_eq!(c.red().den, 3);
    assert_eq!(c.blue().num, 99);
    assert_eq!(c.blue().den, 100);
}

#[test]
fn construction_rejects_red_above_one() {
    assert!(RgbaColor::new((ch(3, 2), ch(0, 1), ch(0, 1), ch(1, 1))).is_none());
}

#[test]
fn construction_rejects_green_negative() {
    assert!(RgbaColor::new((ch(0, 1), ch(-1, 2), ch(0, 1), ch(1, 1))).is_none());
}

#[test]
fn construction_rejects_blue_undefined() {
    assert!(RgbaColor::new((ch(0, 1), ch(0, 1), ch(0, 0), ch(1, 1))).is_none());
}

#[test]
fn construction_rejects_alpha_above_one() {
    assert!(RgbaColor::new((ch(0, 1), ch(0, 1), ch(0, 1), ch(5, 4))).is_none());
}

#[test]
fn faults_name_every_offending_channel() {
    let f = RgbaColor::faults((ch(2, 1), ch(0, 1), ch(-3, 4), ch(1, 1)));
    assert!(f.red);
    assert!(!f.green);
    assert!(f.blue);
    assert!(!f.alpha);
}

#[test]
fn faults_empty_when_all_in_range() {
    let f = RgbaColor::faults((ch(0, 1), ch(1, 2), ch(1, 1), ch(1, 1)));
    assert!(!f.red && !f.green && !f.blue && !f.alpha);
}

#[test]
fn channel_new_rejects_bad_denominator() {
    assert!(Channel::new(1, 0).is_none());
    assert!(Channel::new(1, -2).is_none());
    assert_eq!(Channel::new(1, 2), Some(ch(1, 2)));
}

#[test]
fn channel_eqv_compares_ratios_exactly() {
    assert!(ch(1, 2).eqv(&ch(2, 4)));
    assert!(ch(0, 7).eqv(&ch(0, 1)));
    assert!(!ch(1, 2).eqv(&ch(1, 3)));
    assert!(!ch(1, 1).eqv(&ch(1, 2)));
}

#[test]
fn channel_in_unit_range_checks_both_bounds() {
    assert!(ch(0, 1).in_unit_range());
    assert!(ch(1, 1).in_unit_range());
    assert!(!ch(2, 1).in_unit_range());
    assert!(!ch(-1, 1).in_unit_range());
    assert!(!ch(0, 0).in_unit_range());
}
