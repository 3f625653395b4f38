use re2::{sqrt, Fixed16, Fixed32, UFixed16, Vec2};

fn atan_units(slope: Fixed32) -> Fixed32 {
    let atan = (slope.0 as f64 / 4096.0).atan();
    Fixed32(((atan * 2048.0) / 3.14) as i32)
}

fn angle_between(from: &Vec2, to: &Vec2) -> Fixed32 {
    let atan = match from.slope_to(to) {
        Some(s) => atan_units(s),
        None => Fixed32(0),
    };
    from.heading_from_atan(to, atan)
}

#[test]
fn test_sqrt() {
    assert_eq!(sqrt(0x2a04c2a), 0x19ec);
    assert_eq!(Fixed32(0x4000).sqrt(), Fixed32(0x2000));
}

#[test]
fn test_sin() {
    assert_eq!(Fixed32(0x400).sin(), Fixed32(0x1000));
    assert_eq!(Fixed32(0x13db).sin(), Fixed32(0xff9));
    assert_eq!(Fixed32(0xfdb).sin(), Fixed32(-232));
}

#[test]
fn test_angle_between_points() {
    let zombie_pos = Vec2::new(Fixed32(-26346), Fixed32(-25364));
    let player_pos = Vec2::new(Fixed32(-25194), Fixed32(-24143));
    let angle = angle_between(&zombie_pos, &player_pos);
    assert_eq!(angle, Fixed32(3565));
}

#[test]
fn sqrt_of_zero_and_minus_one_is_zero() {
    assert_eq!(sqrt(0), 0);
    assert_eq!(sqrt(-1), 0);
    assert_eq!(Fixed32(0).sqrt(), Fixed32(0));
}

#[test]
fn sqrt_of_one_is_one() {
    assert_eq!(Fixed32(0x1000).sqrt(), Fixed32(0x1000));
}

#[test]
fn cos_is_sine_a_quarter_turn_later() {
    assert_eq!(Fixed32(0).cos(), Fixed32(0x1000));
    assert_eq!(Fixed32(0x400).cos(), Fixed32(0));
    assert_eq!(Fixed32(0x800).cos(), Fixed32(-0x1000));
    assert_eq!(Fixed32(0).sin(), Fixed32(0));
    assert_eq!(Fixed32(0xc00).sin(), Fixed32(-0x1000));
}

#[test]
fn products_shift_and_truncate() {
    assert_eq!(Fixed32(0x2000).mul(Fixed32(0x3000)), Fixed32(0x6000));
    assert_eq!(Fixed32(-1).mul(Fixed32(1)), Fixed32(-1));
    assert_eq!(Fixed16(0x2000).mul(Fixed16(0x0800)), Fixed16(0x1000));
    assert_eq!(Fixed16(0x4000).mul(Fixed16(0x4000)), Fixed16(0));
    assert_eq!(UFixed16(0x4000).mul(UFixed16(0x2000)), UFixed16(0x8000));
    assert_eq!(UFixed16(0x8000).mul(UFixed16(0x2000)), UFixed16(0));
}

#[test]
fn quotients_shift_then_divide() {
    assert_eq!(Fixed32(0x3000).div(Fixed32(0x2000)), Fixed32(0x1800));
    assert_eq!(Fixed32(-0x3000).div(Fixed32(0x2000)), Fixed32(-0x1800));
    assert_eq!(Fixed16(0x0004).div(Fixed16(0x0008)), Fixed16(0x0800));
    assert_eq!(Fixed16(0x0100).div(Fixed16(0x0200)), Fixed16(0));
}

#[test]
fn sums_wrap() {
    assert_eq!(Fixed32(i32::MAX).add(Fixed32(1)), Fixed32(i32::MIN));
    assert_eq!(Fixed16(i16::MIN).sub(Fixed16(1)), Fixed16(i16::MAX));
    assert_eq!(Fixed32(i32::MAX).inc(), Fixed32(i32::MIN));
    assert_eq!(Fixed32(i32::MIN).dec(), Fixed32(i32::MAX));
    assert_eq!(Fixed16(i16::MIN).abs(), Fixed16(i16::MIN));
    assert_eq!(Fixed16(i16::MIN).unsigned_abs(), UFixed16(0x8000));
}

#[test]
fn signed_and_unsigned_compare_by_value() {
    assert!(!Fixed16(-1).eq_unsigned(&UFixed16(0xffff)));
    assert!(Fixed16(5).eq_unsigned(&UFixed16(5)));
    assert!(Fixed16(-1).lt_unsigned(&UFixed16(0)));
    assert!(!Fixed16(7).lt_unsigned(&UFixed16(7)));
}

#[test]
fn vector_length_uses_the_table_root() {
    assert_eq!(Vec2::new(Fixed32(3), Fixed32(4)).len(), Fixed32(5));
    assert_eq!(Vec2::new(Fixed32(0), Fixed32(0)).len(), Fixed32(0));
}

#[test]
fn vector_length_saturates_on_overflow() {
    assert_eq!(Vec2::new(Fixed32(50000), Fixed32(0)).len(), Fixed32(i32::MAX));
    assert_eq!(Vec2::new(Fixed32(40000), Fixed32(40000)).len(), Fixed32(i32::MAX));
}

#[test]
fn rotation_by_a_quarter_turn() {
    let v = Vec2::new(Fixed32(0x1000), Fixed32(0));
    let r = v.rotate_y(Fixed32(0x400));
    assert_eq!(r, Vec2::new(Fixed32(0), Fixed32(-0x1000)));
    assert_eq!(v.rotate_y(Fixed32(0)), v);
}

#[test]
fn heading_along_the_z_axis() {
    let a = Vec2::zero();
    assert_eq!(a.slope_to(&Vec2::new(Fixed32(0), Fixed32(10))), None);
    assert_eq!(angle_between(&a, &Vec2::new(Fixed32(0), Fixed32(10))), Fixed32(0xc00));
    assert_eq!(angle_between(&a, &Vec2::new(Fixed32(0), Fixed32(-10))), Fixed32(0x400));
}

#[test]
fn saturating_difference() {
    let a = Vec2::new(Fixed32(i32::MIN), Fixed32(5));
    let b = Vec2::new(Fixed32(1), Fixed32(-3));
    assert_eq!(a.saturating_sub(b), Vec2::new(Fixed32(i32::MIN), Fixed32(8)));
}
