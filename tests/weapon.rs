use re2::{AimZone, CharacterId, FrameFlags, HitBounds, Item, Ptr32, SceType, WeaponRange};

#[test]
fn hit_bounds_area() {
    assert!(HitBounds::new(1, 2, 3).has_area());
    assert!(!HitBounds::new(1, 0, 3).has_area());
    assert!(!HitBounds::zero().has_area());
}

#[test]
fn weapon_range_emptiness() {
    assert!(WeaponRange::none().is_empty());
    let b = HitBounds::new(0, 10, 10);
    assert!(!WeaponRange::low(b, b, b).is_empty());
    assert_eq!(WeaponRange::high(b, b, b).aim_zones[2], AimZone::HighFar);
    assert!(WeaponRange::one(AimZone::Mid, HitBounds::zero()).is_empty());
    assert!(!WeaponRange::one(AimZone::Mid, b).is_empty());
    assert_eq!(WeaponRange::mid(b, b, b).aim_zones, [AimZone::Mid; 3]);
}

#[test]
fn aim_zone_bits() {
    assert_eq!(AimZone::HighMid.bits(), 0x20);
    assert_eq!(AimZone::from_bits(0x80), Some(AimZone::KnifeHigh));
    assert_eq!(AimZone::from_bits(3), None);
}

#[test]
fn address_bits() {
    assert_eq!(Ptr32::new(0x8001_0000).as_int(), 0x8001_0000);
    assert!(Ptr32::new(0).is_null());
}

#[test]
fn identifier_names() {
    assert_eq!(Item::from_id(1), Some(Item::Knife));
    assert_eq!(Item::Knife.name(), "Knife");
    assert!(Item::Knife.is_weapon());
    assert!(!Item::Empty.is_weapon());
    assert_eq!(Item::from_id(1000), None);
    assert_eq!(SceType::from_id(6).name(), "Flag Change");
    assert_eq!(SceType::from_id(200), SceType::Unknown);
    assert!(SceType::Door.is_trigger());
    assert!(CharacterId::Leon.is_player());
    assert_eq!(CharacterId::from_id(0), Some(CharacterId::Leon));
    assert_eq!(CharacterId::Leon.name(), "Leon");
}

#[test]
fn frame_flags_split() {
    let f = FrameFlags(0x1234_5678);
    assert_eq!(f.index(), 0x678);
    assert_eq!(f.flags(), 0x1234_5000);
}
