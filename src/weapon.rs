//! The areas in which a weapon's hit can land.
use vstd::prelude::*;

use crate::fixed::Fixed16;

verus! {

/// A rectangle where a weapon's hit can land.
#[derive(Debug, Clone, Copy, PartialEq, Eq, Structural)]
pub struct HitBounds {
    pub x: Fixed16,
    pub z: Fixed16,
    pub x_size_half: Fixed16,
    pub z_size_quarter: Fixed16,
}

impl HitBounds {
    /// Bounds without a z offset, the common case.
    pub fn new(x: i16, x_size_half: i16, z_size_quarter: i16) -> (r: Self)
        ensures
            r.x.0 == x && r.z.0 == 0 && r.x_size_half.0 == x_size_half && r.z_size_quarter.0
                == z_size_quarter,
    {
        HitBounds {
            x: Fixed16(x),
            z: Fixed16(0),
            x_size_half: Fixed16(x_size_half),
            z_size_quarter: Fixed16(z_size_quarter),
        }
    }

    pub fn zero() -> (r: Self)
        ensures
            r.x.0 == 0 && r.z.0 == 0 && r.x_size_half.0 == 0 && r.z_size_quarter.0 == 0,
    {
        HitBounds { x: Fixed16(0), z: Fixed16(0), x_size_half: Fixed16(0), z_size_quarter: Fixed16(0) }
    }

    pub open spec fn spec_has_area(&self) -> bool {
        self.x_size_half.0 != 0 && self.z_size_quarter.0 != 0
    }

    /// Both sizes are nonzero.
    pub fn has_area(&self) -> (r: bool)
        ensures
            r == self.spec_has_area(),
    {
        !self.x_size_half.is_zero() && !self.z_size_quarter.is_zero()
    }
}

impl Default for HitBounds {
    fn default() -> (r: Self)
        ensures
            r.x.0 == 0 && r.z.0 == 0 && r.x_size_half.0 == 0 && r.z_size_quarter.0 == 0,
    {
        HitBounds::zero()
    }
}

/// The aim height and target distance of a hit area.
#[derive(Debug, Clone, Copy, PartialEq, Eq, Hash, Structural)]
pub enum AimZone {
    NoZone,
    LowFar,
    LowMid,
    LowNear,
    Mid,
    HighNear,
    HighMid,
    HighFar,
    KnifeHigh,
}

impl AimZone {
    pub open spec fn spec_bits(self) -> u8 {
        match self {
            AimZone::NoZone => 0x00,
            AimZone::LowFar => 0x01,
            AimZone::LowMid => 0x02,
            AimZone::LowNear => 0x04,
            AimZone::Mid => 0x08,
            AimZone::HighNear => 0x10,
            AimZone::HighMid => 0x20,
            AimZone::HighFar => 0x40,
            AimZone::KnifeHigh => 0x80,
        }
    }

    /// The zone's bit in the game's data.
    pub fn bits(&self) -> (r: u8)
        ensures
            r == self.spec_bits(),
    {
        match self {
            AimZone::NoZone => 0x00,
            AimZone::LowFar => 0x01,
            AimZone::LowMid => 0x02,
            AimZone::LowNear => 0x04,
            AimZone::Mid => 0x08,
            AimZone::HighNear => 0x10,
            AimZone::HighMid => 0x20,
            AimZone::HighFar => 0x40,
            AimZone::KnifeHigh => 0x80,
        }
    }

    /// The zone with a given bit; `None` for a value that is no zone.
    pub fn from_bits(v: u8) -> (r: Option<AimZone>)
        ensures
            r matches Some(z) ==> z.spec_bits() == v,
            r is None ==> forall|z: AimZone| z.spec_bits() != v,
    {
        match v {
            0x00 => Some(AimZone::NoZone),
            0x01 => Some(AimZone::LowFar),
            0x02 => Some(AimZone::LowMid),
            0x04 => Some(AimZone::LowNear),
            0x08 => Some(AimZone::Mid),
            0x10 => Some(AimZone::HighNear),
            0x20 => Some(AimZone::HighMid),
            0x40 => Some(AimZone::HighFar),
            0x80 => Some(AimZone::KnifeHigh),
            _ => None,
        }
    }
}

impl Default for AimZone {
    fn default() -> (r: Self)
        ensures
            r == AimZone::NoZone,
    {
        AimZone::NoZone
    }
}

/// The areas and ranges at which a weapon can hit a target.
#[derive(Debug, Clone, Copy)]
pub struct WeaponRange {
    pub unk00: u8,
    pub aim_zones: [AimZone; 3],
    pub hit_bounds: [HitBounds; 3],
}

impl WeaponRange {
    pub fn new(aim_zones: [AimZone; 3], hit_bounds: [HitBounds; 3]) -> (r: Self)
        ensures
            r.unk00 == 0 && r.aim_zones@ == aim_zones@ && r.hit_bounds@ == hit_bounds@,
    {
        WeaponRange { unk00: 0, aim_zones, hit_bounds }
    }

    /// Three low zones, near to far.
    pub fn low(bounds0: HitBounds, bounds1: HitBounds, bounds2: HitBounds) -> (r: Self)
        ensures
            r.unk00 == 0,
            r.aim_zones@ == seq![AimZone::LowNear, AimZone::LowMid, AimZone::LowFar],
            r.hit_bounds@ == seq![bounds0, bounds1, bounds2],
    {
        let r = WeaponRange {
            unk00: 0,
            aim_zones: [AimZone::LowNear, AimZone::LowMid, AimZone::LowFar],
            hit_bounds: [bounds0, bounds1, bounds2],
        };
        assert(r.aim_zones@ =~= seq![AimZone::LowNear, AimZone::LowMid, AimZone::LowFar]);
        assert(r.hit_bounds@ =~= seq![bounds0, bounds1, bounds2]);
        r
    }

    /// Three middle zones.
    pub fn mid(bounds0: HitBounds, bounds1: HitBounds, bounds2: HitBounds) -> (r: Self)
        ensures
            r.unk00 == 0,
            r.aim_zones@ == seq![AimZone::Mid, AimZone::Mid, AimZone::Mid],
            r.hit_bounds@ == seq![bounds0, bounds1, bounds2],
    {
        let r = WeaponRange {
            unk00: 0,
            aim_zones: [AimZone::Mid, AimZone::Mid, AimZone::Mid],
            hit_bounds: [bounds0, bounds1, bounds2],
        };
        assert(r.aim_zones@ =~= seq![AimZone::Mid, AimZone::Mid, AimZone::Mid]);
        assert(r.hit_bounds@ =~= seq![bounds0, bounds1, bounds2]);
        r
    }

    /// Three high zones, near to far.
    pub fn high(bounds0: HitBounds, bounds1: HitBounds, bounds2: HitBounds) -> (r: Self)
        ensures
            r.unk00 == 0,
            r.aim_zones@ == seq![AimZone::HighNear, AimZone::HighMid, AimZone::HighFar],
            r.hit_bounds@ == seq![bounds0, bounds1, bounds2],
    {
        let r = WeaponRange {
            unk00: 0,
            aim_zones: [AimZone::HighNear, AimZone::HighMid, AimZone::HighFar],
            hit_bounds: [bounds0, bounds1, bounds2],
        };
        assert(r.aim_zones@ =~= seq![AimZone::HighNear, AimZone::HighMid, AimZone::HighFar]);
        assert(r.hit_bounds@ =~= seq![bounds0, bounds1, bounds2]);
        r
    }

    /// One zone with its bounds; the other two empty.
    pub fn one(aim_zone: AimZone, bounds: HitBounds) -> (r: Self)
        ensures
            r.unk00 == 0,
            r.aim_zones@ == seq![aim_zone, AimZone::NoZone, AimZone::NoZone],
            r.hit_bounds@[0] == bounds,
            !r.hit_bounds@[1].spec_has_area() && !r.hit_bounds@[2].spec_has_area(),
    {
        let r = WeaponRange {
            unk00: 0,
            aim_zones: [aim_zone, AimZone::NoZone, AimZone::NoZone],
            hit_bounds: [bounds, HitBounds::zero(), HitBounds::zero()],
        };
        assert(r.aim_zones@ =~= seq![aim_zone, AimZone::NoZone, AimZone::NoZone]);
        r
    }

    /// No zones at all.
    pub fn none() -> (r: Self)
        ensures
            r.unk00 == 0,
            r.aim_zones@ == seq![AimZone::NoZone, AimZone::NoZone, AimZone::NoZone],
            forall|i: int| 0 <= i < 3 ==> !(#[trigger] r.hit_bounds@[i]).spec_has_area(),
    {
        let r = WeaponRange {
            unk00: 0,
            aim_zones: [AimZone::NoZone, AimZone::NoZone, AimZone::NoZone],
            hit_bounds: [HitBounds::zero(), HitBounds::zero(), HitBounds::zero()],
        };
        assert(r.aim_zones@ =~= seq![AimZone::NoZone, AimZone::NoZone, AimZone::NoZone]);
        r
    }

    /// All three zones are none, or no bounds have an area.
    pub fn is_empty(&self) -> (r: bool)
        ensures
            r == ((self.aim_zones@[0] == AimZone::NoZone && self.aim_zones@[1] == AimZone::NoZone
                && self.aim_zones@[2] == AimZone::NoZone) || !(self.hit_bounds@[0].spec_has_area()
                || self.hit_bounds@[1].spec_has_area() || self.hit_bounds@[2].spec_has_area())),
    {
        let no_zones = self.aim_zones[0] == AimZone::NoZone && self.aim_zones[1] == AimZone::NoZone
            && self.aim_zones[2] == AimZone::NoZone;
        no_zones || !(self.hit_bounds[0].has_area() || self.hit_bounds[1].has_area()
            || self.hit_bounds[2].has_area())
    }
}

} // verus!
