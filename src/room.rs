//! The decoded parts of a room: collision, floors and scripts.
use vstd::prelude::*;

use crate::bytes::{le16_at, le32_at, read_u16_le, read_u32_le};
use crate::animation::AnimationSet;
use crate::fixed::{Fixed16, UFixed16, Vec2};
use crate::motion::{room_sets_fit, room_sets_read, AnimationError};
use crate::rdt::{is_present, parsed_from, RawRdt, RdtError, RdtSection};
use crate::script::{read_script, script_read_from, script_refused, DecodedFunction, ScriptError};

verus! {

/// The signed 16-bit little-endian value at `at`.
pub open spec fn i16_at(b: Seq<u8>, at: int) -> i16 {
    le16_at(b, at) as u16 as i16
}

/// One rectangular collider of a room.
#[derive(Debug, Clone, Copy, PartialEq, Eq, Structural)]
pub struct Collider {
    pub x: Fixed16,
    pub z: Fixed16,
    pub w: UFixed16,
    pub h: UFixed16,
    pub collision_mask: u16,
    pub quadrant_mask: u16,
    pub floor: u32,
}

/// The size of a collider record.
pub const COLLIDER_SIZE: usize = 16;

/// The collider record at `at`.
pub open spec fn collider_at(b: Seq<u8>, at: int) -> Collider {
    Collider {
        x: Fixed16(i16_at(b, at)),
        z: Fixed16(i16_at(b, at + 2)),
        w: UFixed16(le16_at(b, at + 4) as u16),
        h: UFixed16(le16_at(b, at + 6) as u16),
        collision_mask: le16_at(b, at + 8) as u16,
        quadrant_mask: le16_at(b, at + 10) as u16,
        floor: le32_at(b, at + 12) as u32,
    }
}

impl Collider {
    /// The collision mask without its low four bits.
    pub fn collision_mask(&self) -> (r: u16)
        ensures
            r == self.collision_mask & 0xfff0,
    {
        self.collision_mask & 0xfff0
    }

    /// Reads a collider record at `at`.
    pub fn read(b: &[u8], at: usize) -> (r: Option<Collider>)
        ensures
            r matches Some(c) ==> c == collider_at(b@, at as int),
            r is None <==> at + 16 > b@.len(),
    {
        if at > b.len() || b.len() - at < COLLIDER_SIZE {
            return None;
        }
        let x = read_u16_le(b, at).unwrap();
        let z = read_u16_le(b, at + 2).unwrap();
        let w = read_u16_le(b, at + 4).unwrap();
        let h = read_u16_le(b, at + 6).unwrap();
        let collision_mask = read_u16_le(b, at + 8).unwrap();
        let quadrant_mask = read_u16_le(b, at + 10).unwrap();
        let floor = read_u32_le(b, at + 12).unwrap();
        Some(
            Collider {
                x: Fixed16(x as i16),
                z: Fixed16(z as i16),
                w: UFixed16(w),
                h: UFixed16(h),
                collision_mask,
                quadrant_mask,
                floor,
            },
        )
    }
}

/// Why a collision or floor section could not be decoded.
#[derive(Debug, Clone, Copy, PartialEq, Eq, Structural)]
pub enum DecodeError {
    /// The data ends before the records that it announces.
    Truncated,
    /// The collision count is zero, though it counts the cell record too.
    ZeroColliderCount,
}

/// The collision data of a room: the cell record and the colliders.
#[derive(Debug, Clone)]
pub struct Collision {
    pub cell_x: Fixed16,
    pub cell_z: Fixed16,
    /// One more than the number of colliders: the cell record counts too.
    pub count: u32,
    pub ceiling: i32,
    pub dummy: u32,
    pub colliders: Vec<Collider>,
}

impl Default for Collision {
    fn default() -> (r: Self)
        ensures
            r.cell_x.0 == 0 && r.cell_z.0 == 0 && r.count == 0 && r.ceiling == 0 && r.dummy
                == 0 && r.colliders@.len() == 0,
    {
        Collision::empty()
    }
}

/// The size of the cell record that precedes the colliders.
pub const CELL_SIZE: usize = 16;

/// Why collision bytes cannot be decoded, if they cannot.
pub open spec fn collision_error(b: Seq<u8>) -> Option<DecodeError> {
    if b.len() < 16 {
        Some(DecodeError::Truncated)
    } else if le32_at(b, 4) == 0 {
        Some(DecodeError::ZeroColliderCount)
    } else if 16 * le32_at(b, 4) > b.len() {
        Some(DecodeError::Truncated)
    } else {
        None
    }
}

/// `c` is the collision data that `b` holds.
pub open spec fn collision_read_from(c: Collision, b: Seq<u8>) -> bool {
    &&& c.cell_x.0 == i16_at(b, 0)
    &&& c.cell_z.0 == i16_at(b, 2)
    &&& c.count == le32_at(b, 4)
    &&& c.ceiling == le32_at(b, 8) as u32 as i32
    &&& c.dummy == le32_at(b, 12)
    &&& c.colliders@.len() == c.count - 1
    &&& forall|k: int|
        0 <= k < c.colliders@.len() ==> #[trigger] c.colliders@[k] == collider_at(b, 16 + 16 * k)
}

impl Collision {
    /// Collision data with no cell and no colliders.
    pub fn empty() -> (r: Self)
        ensures
            r.cell_x.0 == 0 && r.cell_z.0 == 0 && r.count == 0 && r.ceiling == 0 && r.dummy
                == 0 && r.colliders@.len() == 0,
    {
        Collision {
            cell_x: Fixed16(0),
            cell_z: Fixed16(0),
            count: 0,
            ceiling: 0,
            dummy: 0,
            colliders: Vec::new(),
        }
    }

    /// Decodes a collision section: the cell record, then `count - 1` colliders. A zero
    /// count is refused before anything is read past the cell record.
    pub fn decode(b: &[u8]) -> (r: Result<Self, DecodeError>)
        ensures
            match collision_error(b@) {
                Some(e) => r == Err::<Self, DecodeError>(e),
                None => r matches Ok(c) && collision_read_from(c, b@),
            },
    {
        if b.len() < CELL_SIZE {
            return Err(DecodeError::Truncated);
        }
        let cell_x = read_u16_le(b, 0).unwrap();
        let cell_z = read_u16_le(b, 2).unwrap();
        let count = read_u32_le(b, 4).unwrap();
        let ceiling = read_u32_le(b, 8).unwrap();
        let dummy = read_u32_le(b, 12).unwrap();
        if count == 0 {
            return Err(DecodeError::ZeroColliderCount);
        }
        let n: usize = (count - 1) as usize;
        if n > (b.len() - CELL_SIZE) / COLLIDER_SIZE {
            return Err(DecodeError::Truncated);
        }
        let mut colliders: Vec<Collider> = Vec::new();
        let mut k: usize = 0;
        let mut at: usize = CELL_SIZE;
        let blen: usize = b.len();
        while k < n
            invariant
                blen == b@.len(),
                k <= n,
                16 + 16 * n <= b@.len(),
                at == 16 + 16 * k,
                colliders@.len() == k,
                forall|q: int| 0 <= q < k ==> #[trigger] colliders@[q] == collider_at(b@, 16 + 16 * q),
            decreases n - k,
        {
            let c = Collider::read(b, at).unwrap();
            colliders.push(c);
            k = k + 1;
            at = at + COLLIDER_SIZE;
        }
        Ok(
            Collision {
                cell_x: Fixed16(cell_x as i16),
                cell_z: Fixed16(cell_z as i16),
                count,
                ceiling: ceiling as i32,
                dummy,
                colliders,
            },
        )
    }
}

/// One floor area of a room.
#[derive(Debug, Clone, Copy, PartialEq, Eq, Structural)]
pub struct Floor {
    pub x: Fixed16,
    pub z: Fixed16,
    pub width: UFixed16,
    pub height: UFixed16,
    pub unknown: u16,
    pub level: u16,
}

/// The size of a floor record.
pub const FLOOR_SIZE: usize = 12;

/// The floor record at `at`.
pub open spec fn floor_at(b: Seq<u8>, at: int) -> Floor {
    Floor {
        x: Fixed16(i16_at(b, at)),
        z: Fixed16(i16_at(b, at + 2)),
        width: UFixed16(le16_at(b, at + 4) as u16),
        height: UFixed16(le16_at(b, at + 6) as u16),
        unknown: le16_at(b, at + 8) as u16,
        level: le16_at(b, at + 10) as u16,
    }
}

/// The floor bytes hold their count, the records and the trailing field.
pub open spec fn floors_fit(b: Seq<u8>) -> bool {
    b.len() >= 2 && 2 + 12 * le16_at(b, 0) + 2 <= b.len()
}

/// `fs` are the floors that `b` holds.
pub open spec fn floors_read_from(fs: Seq<Floor>, b: Seq<u8>) -> bool {
    &&& fs.len() == le16_at(b, 0)
    &&& forall|k: int| 0 <= k < fs.len() ==> #[trigger] fs[k] == floor_at(b, 2 + 12 * k)
}

impl Floor {
    /// Reads a floor record at `at`.
    pub fn read(b: &[u8], at: usize) -> (r: Option<Floor>)
        ensures
            r matches Some(f) ==> f == floor_at(b@, at as int),
            r is None <==> at + 12 > b@.len(),
    {
        if at > b.len() || b.len() - at < FLOOR_SIZE {
            return None;
        }
        let x = read_u16_le(b, at).unwrap();
        let z = read_u16_le(b, at + 2).unwrap();
        let width = read_u16_le(b, at + 4).unwrap();
        let height = read_u16_le(b, at + 6).unwrap();
        let unknown = read_u16_le(b, at + 8).unwrap();
        let level = read_u16_le(b, at + 10).unwrap();
        Some(
            Floor {
                x: Fixed16(x as i16),
                z: Fixed16(z as i16),
                width: UFixed16(width),
                height: UFixed16(height),
                unknown,
                level,
            },
        )
    }

    /// Decodes a floor section: a 16-bit count, that many records, then a trailing
    /// 16-bit field that must be present.
    pub fn decode_all(b: &[u8]) -> (r: Result<Vec<Floor>, DecodeError>)
        ensures
            r is Ok <==> floors_fit(b@),
            r is Err ==> r == Err::<Vec<Floor>, DecodeError>(DecodeError::Truncated),
            r matches Ok(fs) ==> floors_read_from(fs@, b@),
    {
        let n = match read_u16_le(b, 0) {
            Some(v) => v as usize,
            None => {
                return Err(DecodeError::Truncated);
            },
        };
        if b.len() < 4 || n > (b.len() - 4) / FLOOR_SIZE {
            return Err(DecodeError::Truncated);
        }
        let mut floors: Vec<Floor> = Vec::new();
        let mut k: usize = 0;
        let mut at: usize = 2;
        let blen: usize = b.len();
        while k < n
            invariant
                blen == b@.len(),
                k <= n,
                2 + 12 * n + 2 <= b@.len(),
                at == 2 + 12 * k,
                floors@.len() == k,
                forall|q: int| 0 <= q < k ==> #[trigger] floors@[q] == floor_at(b@, 2 + 12 * q),
            decreases n - k,
        {
            let f = Floor::read(b, at).unwrap();
            floors.push(f);
            k = k + 1;
            at = at + FLOOR_SIZE;
        }
        Ok(floors)
    }
}

/// Why a room could not be decoded.
#[derive(Debug, Clone, Copy, PartialEq, Eq, Structural)]
pub enum RoomError {
    Container(RdtError),
    Collision(DecodeError),
    Floor(DecodeError),
    Script(ScriptError),
    Animation(AnimationError),
}

/// A decoded room: the container, and its collision, floors, scripts and animations.
#[derive(Debug, Clone)]
pub struct Rdt {
    raw: RawRdt,
    collision: Collision,
    floors: Vec<Floor>,
    init_script: Vec<DecodedFunction>,
    exec_script: Vec<DecodedFunction>,
    animation_sets: Vec<AnimationSet>,
}

impl Rdt {
    pub closed spec fn raw_spec(&self) -> RawRdt {
        self.raw
    }

    pub closed spec fn collision_spec(&self) -> Collision {
        self.collision
    }

    pub closed spec fn floors_spec(&self) -> Seq<Floor> {
        self.floors@
    }

    pub closed spec fn init_spec(&self) -> Seq<DecodedFunction> {
        self.init_script@
    }

    pub closed spec fn exec_spec(&self) -> Seq<DecodedFunction> {
        self.exec_script@
    }

    pub closed spec fn animation_spec(&self) -> Seq<AnimationSet> {
        self.animation_sets@
    }

    /// `r` is what decoding the sections of container `raw` gives: the first section
    /// that cannot be decoded decides the error; otherwise each part is the one its
    /// section holds, or empty when the section is absent.
    pub open spec fn decoded_from(raw: RawRdt, r: Result<Rdt, RoomError>) -> bool {
        let offs = raw.offs();
        let coll = raw.data()[6];
        let flr = raw.data()[11];
        let init = raw.data()[16];
        let exec = raw.data()[17];
        let coll_err = if is_present(offs, RdtSection::Collision) { collision_error(coll) } else { None };
        let floor_bad = is_present(offs, RdtSection::Floor) && !floors_fit(flr);
        let init_bad = is_present(offs, RdtSection::InitScript) && script_refused(init);
        let exec_bad = is_present(offs, RdtSection::ExecScript) && script_refused(exec);
        let anim = raw.data()[22];
        let anim_bad = is_present(offs, RdtSection::Animation) && !room_sets_fit(anim);
        &&& coll_err matches Some(e) ==> r == Err::<Rdt, RoomError>(RoomError::Collision(e))
        &&& coll_err is None && floor_bad ==> r == Err::<Rdt, RoomError>(RoomError::Floor(DecodeError::Truncated))
        &&& coll_err is None && !floor_bad && (init_bad || exec_bad) ==> r == Err::<Rdt, RoomError>(RoomError::Script(ScriptError::TruncatedTable))
        &&& coll_err is None && !floor_bad && !init_bad && !exec_bad && anim_bad ==> r == Err::<Rdt, RoomError>(RoomError::Animation(AnimationError::Truncated))
        &&& r is Ok <==> coll_err is None && !floor_bad && !init_bad && !exec_bad && !anim_bad
        &&& r matches Ok(room) ==> {
            &&& room.raw_spec() == raw
            &&& is_present(offs, RdtSection::Collision) ==> collision_read_from(room.collision_spec(), coll)
            &&& !is_present(offs, RdtSection::Collision) ==> room.collision_spec().cell_x.0 == 0 && room.collision_spec().cell_z.0 == 0
                    && room.collision_spec().count == 0 && room.collision_spec().ceiling == 0
                    && room.collision_spec().dummy == 0 && room.collision_spec().colliders@.len() == 0
            &&& is_present(offs, RdtSection::Floor) ==> floors_read_from(room.floors_spec(), flr)
            &&& !is_present(offs, RdtSection::Floor) ==> room.floors_spec().len() == 0
            &&& script_read_from(room.init_spec(), init, is_present(offs, RdtSection::InitScript))
            &&& script_read_from(room.exec_spec(), exec, is_present(offs, RdtSection::ExecScript))
            &&& is_present(offs, RdtSection::Animation) ==> room_sets_read(room.animation_spec(), anim)
            &&& !is_present(offs, RdtSection::Animation) ==> room.animation_spec().len() == 0
        }
    }

    /// Decodes the collision, floor, script and animation sections of a container. An
    /// absent collision section gives empty collision data; an absent floor, script or
    /// animation section gives no floors, functions or sets. The first section that
    /// cannot be decoded, in that order, decides the error.
    pub fn from_raw(raw: RawRdt) -> (r: Result<Self, RoomError>)
        requires
            raw.wf(),
        ensures
            Self::decoded_from(raw, r),
    {
        let collision = if raw.has_section(RdtSection::Collision) {
            match Collision::decode(raw.section(RdtSection::Collision).as_slice()) {
                Ok(c) => c,
                Err(e) => {
                    return Err(RoomError::Collision(e));
                },
            }
        } else {
            Collision::empty()
        };
        let floors = if raw.has_section(RdtSection::Floor) {
            match Floor::decode_all(raw.section(RdtSection::Floor).as_slice()) {
                Ok(f) => f,
                Err(e) => {
                    return Err(RoomError::Floor(e));
                },
            }
        } else {
            Vec::new()
        };
        let init_script = match Self::script_of(&raw, RdtSection::InitScript) {
            Ok(s) => s,
            Err(e) => {
                return Err(RoomError::Script(e));
            },
        };
        let exec_script = match Self::script_of(&raw, RdtSection::ExecScript) {
            Ok(s) => s,
            Err(e) => {
                return Err(RoomError::Script(e));
            },
        };
        let animation_sets = if raw.has_section(RdtSection::Animation) {
            match AnimationSet::read_rdt(raw.section(RdtSection::Animation).as_slice()) {
                Ok(s) => s,
                Err(e) => {
                    return Err(RoomError::Animation(e));
                },
            }
        } else {
            Vec::new()
        };
        Ok(Rdt { raw, collision, floors, init_script, exec_script, animation_sets })
    }

    fn script_of(raw: &RawRdt, section: RdtSection) -> (r: Result<Vec<DecodedFunction>, ScriptError>)
        requires
            raw.wf(),
        ensures
            r is Err <==> is_present(raw.offs(), section) && script_refused(raw.data()[section.slot()]),
            r is Err ==> r == Err::<Vec<DecodedFunction>, ScriptError>(ScriptError::TruncatedTable),
            r matches Ok(fs) ==> script_read_from(fs@, raw.data()[section.slot()], is_present(raw.offs(), section)),
    {
        if raw.has_section(section) {
            read_script(raw.section(section).as_slice())
        } else {
            Ok(Vec::new())
        }
    }

    /// Reads and decodes a room file.
    pub fn read(b: &[u8]) -> (r: Result<Self, RoomError>)
        ensures
            match RawRdt::read_error(b@) {
                Some(e) => r == Err::<Self, RoomError>(RoomError::Container(e)),
                None => exists|raw: RawRdt|
                    raw.wf() && parsed_from(raw, b@) && #[trigger] Self::decoded_from(raw, r),
            },
    {
        match RawRdt::read(b) {
            Ok(raw) => {
                let ghost parsed = raw;
                let r = Self::from_raw(raw);
                assert(Self::decoded_from(parsed, r));
                r
            },
            Err(e) => Err(RoomError::Container(e)),
        }
    }

    /// The cell center from the collision data.
    pub fn center(&self) -> (r: Vec2)
        ensures
            r.x.0 == self.collision_spec().cell_x.0 as i32,
            r.z.0 == self.collision_spec().cell_z.0 as i32,
    {
        Vec2::from_16(self.collision.cell_x, self.collision.cell_z)
    }

    pub fn collision(&self) -> (r: &Collision)
        ensures
            *r == self.collision_spec(),
    {
        &self.collision
    }

    pub fn floors(&self) -> (r: &Vec<Floor>)
        ensures
            r@ == self.floors_spec(),
    {
        &self.floors
    }

    pub fn init_script(&self) -> (r: &Vec<DecodedFunction>)
        ensures
            r@ == self.init_spec(),
    {
        &self.init_script
    }

    pub fn exec_script(&self) -> (r: &Vec<DecodedFunction>)
        ensures
            r@ == self.exec_spec(),
    {
        &self.exec_script
    }

    pub fn animation_sets(&self) -> (r: &Vec<AnimationSet>)
        ensures
            r@ == self.animation_spec(),
    {
        &self.animation_sets
    }

    /// The bytes of a section of the container.
    pub fn raw(&self, section: RdtSection) -> (r: &Vec<u8>)
        requires
            self.raw_spec().wf(),
        ensures
            r@ == self.raw_spec().data()[section.slot()],
    {
        self.raw.section(section)
    }

    pub fn container(&self) -> (r: &RawRdt)
        ensures
            *r == self.raw_spec(),
    {
        &self.raw
    }
}

} // verus!
