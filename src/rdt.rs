//! The room container: a header of section offsets, and the sections it points at.
//!
//! The header holds eight count bytes and 23 little-endian 32-bit offsets. A zero offset
//! marks an absent section; each present section runs from its offset to the next
//! greater one, or to the end of the file. Sections may appear in any order on disk, so
//! the order is kept beside the section contents.
use vstd::prelude::*;

use crate::bytes::{
    append_bytes, copy_range, le32_at, le32_bytes, lemma_le32_bytes_of_read, push_u32_le,
    read_u32_le,
};

verus! {

/// The sections of a room file, in the order of their header slots.
#[derive(Debug, Clone, Copy, PartialEq, Eq, Hash, Structural)]
pub enum RdtSection {
    SoundAttributes,
    SoundHeader1,
    SoundBank1,
    SoundHeader2,
    SoundBank2,
    Ota,
    Collision,
    CameraPos,
    CameraZone,
    Light,
    Model,
    Floor,
    Block,
    JpMessage,
    OtherMessage,
    CameraScroll,
    InitScript,
    ExecScript,
    SpriteId,
    SpriteData,
    SpriteTexture,
    ModelTexture,
    Animation,
}

/// The number of section slots in the header.
pub const NUM_SECTIONS: usize = 23;

/// The size of the header: eight count bytes and one 32-bit offset per section.
pub const HEADER_SIZE: usize = 100;

/// The section in header slot `i` (the last one beyond the table).
pub open spec fn section_at(i: int) -> RdtSection {
    if i == 0 {
        RdtSection::SoundAttributes
    } else if i == 1 {
        RdtSection::SoundHeader1
    } else if i == 2 {
        RdtSection::SoundBank1
    } else if i == 3 {
        RdtSection::SoundHeader2
    } else if i == 4 {
        RdtSection::SoundBank2
    } else if i == 5 {
        RdtSection::Ota
    } else if i == 6 {
        RdtSection::Collision
    } else if i == 7 {
        RdtSection::CameraPos
    } else if i == 8 {
        RdtSection::CameraZone
    } else if i == 9 {
        RdtSection::Light
    } else if i == 10 {
        RdtSection::Model
    } else if i == 11 {
        RdtSection::Floor
    } else if i == 12 {
        RdtSection::Block
    } else if i == 13 {
        RdtSection::JpMessage
    } else if i == 14 {
        RdtSection::OtherMessage
    } else if i == 15 {
        RdtSection::CameraScroll
    } else if i == 16 {
        RdtSection::InitScript
    } else if i == 17 {
        RdtSection::ExecScript
    } else if i == 18 {
        RdtSection::SpriteId
    } else if i == 19 {
        RdtSection::SpriteData
    } else if i == 20 {
        RdtSection::SpriteTexture
    } else if i == 21 {
        RdtSection::ModelTexture
    } else {
        RdtSection::Animation
    }
}

impl RdtSection {
    /// The header slot of the section.
    pub open spec fn slot(self) -> int {
        match self {
            RdtSection::SoundAttributes => 0,
            RdtSection::SoundHeader1 => 1,
            RdtSection::SoundBank1 => 2,
            RdtSection::SoundHeader2 => 3,
            RdtSection::SoundBank2 => 4,
            RdtSection::Ota => 5,
            RdtSection::Collision => 6,
            RdtSection::CameraPos => 7,
            RdtSection::CameraZone => 8,
            RdtSection::Light => 9,
            RdtSection::Model => 10,
            RdtSection::Floor => 11,
            RdtSection::Block => 12,
            RdtSection::JpMessage => 13,
            RdtSection::OtherMessage => 14,
            RdtSection::CameraScroll => 15,
            RdtSection::InitScript => 16,
            RdtSection::ExecScript => 17,
            RdtSection::SpriteId => 18,
            RdtSection::SpriteData => 19,
            RdtSection::SpriteTexture => 20,
            RdtSection::ModelTexture => 21,
            RdtSection::Animation => 22,
        }
    }

    /// The header slot of the section.
    pub fn index(&self) -> (r: usize)
        ensures
            r == self.slot(),
            r < NUM_SECTIONS,
    {
        match self {
            RdtSection::SoundAttributes => 0,
            RdtSection::SoundHeader1 => 1,
            RdtSection::SoundBank1 => 2,
            RdtSection::SoundHeader2 => 3,
            RdtSection::SoundBank2 => 4,
            RdtSection::Ota => 5,
            RdtSection::Collision => 6,
            RdtSection::CameraPos => 7,
            RdtSection::CameraZone => 8,
            RdtSection::Light => 9,
            RdtSection::Model => 10,
            RdtSection::Floor => 11,
            RdtSection::Block => 12,
            RdtSection::JpMessage => 13,
            RdtSection::OtherMessage => 14,
            RdtSection::CameraScroll => 15,
            RdtSection::InitScript => 16,
            RdtSection::ExecScript => 17,
            RdtSection::SpriteId => 18,
            RdtSection::SpriteData => 19,
            RdtSection::SpriteTexture => 20,
            RdtSection::ModelTexture => 21,
            RdtSection::Animation => 22,
        }
    }

    /// The section of a header slot.
    pub fn from_index(i: usize) -> (r: Option<Self>)
        ensures
            i < NUM_SECTIONS ==> r == Some(section_at(i as int)),
            i >= NUM_SECTIONS ==> r is None,
    {
        match i {
            0 => Some(RdtSection::SoundAttributes),
            1 => Some(RdtSection::SoundHeader1),
            2 => Some(RdtSection::SoundBank1),
            3 => Some(RdtSection::SoundHeader2),
            4 => Some(RdtSection::SoundBank2),
            5 => Some(RdtSection::Ota),
            6 => Some(RdtSection::Collision),
            7 => Some(RdtSection::CameraPos),
            8 => Some(RdtSection::CameraZone),
            9 => Some(RdtSection::Light),
            10 => Some(RdtSection::Model),
            11 => Some(RdtSection::Floor),
            12 => Some(RdtSection::Block),
            13 => Some(RdtSection::JpMessage),
            14 => Some(RdtSection::OtherMessage),
            15 => Some(RdtSection::CameraScroll),
            16 => Some(RdtSection::InitScript),
            17 => Some(RdtSection::ExecScript),
            18 => Some(RdtSection::SpriteId),
            19 => Some(RdtSection::SpriteData),
            20 => Some(RdtSection::SpriteTexture),
            21 => Some(RdtSection::ModelTexture),
            22 => Some(RdtSection::Animation),
            _ => None,
        }
    }

    /// The section in the next header slot; `None` after the last.
    pub fn next(&self) -> (r: Option<Self>)
        ensures
            self.slot() < 22 ==> r == Some(section_at(self.slot() + 1)),
            self.slot() == 22 ==> r is None,
    {
        match self {
            RdtSection::SoundAttributes => Some(RdtSection::SoundHeader1),
            RdtSection::SoundHeader1 => Some(RdtSection::SoundBank1),
            RdtSection::SoundBank1 => Some(RdtSection::SoundHeader2),
            RdtSection::SoundHeader2 => Some(RdtSection::SoundBank2),
            RdtSection::SoundBank2 => Some(RdtSection::Ota),
            RdtSection::Ota => Some(RdtSection::Collision),
            RdtSection::Collision => Some(RdtSection::CameraPos),
            RdtSection::CameraPos => Some(RdtSection::CameraZone),
            RdtSection::CameraZone => Some(RdtSection::Light),
            RdtSection::Light => Some(RdtSection::Model),
            RdtSection::Model => Some(RdtSection::Floor),
            RdtSection::Floor => Some(RdtSection::Block),
            RdtSection::Block => Some(RdtSection::JpMessage),
            RdtSection::JpMessage => Some(RdtSection::OtherMessage),
            RdtSection::OtherMessage => Some(RdtSection::CameraScroll),
            RdtSection::CameraScroll => Some(RdtSection::InitScript),
            RdtSection::InitScript => Some(RdtSection::ExecScript),
            RdtSection::ExecScript => Some(RdtSection::SpriteId),
            RdtSection::SpriteId => Some(RdtSection::SpriteData),
            RdtSection::SpriteData => Some(RdtSection::SpriteTexture),
            RdtSection::SpriteTexture => Some(RdtSection::ModelTexture),
            RdtSection::ModelTexture => Some(RdtSection::Animation),
            RdtSection::Animation => None,
        }
    }
}

/// Header slots and sections correspond one to one.
pub proof fn lemma_slots()
    ensures
        forall|s: RdtSection| #[trigger] s.slot() == 0 || 0 <= s.slot() < 23,
        forall|s: RdtSection| section_at(#[trigger] s.slot()) == s,
        forall|i: int| 0 <= i < 23 ==> (#[trigger] section_at(i)).slot() == i,
{
}

/// The header of a room file.
#[derive(Debug, Clone)]
pub struct RdtHeader {
    pub n_sprite: u8,
    pub n_cut: u8,
    /// The number of entries in the model table at the start of the model section.
    pub o_model: u8,
    pub n_item: u8,
    pub n_door: u8,
    pub n_room_at: u8,
    pub reverb_lv: u8,
    pub n_sprite_max: u8,
    /// One offset per header slot; zero for an absent section.
    pub offsets: Vec<u32>,
}

/// The bytes of a sequence of 32-bit values, each little-endian.
pub open spec fn words_bytes(s: Seq<u32>) -> Seq<u8>
    decreases s.len(),
{
    if s.len() == 0 {
        Seq::empty()
    } else {
        words_bytes(s.drop_last()) + le32_bytes(s.last())
    }
}

/// The eight count bytes at the start of a header.
pub open spec fn counts_bytes(h: RdtHeader) -> Seq<u8> {
    seq![
        h.n_sprite,
        h.n_cut,
        h.o_model,
        h.n_item,
        h.n_door,
        h.n_room_at,
        h.reverb_lv,
        h.n_sprite_max,
    ]
}

/// The bytes of a header as it stands in a file.
pub open spec fn header_bytes(h: RdtHeader) -> Seq<u8> {
    counts_bytes(h) + words_bytes(h.offsets@)
}

/// A header as read from the first bytes of a file.
pub open spec fn header_read_from(h: RdtHeader, b: Seq<u8>) -> bool {
    &&& counts_bytes(h) == b.subrange(0, 8)
    &&& h.offsets@.len() == 23
    &&& forall|i: int| 0 <= i < 23 ==> #[trigger] h.offsets@[i] == le32_at(b, 8 + 4 * i)
}

proof fn lemma_words_bytes_len(s: Seq<u32>)
    ensures
        words_bytes(s).len() == 4 * s.len(),
    decreases s.len(),
{
    if s.len() > 0 {
        lemma_words_bytes_len(s.drop_last());
    }
}

impl RdtHeader {
    /// The offset of a section; zero when it is absent.
    pub fn offset(&self, section: RdtSection) -> (r: u32)
        requires
            self.offsets@.len() == 23,
        ensures
            r == self.offsets@[section.slot()],
    {
        self.offsets[section.index()]
    }

    /// Sets the offset of a section.
    pub fn set_offset(&mut self, section: RdtSection, offset: u32)
        requires
            old(self).offsets@.len() == 23,
        ensures
            final(self).offsets@ == old(self).offsets@.update(section.slot(), offset),
            counts_bytes(*final(self)) == counts_bytes(*old(self)),
    {
        self.offsets.set(section.index(), offset);
    }

    /// Reads a header from the start of a buffer of at least `HEADER_SIZE` bytes.
    pub fn parse(b: &[u8]) -> (r: Self)
        requires
            b@.len() >= HEADER_SIZE,
        ensures
            header_read_from(r, b@),
    {
        let mut offsets: Vec<u32> = Vec::new();
        let mut i: usize = 0;
        while i < NUM_SECTIONS
            invariant
                i <= NUM_SECTIONS,
                b@.len() >= HEADER_SIZE,
                offsets@.len() == i,
                forall|k: int| 0 <= k < i ==> #[trigger] offsets@[k] == le32_at(b@, 8 + 4 * k),
            decreases NUM_SECTIONS - i,
        {
            let v = read_u32_le(b, 8 + 4 * i);
            offsets.push(v.unwrap());
            i = i + 1;
        }
        let h = RdtHeader {
            n_sprite: b[0],
            n_cut: b[1],
            o_model: b[2],
            n_item: b[3],
            n_door: b[4],
            n_room_at: b[5],
            reverb_lv: b[6],
            n_sprite_max: b[7],
            offsets,
        };
        assert(counts_bytes(h) =~= b@.subrange(0, 8));
        h
    }

    /// The header's bytes, as written to a file.
    pub fn to_bytes(&self) -> (r: Vec<u8>)
        ensures
            r@ == header_bytes(*self),
    {
        let mut out: Vec<u8> = Vec::new();
        out.push(self.n_sprite);
        out.push(self.n_cut);
        out.push(self.o_model);
        out.push(self.n_item);
        out.push(self.n_door);
        out.push(self.n_room_at);
        out.push(self.reverb_lv);
        out.push(self.n_sprite_max);
        assert(out@ =~= counts_bytes(*self));
        let mut i: usize = 0;
        while i < self.offsets.len()
            invariant
                i <= self.offsets@.len(),
                out@ == counts_bytes(*self) + words_bytes(self.offsets@.subrange(0, i as int)),
            decreases self.offsets@.len() - i,
        {
            push_u32_le(&mut out, self.offsets[i]);
            assert(self.offsets@.subrange(0, i + 1).drop_last() =~= self.offsets@.subrange(
                0,
                i as int,
            ));
            i = i + 1;
        }
        assert(self.offsets@.subrange(0, self.offsets@.len() as int) =~= self.offsets@);
        out
    }
}

/// Reading a header and writing it again gives back the header's bytes.
pub proof fn lemma_header_round_trip(h: RdtHeader, b: Seq<u8>)
    requires
        b.len() >= 100,
        header_read_from(h, b),
    ensures
        header_bytes(h) == b.subrange(0, 100),
{
    assert forall|k: int| 0 <= k <= 23 implies words_bytes(#[trigger] h.offsets@.subrange(0, k))
        == b.subrange(8, 8 + 4 * k) by {
        lemma_words_prefix(h, b, k);
    }
    assert(h.offsets@.subrange(0, 23) =~= h.offsets@);
    assert(b.subrange(0, 100) =~= b.subrange(0, 8) + b.subrange(8, 100));
}

proof fn lemma_words_prefix(h: RdtHeader, b: Seq<u8>, k: int)
    requires
        b.len() >= 100,
        header_read_from(h, b),
        0 <= k <= 23,
    ensures
        words_bytes(h.offsets@.subrange(0, k)) == b.subrange(8, 8 + 4 * k),
    decreases k,
{
    if k == 0 {
        assert(b.subrange(8, 8) =~= Seq::<u8>::empty());
    } else {
        lemma_words_prefix(h, b, k - 1);
        assert(h.offsets@.subrange(0, k).drop_last() =~= h.offsets@.subrange(0, k - 1));
        lemma_le32_bytes_of_read(b, 8 + 4 * (k - 1));
        assert(h.offsets@[k - 1] == le32_at(b, 8 + 4 * (k - 1)));
        assert(b.subrange(8, 8 + 4 * k) =~= b.subrange(8, 8 + 4 * (k - 1)) + b.subrange(
            8 + 4 * (k - 1),
            8 + 4 * k,
        ));
    }
}

/// Why a room file could not be read, changed or written.
#[derive(Debug, Clone, Copy, PartialEq, Eq, Structural)]
pub enum RdtError {
    /// The file is shorter than the header.
    TruncatedHeader,
    /// The file is larger than 32-bit offsets can address.
    TooLarge,
    /// A section, other than the last on disk, starts beyond the end of the file.
    SectionOutOfBounds,
    /// The model section is too short for the entries that the header counts.
    TruncatedModelTable,
    /// Shifting an offset took it out of the 32-bit range.
    OffsetOverflow,
    /// More model entries than the header's count byte can hold.
    TooManyModels,
    /// The first section on disk starts inside the header.
    SectionInsideHeader,
    /// A section's offset is not where the preceding sections end.
    SectionMisplaced,
}

/// The sort key of a section: its offset, then its header slot.
pub open spec fn key(offs: Seq<u32>, s: RdtSection) -> int {
    offs[s.slot()] * 32 + s.slot()
}

pub open spec fn is_present(offs: Seq<u32>, s: RdtSection) -> bool {
    offs[s.slot()] != 0
}

/// The order strictly ascends by offset, then by header slot.
pub open spec fn sorted_by_key(offs: Seq<u32>, ord: Seq<RdtSection>) -> bool {
    forall|a: int, b: int| 0 <= a < b < ord.len() ==> key(offs, #[trigger] ord[a]) < key(offs, #[trigger] ord[b])
}

/// The order holds exactly the sections with a nonzero offset.
pub open spec fn complete(offs: Seq<u32>, ord: Seq<RdtSection>) -> bool {
    forall|s: RdtSection| #[trigger] ord.contains(s) <==> is_present(offs, s)
}

/// Some present section that is not first on disk starts beyond `len` bytes.
pub open spec fn overruns(offs: Seq<u32>, len: int) -> bool {
    exists|s: RdtSection, t: RdtSection|
        #![trigger key(offs, s), key(offs, t)]
        is_present(offs, s) && is_present(offs, t) && key(offs, s) < key(offs, t) && offs[t.slot()]
            > len
}

/// The bytes from `start` to `end`, or none when `start` lies beyond `end`.
pub open spec fn piece(b: Seq<u8>, start: int, end: int) -> Seq<u8> {
    if start <= end {
        b.subrange(start, end)
    } else {
        Seq::empty()
    }
}

/// Where the `j`-th section on disk ends when read from a file of `len` bytes.
pub open spec fn end_of(offs: Seq<u32>, ord: Seq<RdtSection>, j: int, len: int) -> int {
    if j + 1 < ord.len() {
        offs[ord[j + 1].slot()] as int
    } else {
        len
    }
}

/// The total length of the first `j` sections on disk.
pub open spec fn span(data: Seq<Seq<u8>>, ord: Seq<RdtSection>, j: int) -> int
    decreases j,
{
    if j <= 0 {
        0
    } else {
        span(data, ord, j - 1) + data[ord[j - 1].slot()].len()
    }
}

/// The first `j` sections on disk, one after another.
pub open spec fn joined(data: Seq<Seq<u8>>, ord: Seq<RdtSection>, j: int) -> Seq<u8>
    decreases j,
{
    if j <= 0 {
        Seq::empty()
    } else {
        joined(data, ord, j - 1) + data[ord[j - 1].slot()]
    }
}

/// Every section's offset is where the sections before it on disk end, counting from
/// the first section's offset, which is not inside the header.
pub open spec fn placed(offs: Seq<u32>, data: Seq<Seq<u8>>, ord: Seq<RdtSection>) -> bool {
    ord.len() > 0 ==> {
        &&& offs[ord[0].slot()] >= 100
        &&& forall|j: int|
            0 <= j < ord.len() ==> #[trigger] offs[ord[j].slot()] == offs[ord[0].slot()] + span(
                data,
                ord,
                j,
            )
    }
}

/// The bytes of a file whose sections are placed: the header, zeros up to the first
/// section, then the sections in their order.
pub open spec fn file_bytes(h: RdtHeader, data: Seq<Seq<u8>>, ord: Seq<RdtSection>) -> Seq<u8> {
    let gap = if ord.len() > 0 { h.offsets@[ord[0].slot()] - 100 } else { 0 };
    header_bytes(h) + Seq::new(gap as nat, |i: int| 0u8) + joined(data, ord, ord.len() as int)
}

fn key_of(offsets: &Vec<u32>, s: RdtSection) -> (r: u64)
    requires
        offsets@.len() == 23,
    ensures
        r == key(offsets@, s),
{
    offsets[s.index()] as u64 * 32 + s.index() as u64
}

#[verifier::rlimit(40)]
proof fn lemma_insert_in_order(
    offs: Seq<u32>,
    old_order: Seq<RdtSection>,
    p: int,
    s: RdtSection,
    i: int,
)
    requires
        offs.len() == 23,
        0 <= p <= old_order.len(),
        s.slot() == i,
        is_present(offs, s),
        sorted_by_key(offs, old_order),
        forall|q: int| 0 <= q < p ==> key(offs, #[trigger] old_order[q]) < key(offs, s),
        forall|q: int| p <= q < old_order.len() ==> key(offs, #[trigger] old_order[q]) > key(offs, s),
        forall|t: RdtSection| #[trigger] old_order.contains(t) <==> (is_present(offs, t) && t.slot() < i),
    ensures
        sorted_by_key(offs, old_order.insert(p, s)),
        forall|t: RdtSection| #[trigger] old_order.insert(p, s).contains(t) <==> (is_present(offs, t) && t.slot() < i + 1),
{
    old_order.insert_ensures(p, s);
    let k = key(offs, s);
    let nw = old_order.insert(p, s);
    assert forall|a: int, b: int| 0 <= a < b < nw.len() implies key(offs, #[trigger] nw[a]) < key(offs, #[trigger] nw[b]) by {
        if b < p {
        } else if b == p {
        } else if a < p {
            assert(nw[b] == old_order[b - 1]);
        } else if a == p {
            assert(nw[b] == old_order[b - 1]);
        } else {
            assert(nw[a] == old_order[a - 1]);
            assert(nw[b] == old_order[b - 1]);
        }
    }
    assert forall|t: RdtSection| #[trigger] nw.contains(t) <==> (is_present(offs, t) && t.slot() < i + 1) by {
        if nw.contains(t) {
            let q = choose|q: int| 0 <= q < nw.len() && nw[q] == t;
            if q < p {
                assert(old_order.contains(t));
            } else if q > p {
                assert(nw[q] == old_order[q - 1]);
                assert(old_order.contains(t));
            }
        }
        if is_present(offs, t) && t.slot() < i + 1 {
            if t.slot() == i {
                assert(section_at(t.slot()) == t);
                assert(nw[p as int] == t);
            } else {
                assert(old_order.contains(t));
                let q = choose|q: int| 0 <= q < old_order.len() && old_order[q] == t;
                if q < p {
                    assert(nw[q] == t);
                } else {
                    assert(nw[q + 1] == t);
                }
            }
        }
    }
}

/// The present sections, ordered by offset and then by header slot.
#[verifier::rlimit(40)]
fn sort_present(header: &RdtHeader) -> (r: Vec<RdtSection>)
    requires
        header.offsets@.len() == 23,
    ensures
        r@.len() <= 23,
        sorted_by_key(header.offsets@, r@),
        complete(header.offsets@, r@),
{
    let ghost offs = header.offsets@;
    let mut order: Vec<RdtSection> = Vec::new();
    let mut i: usize = 0;
    while i < NUM_SECTIONS
        invariant
            offs == header.offsets@,
            offs.len() == 23,
            i <= NUM_SECTIONS,
            order@.len() <= i,
            sorted_by_key(offs, order@),
            forall|s: RdtSection| #[trigger] order@.contains(s) <==> (is_present(offs, s) && s.slot() < i),
        decreases NUM_SECTIONS - i,
    {
        if header.offsets[i] != 0 {
            let s = RdtSection::from_index(i).unwrap();
            let k = key_of(&header.offsets, s);
            let mut p: usize = 0;
            while p < order.len() && key_of(&header.offsets, order[p]) < k
                invariant
                    offs == header.offsets@,
                    offs.len() == 23,
                    p <= order@.len(),
                    k == key(offs, s),
                    forall|q: int| 0 <= q < p ==> key(offs, #[trigger] order@[q]) < k,
                decreases order@.len() - p,
            {
                p = p + 1;
            }
            let ghost old_order = order@;
            proof {
                assert forall|q: int| p <= q < old_order.len() implies key(offs, #[trigger] old_order[q]) > k by {
                    assert(old_order.contains(old_order[q]));
                    assert(old_order[q].slot() < i);
                    if q > p {
                        assert(key(offs, old_order[p as int]) < key(offs, old_order[q]));
                    }
                    assert(old_order.contains(old_order[p as int]));
                    assert(old_order[p as int].slot() < i);
                }
            }
            order.insert(p, s);
            proof {
                lemma_insert_in_order(offs, old_order, p as int, s, i as int);
            }
        } else {
            proof {
                assert forall|t: RdtSection| #[trigger] order@.contains(t) <==> (is_present(offs, t) && t.slot() < i + 1) by {
                    if t.slot() == i {
                        assert(section_at(t.slot()) == t);
                    }
                }
            }
        }
        i = i + 1;
    }
    proof {
        assert forall|t: RdtSection| #[trigger] order@.contains(t) <==> is_present(offs, t) by {
            assert(t.slot() < 23);
        }
    }
    order
}

/// One entry of the model table: where a model's texture and mesh data start in the file.
#[derive(Debug, Clone, Copy, PartialEq, Eq, Structural)]
pub struct ModelOffsets {
    pub tim_offset: u32,
    pub md1_offset: u32,
}

/// The `k`-th entry of a model table read from `b`.
pub open spec fn model_entry_at(b: Seq<u8>, k: int) -> ModelOffsets {
    ModelOffsets {
        tim_offset: le32_at(b, 8 * k) as u32,
        md1_offset: le32_at(b, 8 * k + 4) as u32,
    }
}

/// The bytes of a model table.
pub open spec fn model_table_bytes(t: Seq<ModelOffsets>) -> Seq<u8>
    decreases t.len(),
{
    if t.len() == 0 {
        Seq::empty()
    } else {
        model_table_bytes(t.drop_last()) + le32_bytes(t.last().tim_offset) + le32_bytes(
            t.last().md1_offset,
        )
    }
}

/// A header offset after a change of `delta` bytes at `pivot`: those beyond it move.
pub open spec fn shift_word(v: u32, pivot: u32, delta: int) -> int {
    if v > pivot {
        v + delta
    } else {
        v as int
    }
}

/// A model-table offset after a change of `delta` bytes at `pivot`: those beyond it
/// move, as the section that starts at `pivot` itself does not.
pub open spec fn shift_model_word(v: u32, pivot: u32, delta: int) -> int {
    if v > pivot {
        v + delta
    } else {
        v as int
    }
}

pub open spec fn fits_u32(v: int) -> bool {
    0 <= v <= u32::MAX
}

pub open spec fn shifted_entry(e: ModelOffsets, pivot: u32, delta: int) -> ModelOffsets {
    ModelOffsets {
        tim_offset: shift_model_word(e.tim_offset, pivot, delta) as u32,
        md1_offset: shift_model_word(e.md1_offset, pivot, delta) as u32,
    }
}

/// Model section bytes after a change at `pivot`: the table entries shifted, the rest kept.
pub open spec fn patched_model(m: Seq<u8>, count: int, pivot: u32, delta: int) -> Seq<u8> {
    model_table_bytes(Seq::new(count as nat, |k: int| shifted_entry(model_entry_at(m, k), pivot, delta)))
        + m.subrange(8 * count, m.len() as int)
}

/// A model-table section of `t` written over `old`: the table, then whatever of `old`
/// lies beyond it.
pub open spec fn model_section_bytes(t: Seq<ModelOffsets>, old: Seq<u8>) -> Seq<u8> {
    let table = model_table_bytes(t);
    if old.len() > table.len() {
        table + old.subrange(table.len() as int, old.len() as int)
    } else {
        table
    }
}

pub(crate) proof fn lemma_model_table_len(t: Seq<ModelOffsets>)
    ensures
        model_table_bytes(t).len() == 8 * t.len(),
    decreases t.len(),
{
    if t.len() > 0 {
        lemma_model_table_len(t.drop_last());
    }
}

fn encode_model_table(t: &Vec<ModelOffsets>) -> (r: Vec<u8>)
    ensures
        r@ == model_table_bytes(t@),
{
    let mut out: Vec<u8> = Vec::new();
    let mut k: usize = 0;
    while k < t.len()
        invariant
            k <= t@.len(),
            out@ == model_table_bytes(t@.subrange(0, k as int)),
        decreases t@.len() - k,
    {
        let e = t[k];
        push_u32_le(&mut out, e.tim_offset);
        push_u32_le(&mut out, e.md1_offset);
        proof {
            assert(t@.subrange(0, k + 1).drop_last() =~= t@.subrange(0, k as int));
            assert(out@ =~= model_table_bytes(t@.subrange(0, k as int)) + le32_bytes(e.tim_offset)
                + le32_bytes(e.md1_offset));
        }
        k = k + 1;
    }
    assert(t@.subrange(0, t@.len() as int) =~= t@);
    out
}

fn position_of(order: &Vec<RdtSection>, s: RdtSection) -> (r: Option<usize>)
    ensures
        r matches Some(p) ==> p < order@.len() && order@[p as int] == s,
        r is None <==> !order@.contains(s),
{
    let mut p: usize = 0;
    while p < order.len()
        invariant
            p <= order@.len(),
            forall|q: int| 0 <= q < p ==> order@[q] != s,
        decreases order@.len() - p,
    {
        if order[p] == s {
            return Some(p);
        }
        p = p + 1;
    }
    None
}

/// `rdt` is the file that `b` holds: its header, the present sections ordered by
/// offset and then by slot, and each section's bytes up to the next one's offset.
pub open spec fn parsed_from(rdt: RawRdt, b: Seq<u8>) -> bool {
    &&& header_read_from(rdt.head(), b)
    &&& !overruns(rdt.offs(), b.len() as int)
    &&& sorted_by_key(rdt.offs(), rdt.ord())
    &&& complete(rdt.offs(), rdt.ord())
    &&& forall|j: int|
        0 <= j < rdt.ord().len() ==> rdt.data()[#[trigger] rdt.ord()[j].slot()] == piece(
            b,
            rdt.offs()[rdt.ord()[j].slot()] as int,
            end_of(rdt.offs(), rdt.ord(), j, b.len() as int),
        )
}

/// A parsed room file: its header, the bytes of each section, and the order of the
/// present sections on disk.
#[derive(Debug, Clone)]
pub struct RawRdt {
    header: RdtHeader,
    sections: Vec<Vec<u8>>,
    section_order: Vec<RdtSection>,
}

impl RawRdt {
    pub closed spec fn head(&self) -> RdtHeader {
        self.header
    }

    /// The header's offsets, one per slot.
    pub closed spec fn offs(&self) -> Seq<u32> {
        self.header.offsets@
    }

    /// The bytes of each section, by header slot; empty for an absent section.
    pub closed spec fn data(&self) -> Seq<Seq<u8>> {
        self.sections@.map_values(|v: Vec<u8>| v@)
    }

    /// The present sections in their order on disk.
    pub closed spec fn ord(&self) -> Seq<RdtSection> {
        self.section_order@
    }

    pub open spec fn wf(&self) -> bool {
        &&& self.offs().len() == 23
        &&& self.head().offsets@ == self.offs()
        &&& self.data().len() == 23
        &&& self.ord().no_duplicates()
        &&& forall|i: int| 0 <= i < 23 ==> #[trigger] self.data()[i].len() <= u32::MAX
        &&& forall|i: int|
            0 <= i < 23 && !self.ord().contains(section_at(i)) ==> #[trigger] self.data()[i].len()
                == 0
    }

    /// The bytes of a section; empty when it is absent.
    pub fn section(&self, section: RdtSection) -> (r: &Vec<u8>)
        requires
            self.wf(),
        ensures
            r@ == self.data()[section.slot()],
    {
        &self.sections[section.index()]
    }

    pub fn section_size(&self, section: RdtSection) -> (r: usize)
        requires
            self.wf(),
        ensures
            r == self.data()[section.slot()].len(),
    {
        self.sections[section.index()].len()
    }

    /// Whether the header marks the section present.
    pub fn has_section(&self, section: RdtSection) -> (r: bool)
        requires
            self.wf(),
        ensures
            r == is_present(self.offs(), section),
    {
        self.header.offset(section) != 0
    }

    pub fn header(&self) -> (r: &RdtHeader)
        ensures
            *r == self.head(),
    {
        &self.header
    }

    /// The present sections in their order on disk.
    pub fn section_order(&self) -> (r: &Vec<RdtSection>)
        ensures
            r@ == self.ord(),
    {
        &self.section_order
    }

    /// The size of the file as written: the header and the sections on disk.
    pub fn size(&self) -> (r: u64)
        requires
            self.wf(),
        ensures
            r == 100 + span(self.data(), self.ord(), self.ord().len() as int),
    {
        let mut total: u64 = 100;
        let mut j: usize = 0;
        proof {
            self.lemma_order_len();
        }
        while j < self.section_order.len()
            invariant
                self.wf(),
                j <= self.ord().len() <= 23,
                total == 100 + span(self.data(), self.ord(), j as int),
                span(self.data(), self.ord(), j as int) <= j * u32::MAX,
            decreases self.ord().len() - j,
        {
            let s = self.section_order[j];
            proof {
                assert(self.data()[s.slot()].len() <= u32::MAX);
            }
            total = total + self.sections[s.index()].len() as u64;
            j = j + 1;
        }
        total
    }

    /// Reads a room file. It is refused when it is shorter than the header, larger than
    /// 32-bit offsets address, or when a present section other than the first on disk
    /// starts beyond its end. Sections are ordered by offset, then by header slot; each
    /// runs to the next one's offset, and the last to the end of the file.
    #[verifier::rlimit(40)]
    pub fn read(b: &[u8]) -> (r: Result<Self, RdtError>)
        ensures
            match Self::read_error(b@) {
                Some(e) => r == Err::<Self, RdtError>(e),
                None => r matches Ok(rdt) && rdt.wf() && parsed_from(rdt, b@),
            },
    {
        if b.len() < HEADER_SIZE {
            return Err(RdtError::TruncatedHeader);
        }
        if b.len() > 0xffff_ffff {
            return Err(RdtError::TooLarge);
        }
        let header = RdtHeader::parse(b);
        let ghost offs = header.offsets@;
        proof {
            assert forall|h: RdtHeader| header_read_from(h, b@) implies h.offsets@ == offs by {
                assert(h.offsets@ =~= offs);
            }
        }
        let order = sort_present(&header);
        let n = order.len();
        let mut sections: Vec<Vec<u8>> = Vec::new();
        let mut i: usize = 0;
        while i < NUM_SECTIONS
            invariant
                i <= NUM_SECTIONS,
                sections@.len() == i,
                forall|k: int| 0 <= k < i ==> (#[trigger] sections@[k])@.len() == 0,
            decreases NUM_SECTIONS - i,
        {
            sections.push(Vec::new());
            i = i + 1;
        }
        let mut j: usize = 0;
        while j < n
            invariant
                j <= n == order@.len() <= 23,
                header_read_from(header, b@),
                header.offsets@ == offs,
                offs.len() == 23,
                100 <= b@.len() <= u32::MAX,
                sorted_by_key(offs, order@),
                complete(offs, order@),
                sections@.len() == 23,
                forall|q: int| 1 <= q <= j && q < n ==> offs[#[trigger] order@[q].slot()] <= b@.len(),
                forall|q: int|
                    0 <= q < j ==> (#[trigger] sections@[order@[q].slot()])@ == piece(
                        b@,
                        offs[order@[q].slot()] as int,
                        end_of(offs, order@, q, b@.len() as int),
                    ),
                forall|k: int|
                    0 <= k < 23 && (forall|q: int| 0 <= q < j ==> order@[q].slot() != k) ==> (
                    #[trigger] sections@[k])@.len() == 0,
                forall|k: int| 0 <= k < 23 ==> (#[trigger] sections@[k])@.len() <= u32::MAX,
            decreases n - j,
        {
            let s = order[j];
            let start = header.offset(s) as usize;
            let end: usize = if j + 1 < n {
                header.offset(order[j + 1]) as usize
            } else {
                b.len()
            };
            if end > b.len() {
                proof {
                    assert(header_read_from(header, b@));
                    let t = order@[j as int + 1];
                    assert(key(offs, order@[j as int]) < key(offs, t));
                    assert(is_present(offs, s) && is_present(offs, t)) by {
                        assert(order@.contains(s));
                        assert(order@.contains(t));
                    }
                    assert(overruns(offs, b@.len() as int));
                    assert(header_read_from(header, b@) && overruns(header.offsets@, b@.len() as int));
                }
                return Err(RdtError::SectionOutOfBounds);
            }
            let data = if start <= end {
                copy_range(b, start, end)
            } else {
                Vec::new()
            };
            sections.set(s.index(), data);
            proof {
                assert forall|q: int| 0 <= q < j implies order@[q].slot() != s.slot() by {
                    assert(key(offs, order@[q]) < key(offs, s));
                }
            }
            j = j + 1;
        }
        proof {
            if overruns(offs, b@.len() as int) {
                let (s, t) = choose|s: RdtSection, t: RdtSection|
                    #![trigger key(offs, s), key(offs, t)]
                    is_present(offs, s) && is_present(offs, t) && key(offs, s) < key(offs, t)
                        && offs[t.slot()] > b@.len();
                assert(order@.contains(s));
                assert(order@.contains(t));
                let ps = choose|p: int| 0 <= p < n && order@[p] == s;
                let pt = choose|p: int| 0 <= p < n && order@[p] == t;
                assert(pt >= 1);
                assert(false);
            }
        }
        let rdt = RawRdt { header, sections, section_order: order };
        proof {
            assert(rdt.data().len() == 23);
            assert forall|k: int| 0 <= k < 23 implies #[trigger] rdt.data()[k].len() <= u32::MAX by {
                assert(rdt.data()[k] == rdt.sections@[k]@);
            }
            assert forall|k: int| 0 <= k < 23 && !rdt.ord().contains(section_at(k)) implies #[trigger] rdt.data()[k].len() == 0 by {
                assert(rdt.data()[k] == rdt.sections@[k]@);
                assert forall|q: int| 0 <= q < n implies order@[q].slot() != k by {
                    if order@[q].slot() == k {
                        assert(section_at(k) == order@[q]);
                    }
                }
            }
            assert forall|q: int| 0 <= q < n implies rdt.data()[#[trigger] rdt.ord()[q].slot()] == piece(
                b@,
                offs[order@[q].slot()] as int,
                end_of(offs, order@, q, b@.len() as int),
            ) by {
                assert(rdt.data()[order@[q].slot()] == rdt.sections@[order@[q].slot()]@);
            }
            assert(order@.no_duplicates()) by {
                assert forall|a: int, c: int| 0 <= a < n && 0 <= c < n && a != c implies order@[a] != order@[c] by {
                    if a < c {
                        assert(key(offs, order@[a]) < key(offs, order@[c]));
                    } else {
                        assert(key(offs, order@[c]) < key(offs, order@[a]));
                    }
                }
            }
        }
        Ok(rdt)
    }

    /// Why bytes cannot be read as a room file, if they cannot.
    pub open spec fn read_error(b: Seq<u8>) -> Option<RdtError> {
        if b.len() < 100 {
            Some(RdtError::TruncatedHeader)
        } else if b.len() > u32::MAX {
            Some(RdtError::TooLarge)
        } else if exists|h: RdtHeader| header_read_from(h, b) && overruns(h.offsets@, b.len() as int) {
            Some(RdtError::SectionOutOfBounds)
        } else {
            None
        }
    }

    /// Writes the file: the header, zeros up to the first section, then each section in
    /// its order. Refused when the first section starts inside the header, or when a
    /// section's offset is not where the sections before it end.
    #[verifier::rlimit(40)]
    pub fn write(&self) -> (r: Result<Vec<u8>, RdtError>)
        requires
            self.wf(),
        ensures
            r is Ok <==> placed(self.offs(), self.data(), self.ord()),
            r matches Ok(v) ==> v@ == file_bytes(self.head(), self.data(), self.ord()),
            r == Err::<Vec<u8>, RdtError>(RdtError::SectionInsideHeader) <==> self.ord().len() > 0
                && self.offs()[self.ord()[0].slot()] < 100,
            r is Err ==> r == Err::<Vec<u8>, RdtError>(RdtError::SectionInsideHeader) || r == Err::<
                Vec<u8>,
                RdtError,
            >(RdtError::SectionMisplaced),
    {
        let mut out = self.header.to_bytes();
        proof {
            lemma_words_bytes_len(self.header.offsets@);
        }
        let n = self.section_order.len();
        let ghost data = self.data();
        let ghost ord = self.ord();
        let ghost offs = self.offs();
        let mut first: usize = HEADER_SIZE;
        if n > 0 {
            first = self.header.offset(self.section_order[0]) as usize;
            if first < HEADER_SIZE {
                return Err(RdtError::SectionInsideHeader);
            }
            while out.len() < first
                invariant
                    100 <= out@.len() <= first,
                    out@ == header_bytes(self.head()) + Seq::new((out@.len() - 100) as nat, |i: int| 0u8),
                decreases first - out@.len(),
            {
                let ghost before = out@;
                out.push(0);
                assert(out@ =~= header_bytes(self.head()) + Seq::new((out@.len() - 100) as nat, |i: int| 0u8));
            }
        }
        assert(out@ == header_bytes(self.head()) + Seq::new((first - 100) as nat, |i: int| 0u8)
            + joined(data, ord, 0));
        let mut j: usize = 0;
        while j < n
            invariant
                self.wf(),
                data == self.data(),
                ord == self.ord(),
                offs == self.offs(),
                n == ord.len(),
                j <= n,
                n > 0 ==> first == offs[ord[0].slot()],
                n == 0 ==> first == 100,
                first >= 100,
                out@.len() == first + span(data, ord, j as int),
                out@ == header_bytes(self.head()) + Seq::new((first - 100) as nat, |i: int| 0u8)
                    + joined(data, ord, j as int),
                forall|q: int| 0 <= q < j ==> #[trigger] offs[ord[q].slot()] == first + span(data, ord, q),
            decreases n - j,
        {
            let s = self.section_order[j];
            if out.len() != self.header.offset(s) as usize {
                return Err(RdtError::SectionMisplaced);
            }
            append_bytes(&mut out, &self.sections[s.index()]);
            proof {
                assert(self.sections@[s.slot()]@ == data[s.slot()]);
                assert(out@ =~= header_bytes(self.head()) + Seq::new((first - 100) as nat, |i: int| 0u8)
                    + joined(data, ord, j + 1));
            }
            j = j + 1;
        }
        Ok(out)
    }

    pub closed spec fn o_model(&self) -> u8 {
        self.header.o_model
    }

    /// The model section's bytes.
    pub open spec fn model_data(&self) -> Seq<u8> {
        self.data()[10]
    }

    /// Reads the model table: `o_model` entries at the start of the model section.
    pub fn model_offsets(&self) -> (r: Result<Vec<ModelOffsets>, RdtError>)
        requires
            self.wf(),
        ensures
            r is Ok <==> self.model_data().len() >= 8 * self.o_model(),
            r is Err ==> r == Err::<Vec<ModelOffsets>, RdtError>(RdtError::TruncatedModelTable),
            r matches Ok(t) ==> t@.len() == self.o_model() && forall|k: int|
                0 <= k < t@.len() ==> #[trigger] t@[k] == model_entry_at(self.model_data(), k),
    {
        let raw = &self.sections[10];
        assert(raw@ == self.model_data());
        let count = self.header.o_model as usize;
        let mut out: Vec<ModelOffsets> = Vec::new();
        let mut k: usize = 0;
        while k < count
            invariant
                raw@ == self.model_data(),
                count == self.o_model(),
                k <= count,
                raw@.len() >= 8 * k,
                out@.len() == k,
                forall|q: int| 0 <= q < k ==> #[trigger] out@[q] == model_entry_at(raw@, q),
            decreases count - k,
        {
            let tim = read_u32_le(raw, 8 * k);
            let md1 = read_u32_le(raw, 8 * k + 4);
            match (tim, md1) {
                (Some(tim_offset), Some(md1_offset)) => {
                    out.push(ModelOffsets { tim_offset, md1_offset });
                },
                _ => {
                    return Err(RdtError::TruncatedModelTable);
                },
            }
            k = k + 1;
        }
        Ok(out)
    }

    /// The header offsets with the offset of `slot` cleared when `clear` holds.
    pub open spec fn cleared_offsets(&self, slot: int, clear: bool) -> Seq<u32> {
        if clear {
            self.offs().update(slot, 0)
        } else {
            self.offs()
        }
    }

    /// Some header offset leaves the 32-bit range when those beyond the offset of `slot`
    /// move by `delta`.
    pub open spec fn header_overflows(&self, slot: int, clear: bool, delta: int) -> bool {
        exists|i: int|
            0 <= i < 23 && !fits_u32(
                #[trigger] shift_word(self.cleared_offsets(slot, clear)[i], self.offs()[slot], delta),
            )
    }

    /// The header offsets after those beyond the offset of `slot` move by `delta`.
    pub open spec fn shifted_header(&self, slot: int, clear: bool, delta: int) -> Seq<u32> {
        Seq::new(
            23,
            |i: int|
                if i == slot && clear {
                    0u32
                } else {
                    shift_word(self.offs()[i], self.offs()[slot], delta) as u32
                },
        )
    }

    /// Some model-table offset leaves the 32-bit range when those beyond `pivot`
    /// move by `delta`.
    pub open spec fn model_overflows(&self, pivot: u32, delta: int) -> bool {
        exists|k: int|
            0 <= k < self.o_model() && (!fits_u32(
                shift_model_word(#[trigger] model_entry_at(self.model_data(), k).tim_offset, pivot, delta),
            ) || !fits_u32(shift_model_word(model_entry_at(self.model_data(), k).md1_offset, pivot, delta)))
    }

    /// Whether replacing `section` with `new` bytes fails, and why. Appending a section
    /// fails when the file would outgrow 32-bit offsets; changing the length of a present
    /// section fails when a shifted header offset or model-table offset leaves the 32-bit
    /// range, or when the model section is too short for its table.
    pub open spec fn replace_error(&self, section: RdtSection, new: Seq<u8>) -> Option<RdtError> {
        let slot = section.slot();
        let delta = new.len() - self.data()[slot].len();
        let pivot = self.offs()[slot];
        if new.len() > 0 && !self.ord().contains(section) {
            if 100 + span(self.data(), self.ord(), self.ord().len() as int) > u32::MAX {
                Some(RdtError::TooLarge)
            } else {
                None
            }
        } else if delta == 0 {
            None
        } else if self.header_overflows(slot, new.len() == 0, delta) {
            Some(RdtError::OffsetOverflow)
        } else if self.model_data().len() < 8 * self.o_model() {
            Some(RdtError::TruncatedModelTable)
        } else if self.model_overflows(pivot, delta) {
            Some(RdtError::OffsetOverflow)
        } else {
            None
        }
    }

    /// `after` is this file with `section` replaced by `new` bytes, when that succeeds.
    /// A section that was absent is appended at the end, at the current size. Otherwise
    /// every header offset beyond the section's offset moves by the change in length,
    /// and so does every model-table offset beyond it; empty bytes make the section
    /// absent, and removing the model section also empties the model table's count.
    pub open spec fn replaced(&self, section: RdtSection, new: Seq<u8>, after: RawRdt) -> bool {
        &&& after.o_model() == (if section.slot() == 10 && new.len() == 0 { 0 } else { self.o_model() })
        &&& counts_bytes(after.head()) == counts_bytes(self.head()).update(2, after.o_model())
        &&& self.replaced_layout(section, new, after)
    }

    /// The offsets, order and bytes of `after` are those of this file with `section`
    /// replaced by `new` bytes.
    pub open spec fn replaced_layout(&self, section: RdtSection, new: Seq<u8>, after: RawRdt) -> bool {
        let slot = section.slot();
        let delta = new.len() - self.data()[slot].len();
        let pivot = self.offs()[slot];
        if new.len() > 0 && !self.ord().contains(section) {
            &&& after.offs() == self.offs().update(
                slot,
                (100 + span(self.data(), self.ord(), self.ord().len() as int)) as u32,
            )
            &&& after.ord() == self.ord().push(section)
            &&& after.data() == self.data().update(slot, new)
        } else {
            &&& after.offs() == self.shifted_header(slot, new.len() == 0, delta)
            &&& after.ord() == if new.len() == 0 && self.ord().contains(section) {
                self.ord().remove(self.ord().index_of(section))
            } else {
                self.ord()
            }
            &&& after.data() == if delta != 0 && slot != 10 {
                self.data().update(
                    10,
                    patched_model(self.model_data(), self.o_model() as int, pivot, delta),
                ).update(slot, new)
            } else {
                self.data().update(slot, new)
            }
        }
    }

    /// Replaces the bytes of a section, keeping every offset in the header and in the
    /// model table in step. Nothing changes when it fails.
    #[verifier::rlimit(100)]
    pub fn replace_section(&mut self, section: RdtSection, data: Vec<u8>) -> (r: Result<(), RdtError>)
        requires
            old(self).wf(),
            data@.len() <= u32::MAX,
        ensures
            final(self).wf(),
            match old(self).replace_error(section, data@) {
                Some(e) => r == Err::<(), RdtError>(e) && *final(self) == *old(self),
                None => r is Ok && old(self).replaced(section, data@, *final(self)),
            },
    {
        let slot = section.index();
        let ghost before = *self;
        let old_len = self.sections[slot].len();
        let found = position_of(&self.section_order, section);
        let present = found.is_some();
        if data.len() > 0 && !present {
            let size = self.size();
            if size > 0xffff_ffff {
                return Err(RdtError::TooLarge);
            }
            self.section_order.push(section);
            self.header.set_offset(section, size as u32);
            self.sections.set(slot, data);
            proof {
                assert(self.data() =~= before.data().update(slot as int, data@));
                assert(counts_bytes(self.head()) =~= counts_bytes(before.head()).update(2, self.o_model()));
                self.lemma_wf_after_append(before, section);
            }
            return Ok(());
        }
        let pivot = self.header.offset(section);
        let delta: i64 = data.len() as i64 - old_len as i64;
        let offsets = match self.shifted_offsets(slot, data.len() == 0, delta) {
            Ok(o) => o,
            Err(e) => {
                return Err(e);
            },
        };
        let mut new_model: Option<Vec<u8>> = None;
        if delta != 0 {
            match self.patched_model_bytes(pivot, delta) {
                Ok(m) => {
                    new_model = Some(m);
                },
                Err(e) => {
                    return Err(e);
                },
            }
        }
        proof {
            assert(before.replace_error(section, data@) is None);
        }
        if data.len() == 0 {
            match found {
                Some(p) => {
                    proof {
                        assert(before.ord().contains(section));
                        let ip = before.ord().index_of(section);
                        assert(before.ord()[ip] == section);
                        assert(ip == p);
                    }
                    self.section_order.remove(p);
                },
                None => {},
            }
        }
        self.header.offsets = offsets;
        match new_model {
            Some(m) => {
                if slot != 10 {
                    self.sections.set(10, m);
                }
            },
            None => {},
        }
        if slot == 10 && data.len() == 0 {
            self.header.o_model = 0;
        }
        self.sections.set(slot, data);
        proof {
            let want = if delta != 0 && slot != 10 {
                before.data().update(
                    10,
                    patched_model(before.model_data(), before.o_model() as int, pivot, delta as int),
                ).update(slot as int, data@)
            } else {
                before.data().update(slot as int, data@)
            };
            assert(self.data() =~= want);
            assert(counts_bytes(self.head()) =~= counts_bytes(before.head()).update(2, self.o_model()));
            assert(before.replaced(section, data@, *self));
            self.lemma_wf_after_shift(before, section, data@);
        }
        Ok(())
    }

    /// The header offsets after a change of `delta` bytes in the section of `slot`,
    /// which is first marked absent when `clear` holds.
    #[verifier::rlimit(40)]
    fn shifted_offsets(&self, slot: usize, clear: bool, delta: i64) -> (r: Result<Vec<u32>, RdtError>)
        requires
            self.wf(),
            slot < 23,
            -0xffff_ffff <= delta <= 0xffff_ffff,
        ensures
            r is Err <==> self.header_overflows(slot as int, clear, delta as int),
            r is Err ==> r == Err::<Vec<u32>, RdtError>(RdtError::OffsetOverflow),
            r matches Ok(v) ==> v@ == self.shifted_header(slot as int, clear, delta as int),
    {
        let pivot = self.header.offsets[slot];
        let ghost offs1 = if clear { self.offs().update(slot as int, 0) } else { self.offs() };
        let mut offsets: Vec<u32> = Vec::new();
        let mut i: usize = 0;
        while i < NUM_SECTIONS
            invariant
                self.wf(),
                slot < 23,
                -0xffff_ffff <= delta <= 0xffff_ffff,
                pivot == self.offs()[slot as int],
                offs1 == self.cleared_offsets(slot as int, clear),
                i <= NUM_SECTIONS,
                offsets@.len() == i,
                forall|q: int| 0 <= q < i ==> #[trigger] offsets@[q] == (if q == slot && clear {
                    0u32
                } else {
                    shift_word(self.offs()[q], pivot, delta as int) as u32
                }),
                forall|q: int| 0 <= q < i ==> fits_u32(#[trigger] shift_word(offs1[q], pivot, delta as int)),
            decreases NUM_SECTIONS - i,
        {
            let v: u32 = if i == slot && clear { 0 } else { self.header.offsets[i] };
            if v > pivot {
                let nv: i64 = v as i64 + delta;
                if nv < 0 || nv > 0xffff_ffff {
                    proof {
                        assert(offs1[i as int] == v);
                        assert(!fits_u32(shift_word(offs1[i as int], pivot, delta as int)));
                    }
                    return Err(RdtError::OffsetOverflow);
                }
                offsets.push(nv as u32);
            } else {
                offsets.push(v);
            }
            i = i + 1;
        }
        proof {
            assert(offsets@ =~= self.shifted_header(slot as int, clear, delta as int));
        }
        Ok(offsets)
    }

    /// The model section after a change of `delta` bytes at `pivot`.
    #[verifier::rlimit(40)]
    fn patched_model_bytes(&self, pivot: u32, delta: i64) -> (r: Result<Vec<u8>, RdtError>)
        requires
            self.wf(),
            -0xffff_ffff <= delta <= 0xffff_ffff,
        ensures
            r == Err::<Vec<u8>, RdtError>(RdtError::TruncatedModelTable) <==> self.model_data().len() < 8 * self.o_model(),
            r == Err::<Vec<u8>, RdtError>(RdtError::OffsetOverflow) <==> self.model_data().len() >= 8
                * self.o_model() && self.model_overflows(pivot, delta as int),
            r is Err ==> r == Err::<Vec<u8>, RdtError>(RdtError::TruncatedModelTable) || r == Err::<Vec<u8>, RdtError>(RdtError::OffsetOverflow),
            r matches Ok(m) ==> m@ == patched_model(self.model_data(), self.o_model() as int, pivot, delta as int),
    {
        let table = match self.model_offsets() {
            Ok(t) => t,
            Err(e) => {
                return Err(e);
            },
        };
        let mut shifted: Vec<ModelOffsets> = Vec::new();
        let mut k: usize = 0;
        while k < table.len()
            invariant
                self.wf(),
                -0xffff_ffff <= delta <= 0xffff_ffff,
                k <= table@.len(),
                table@.len() == self.o_model(),
                self.model_data().len() >= 8 * self.o_model(),
                forall|q: int| 0 <= q < table@.len() ==> #[trigger] table@[q] == model_entry_at(self.model_data(), q),
                shifted@.len() == k,
                forall|q: int| 0 <= q < k ==> #[trigger] shifted@[q] == shifted_entry(table@[q], pivot, delta as int),
                forall|q: int| 0 <= q < k ==> fits_u32(shift_model_word(#[trigger] table@[q].tim_offset, pivot, delta as int)),
                forall|q: int| 0 <= q < k ==> fits_u32(shift_model_word(#[trigger] table@[q].md1_offset, pivot, delta as int)),
            decreases table@.len() - k,
        {
            let e = table[k];
            let mut tim: i64 = e.tim_offset as i64;
            let mut md1: i64 = e.md1_offset as i64;
            if e.tim_offset > pivot {
                tim = tim + delta;
            }
            if e.md1_offset > pivot {
                md1 = md1 + delta;
            }
            if tim < 0 || tim > 0xffff_ffff || md1 < 0 || md1 > 0xffff_ffff {
                proof {
                    assert(table@[k as int] == model_entry_at(self.model_data(), k as int));
                }
                return Err(RdtError::OffsetOverflow);
            }
            proof {
                assert(table@[k as int] == e);
                assert(fits_u32(shift_model_word(table@[k as int].tim_offset, pivot, delta as int)));
                assert(fits_u32(shift_model_word(table@[k as int].md1_offset, pivot, delta as int)));
            }
            shifted.push(ModelOffsets { tim_offset: tim as u32, md1_offset: md1 as u32 });
            k = k + 1;
        }
        proof {
            assert forall|q: int| 0 <= q < self.o_model() implies fits_u32(
                shift_model_word(#[trigger] model_entry_at(self.model_data(), q).tim_offset, pivot, delta as int),
            ) && fits_u32(shift_model_word(model_entry_at(self.model_data(), q).md1_offset, pivot, delta as int)) by {
                assert(table@[q] == model_entry_at(self.model_data(), q));
            }
        }
        let mut buf = encode_model_table(&shifted);
        let model = &self.sections[10];
        let table_len = buf.len();
        proof {
            lemma_model_table_len(shifted@);
            assert(model@ == self.model_data());
        }
        let tail = copy_range(model, table_len, model.len());
        append_bytes(&mut buf, &tail);
        proof {
            assert(shifted@ =~= Seq::new(self.o_model() as nat, |q: int| shifted_entry(model_entry_at(self.model_data(), q), pivot, delta as int)));
        }
        Ok(buf)
    }

    /// Writes a model table over the start of the model section, keeping whatever of the
    /// old section lies beyond it, and sets the header's count to the number of entries.
    pub fn set_model_offsets(&mut self, offsets: Vec<ModelOffsets>) -> (r: Result<(), RdtError>)
        requires
            old(self).wf(),
        ensures
            final(self).wf(),
            offsets@.len() > 255 ==> r == Err::<(), RdtError>(RdtError::TooManyModels) && *final(self)
                == *old(self),
            offsets@.len() <= 255 ==> match old(self).replace_error(
                RdtSection::Model,
                model_section_bytes(offsets@, old(self).model_data()),
            ) {
                Some(e) => r == Err::<(), RdtError>(e) && *final(self) == *old(self),
                None => {
                    &&& r is Ok
                    &&& old(self).replaced_layout(
                        RdtSection::Model,
                        model_section_bytes(offsets@, old(self).model_data()),
                        *final(self),
                    )
                    &&& final(self).o_model() == offsets@.len()
                },
            },
    {
        if offsets.len() > 255 {
            return Err(RdtError::TooManyModels);
        }
        let mut buf = encode_model_table(&offsets);
        let old_data = &self.sections[10];
        proof {
            lemma_model_table_len(offsets@);
            assert(old_data@ == self.model_data());
        }
        if old_data.len() > buf.len() {
            let tail = copy_range(old_data, buf.len(), old_data.len());
            append_bytes(&mut buf, &tail);
        }
        assert(buf@ == model_section_bytes(offsets@, self.model_data()));
        match self.replace_section(RdtSection::Model, buf) {
            Ok(()) => {},
            Err(e) => {
                return Err(e);
            },
        }
        let ghost mid = *self;
        self.header.o_model = offsets.len() as u8;
        proof {
            assert(self.data() == mid.data());
            assert(self.ord() == mid.ord());
            assert(self.offs() == mid.offs());
        }
        Ok(())
    }

    #[verifier::rlimit(40)]
    proof fn lemma_wf_after_shift(&self, before: RawRdt, section: RdtSection, new: Seq<u8>)
        requires
            before.wf(),
            new.len() <= u32::MAX,
            new.len() == 0 || before.ord().contains(section),
            before.replace_error(section, new) is None,
            before.replaced(section, new, *self),
            self.head().offsets@ == self.offs(),
        ensures
            self.wf(),
    {
        let slot = section.slot();
        let delta = new.len() - before.data()[slot].len();
        let pivot = before.offs()[slot];
        if delta != 0 && slot != 10 {
            let t = Seq::new(before.o_model() as nat, |k: int| shifted_entry(model_entry_at(before.model_data(), k), pivot, delta));
            lemma_model_table_len(t);
        }
        assert(section_at(slot) == section);
        assert forall|i: int| 0 <= i < 23 implies #[trigger] self.data()[i].len() <= u32::MAX by {
            if i == slot {
            } else if i == 10 && delta != 0 {
                assert(before.model_data().len() >= 8 * before.o_model());
                assert(self.data()[i].len() == before.data()[i].len());
            } else {
                assert(self.data()[i] == before.data()[i]);
            }
        }
        if new.len() == 0 && before.ord().contains(section) {
            let p = before.ord().index_of(section);
            before.ord().remove_ensures(p);
            assert forall|i: int| 0 <= i < 23 && !self.ord().contains(section_at(i)) implies #[trigger] self.data()[i].len() == 0 by {
                if i != slot && before.ord().contains(section_at(i)) {
                    let q = choose|q: int| 0 <= q < before.ord().len() && before.ord()[q] == section_at(i);
                    if q < p {
                        assert(self.ord()[q] == section_at(i));
                    } else {
                        assert(q != p);
                        assert(self.ord()[q - 1] == section_at(i));
                    }
                }
                if i != slot && (i != 10 || delta == 0) {
                    assert(self.data()[i] == before.data()[i]);
                }
                if i == 10 && i != slot && delta != 0 {
                    assert(before.model_data().len() >= 8 * before.o_model());
                    assert(self.data()[i].len() == before.data()[i].len());
                }
            }
            assert(self.ord().no_duplicates()) by {
                assert forall|a: int, b: int| 0 <= a < self.ord().len() && 0 <= b < self.ord().len() && a != b implies self.ord()[a] != self.ord()[b] by {
                    let a1 = if a < p { a } else { a + 1 };
                    let b1 = if b < p { b } else { b + 1 };
                    assert(self.ord()[a] == before.ord()[a1]);
                    assert(self.ord()[b] == before.ord()[b1]);
                }
            }
        } else {
            assert forall|i: int| 0 <= i < 23 && !self.ord().contains(section_at(i)) implies #[trigger] self.data()[i].len() == 0 by {
                if i != slot && (i != 10 || delta == 0) {
                    assert(self.data()[i] == before.data()[i]);
                }
            }
        }
    }

    proof fn lemma_wf_after_append(&self, before: RawRdt, section: RdtSection)
        requires
            before.wf(),
            !before.ord().contains(section),
            self.ord() == before.ord().push(section),
            self.offs().len() == 23,
            self.head().offsets@ == self.offs(),
            self.data() == before.data().update(section.slot(), self.data()[section.slot()]),
            self.data()[section.slot()].len() <= u32::MAX,
        ensures
            self.wf(),
    {
        assert forall|i: int| 0 <= i < 23 && !self.ord().contains(section_at(i)) implies #[trigger] self.data()[i].len() == 0 by {
            if i == section.slot() {
                assert(self.ord()[self.ord().len() - 1] == section);
                assert(section_at(section.slot()) == section);
            }
            if before.ord().contains(section_at(i)) {
                let q = choose|q: int| 0 <= q < before.ord().len() && before.ord()[q] == section_at(i);
                assert(self.ord()[q] == section_at(i));
            }
        }
        assert(self.ord().no_duplicates()) by {
            assert forall|a: int, b: int| 0 <= a < self.ord().len() && 0 <= b < self.ord().len() && a != b implies self.ord()[a] != self.ord()[b] by {
                let n = before.ord().len();
                if a == n {
                    assert(!before.ord().contains(self.ord()[b]) || self.ord()[b] != section);
                    if b < n {
                        assert(before.ord()[b] == self.ord()[b]);
                    }
                } else if b == n {
                    if a < n {
                        assert(before.ord()[a] == self.ord()[a]);
                    }
                }
            }
        }
        assert forall|i: int| 0 <= i < 23 implies #[trigger] self.data()[i].len() <= u32::MAX by {
            if i != section.slot() {
                assert(self.data()[i] == before.data()[i]);
            }
        }
    }

    /// The order has no duplicates, so it holds at most one entry per slot.
    proof fn lemma_order_len(&self)
        requires
            self.wf(),
        ensures
            self.ord().len() <= 23,
    {
        let ord = self.ord();
        let slots = vstd::set_lib::set_int_range(0, 23);
        vstd::set_lib::lemma_int_range(0, 23);
        let f = |s: RdtSection| s.slot();
        ord.unique_seq_to_set();
        let x = ord.to_set();
        let y = x.map(f);
        assert(y.subset_of(slots));
        assert(vstd::relations::injective_on(f, x)) by {
            assert forall|a: RdtSection, b: RdtSection|
                x.contains(a) && x.contains(b) && #[trigger] f(a) == #[trigger] f(b) implies a == b by {
                assert(section_at(a.slot()) == a);
                assert(section_at(b.slot()) == b);
            }
        }
        vstd::set_lib::lemma_map_size(x, y, f);
        vstd::set_lib::lemma_len_subset(y, slots);
    }
}

} // verus!
