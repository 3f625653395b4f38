//! Laws that relate reading, changing and writing room files.
use vstd::prelude::*;

use crate::rdt::{
    end_of, file_bytes, joined, key, lemma_header_round_trip, lemma_slots, model_entry_at,
    model_table_bytes, parsed_from, patched_model, piece, placed, section_at, shift_word,
    shifted_entry, sorted_by_key, span, RawRdt, RdtSection,
};

verus! {

proof fn lemma_offsets_ascend(offs: Seq<u32>, ord: Seq<RdtSection>, a: int, c: int)
    requires
        offs.len() == 23,
        sorted_by_key(offs, ord),
        0 <= a <= c < ord.len(),
    ensures
        offs[ord[a].slot()] <= offs[ord[c].slot()],
{
    lemma_slots();
    if a < c {
        assert(key(offs, ord[a]) < key(offs, ord[c]));
    }
}

/// Where the `j`-th section on disk starts, or the end of the file after the last.
spec fn start_at(offs: Seq<u32>, ord: Seq<RdtSection>, j: int, len: int) -> int {
    if j < ord.len() {
        offs[ord[j].slot()] as int
    } else {
        len
    }
}

#[verifier::rlimit(40)]
proof fn lemma_parsed_prefix(rdt: RawRdt, b: Seq<u8>, j: int)
    requires
        rdt.wf(),
        parsed_from(rdt, b),
        rdt.ord().len() > 0,
        rdt.offs()[rdt.ord()[rdt.ord().len() - 1].slot()] <= b.len(),
        0 <= j <= rdt.ord().len(),
    ensures
        span(rdt.data(), rdt.ord(), j) == start_at(rdt.offs(), rdt.ord(), j, b.len() as int)
            - rdt.offs()[rdt.ord()[0].slot()],
        joined(rdt.data(), rdt.ord(), j) == b.subrange(
            rdt.offs()[rdt.ord()[0].slot()] as int,
            start_at(rdt.offs(), rdt.ord(), j, b.len() as int),
        ),
    decreases j,
{
    let offs = rdt.offs();
    let ord = rdt.ord();
    let n = ord.len();
    let o0 = offs[ord[0].slot()] as int;
    lemma_offsets_ascend(offs, ord, 0, n - 1);
    if j == 0 {
        assert(b.subrange(o0, o0) =~= Seq::<u8>::empty());
    } else {
        lemma_parsed_prefix(rdt, b, j - 1);
        let k = j - 1;
        let s = offs[ord[k].slot()] as int;
        let e = end_of(offs, ord, k, b.len() as int);
        assert(e == start_at(offs, ord, j, b.len() as int));
        lemma_offsets_ascend(offs, ord, 0, k);
        lemma_offsets_ascend(offs, ord, k, n - 1);
        if j < n {
            lemma_offsets_ascend(offs, ord, k, j);
            lemma_offsets_ascend(offs, ord, j, n - 1);
        }
        assert(rdt.data()[ord[k].slot()] == piece(b, s, e));
        assert(s <= e);
        assert(e <= b.len()) by {
            if j < n {
                lemma_offsets_ascend(offs, ord, j, n - 1);
            }
        }
        assert(b.subrange(o0, e) =~= b.subrange(o0, s) + b.subrange(s, e));
    }
}

/// Reading a file and writing it back gives the same bytes, provided that the first
/// section does not start inside the header, the bytes between the header and the first
/// section are zero, the last section starts within the file, and a file without
/// sections is just a header.
pub proof fn lemma_read_write_round_trip(b: Seq<u8>, rdt: RawRdt)
    requires
        rdt.wf(),
        parsed_from(rdt, b),
        b.len() >= 100,
        rdt.ord().len() == 0 ==> b.len() == 100,
        rdt.ord().len() > 0 ==> {
            let first = rdt.offs()[rdt.ord()[0].slot()] as int;
            &&& first >= 100
            &&& rdt.offs()[rdt.ord()[rdt.ord().len() - 1].slot()] <= b.len()
            &&& forall|i: int| 100 <= i < first ==> b[i] == 0u8
        },
    ensures
        placed(rdt.offs(), rdt.data(), rdt.ord()),
        file_bytes(rdt.head(), rdt.data(), rdt.ord()) == b,
{
    let offs = rdt.offs();
    let ord = rdt.ord();
    let n = ord.len();
    lemma_header_round_trip(rdt.head(), b);
    if n == 0 {
        assert(b.subrange(0, 100) =~= b);
        assert(file_bytes(rdt.head(), rdt.data(), ord) =~= b);
    } else {
        let o0 = offs[ord[0].slot()] as int;
        lemma_offsets_ascend(offs, ord, 0, n - 1);
        assert forall|j: int| 0 <= j < n implies #[trigger] offs[ord[j].slot()] == o0 + span(
            rdt.data(),
            ord,
            j,
        ) by {
            lemma_parsed_prefix(rdt, b, j);
        }
        lemma_parsed_prefix(rdt, b, n as int);
        let zeros = Seq::new((o0 - 100) as nat, |i: int| 0u8);
        assert(zeros =~= b.subrange(100, o0));
        assert(b =~= b.subrange(0, 100) + b.subrange(100, o0) + b.subrange(o0, b.len() as int));
        assert(file_bytes(rdt.head(), rdt.data(), ord) =~= b);
    }
}

/// The sections follow the header without gaps: each section's offset is the header
/// size plus the lengths of the sections before it on disk.
pub open spec fn contiguous(r: RawRdt) -> bool {
    forall|j: int|
        0 <= j < r.ord().len() ==> #[trigger] r.offs()[r.ord()[j].slot()] == 100 + span(
            r.data(),
            r.ord(),
            j,
        )
}

proof fn lemma_span_same(d1: Seq<Seq<u8>>, o1: Seq<RdtSection>, d2: Seq<Seq<u8>>, o2: Seq<RdtSection>, j: int)
    requires
        0 <= j <= o1.len(),
        j <= o2.len(),
        forall|k: int| 0 <= k < j ==> #[trigger] d1[o1[k].slot()].len() == d2[o2[k].slot()].len(),
    ensures
        span(d1, o1, j) == span(d2, o2, j),
    decreases j,
{
    if j > 0 {
        lemma_span_same(d1, o1, d2, o2, j - 1);
    }
}

proof fn lemma_span_grows(d: Seq<Seq<u8>>, o: Seq<RdtSection>, a: int, c: int)
    requires
        0 <= a <= c <= o.len(),
    ensures
        span(d, o, a) <= span(d, o, c),
    decreases c,
{
    if a < c {
        lemma_span_grows(d, o, a, c - 1);
    }
}

/// Past a position `p` whose length changed by `delta`, every prefix length changes by
/// `delta`.
proof fn lemma_span_changed(d1: Seq<Seq<u8>>, d2: Seq<Seq<u8>>, o: Seq<RdtSection>, p: int, delta: int, j: int)
    requires
        0 <= p < j <= o.len(),
        forall|k: int| 0 <= k < o.len() && k != p ==> #[trigger] d1[o[k].slot()].len() == d2[o[k].slot()].len(),
        d2[o[p].slot()].len() == d1[o[p].slot()].len() + delta,
    ensures
        span(d2, o, j) == span(d1, o, j) + delta,
    decreases j,
{
    if j == p + 1 {
        lemma_span_same(d1, o, d2, o, p);
    } else {
        lemma_span_changed(d1, d2, o, p, delta, j - 1);
    }
}

/// Removing position `p` from the order drops its length from the later prefixes.
proof fn lemma_span_removed(d1: Seq<Seq<u8>>, d2: Seq<Seq<u8>>, o: Seq<RdtSection>, p: int, j: int)
    requires
        0 <= p <= j < o.len() - 1 + 1,
        j <= o.len() - 1,
        forall|k: int| 0 <= k < o.len() && k != p ==> #[trigger] d1[o[k].slot()].len() == d2[o[k].slot()].len(),
    ensures
        span(d2, o.remove(p), j) == span(d1, o, j + 1) - d1[o[p].slot()].len(),
    decreases j,
{
    let o2 = o.remove(p);
    o.remove_ensures(p);
    if j == p {
        lemma_span_same(d1, o, d2, o2, p);
    } else {
        lemma_span_removed(d1, d2, o, p, j - 1);
        assert(o2[j - 1] == o[j]);
    }
}

proof fn lemma_model_patch_len(r: RawRdt, pivot: u32, delta: int)
    requires
        r.model_data().len() >= 8 * r.o_model(),
    ensures
        patched_model(r.model_data(), r.o_model() as int, pivot, delta).len() == r.model_data().len(),
{
    let t = Seq::new(r.o_model() as nat, |k: int| shifted_entry(model_entry_at(r.model_data(), k), pivot, delta));
    crate::rdt::lemma_model_table_len(t);
}

proof fn lemma_layout_append(before: RawRdt, section: RdtSection, new: Seq<u8>, after: RawRdt)
    requires
        before.wf(),
        contiguous(before),
        new.len() > 0,
        !before.ord().contains(section),
        before.replace_error(section, new) is None,
        before.replaced(section, new, after),
    ensures
        contiguous(after),
{
    lemma_slots();
    let slot = section.slot();
    let ord = before.ord();
    let n = ord.len();
    let d1 = before.data();
    let d2 = after.data();
    let o2 = after.ord();
    assert(section_at(slot) == section);
    assert(o2 == ord.push(section));
    assert(after.offs() == before.offs().update(slot, (100 + span(d1, ord, n as int)) as u32));
    assert forall|k: int| 0 <= k < n implies #[trigger] d1[ord[k].slot()].len() == d2[o2[k].slot()].len() by {
        assert(o2[k] == ord[k]);
        assert(ord[k] != section);
        assert(section_at(ord[k].slot()) == ord[k]);
    }
    assert forall|j: int| 0 <= j < o2.len() implies #[trigger] after.offs()[o2[j].slot()] == 100 + span(d2, o2, j) by {
        lemma_span_same(d1, ord, d2, o2, j);
        if j < n {
            assert(o2[j] == ord[j]);
            assert(ord[j] != section);
            assert(section_at(ord[j].slot()) == ord[j]);
            assert(ord[j].slot() != slot);
            assert(after.offs()[ord[j].slot()] == before.offs()[ord[j].slot()]);
            assert(before.offs()[ord[j].slot()] == 100 + span(d1, ord, j));
        } else {
            assert(j == n);
            assert(o2[j] == section);
            assert(100 + span(d1, ord, n as int) <= u32::MAX);
            lemma_span_grows(d1, ord, 0, n as int);
            assert(after.offs()[slot] == 100 + span(d1, ord, n as int));
            assert(span(d2, o2, j) == span(d1, ord, n as int));
        }
    }
}

#[verifier::rlimit(40)]
proof fn lemma_layout_resize(before: RawRdt, section: RdtSection, new: Seq<u8>, after: RawRdt, p: int)
    requires
        before.wf(),
        contiguous(before),
        new.len() > 0,
        0 <= p < before.ord().len(),
        before.ord()[p] == section,
        before.replace_error(section, new) is None,
        before.replaced(section, new, after),
        forall|k: int| 0 <= k < before.ord().len() && k != p ==> #[trigger] before.data()[before.ord()[k].slot()].len()
            == after.data()[before.ord()[k].slot()].len(),
        after.data()[section.slot()] == new,
        before.data()[section.slot()].len() > 0 || p == before.ord().len() - 1,
    ensures
        contiguous(after),
{
    lemma_slots();
    let slot = section.slot();
    let ord = before.ord();
    let n = ord.len();
    let d1 = before.data();
    let d2 = after.data();
    let offs = before.offs();
    let delta = new.len() - d1[slot].len();
    let pivot = offs[slot];
    assert(after.ord() == ord);
    assert(pivot == 100 + span(d1, ord, p));
    assert forall|j: int| 0 <= j < n implies #[trigger] after.offs()[ord[j].slot()] == 100 + span(d2, ord, j) by {
        let t = ord[j];
        assert(offs[t.slot()] == 100 + span(d1, ord, j));
        if delta != 0 {
            assert(!before.header_overflows(slot, false, delta));
            assert(before.cleared_offsets(slot, false)[t.slot()] == offs[t.slot()]);
            assert(crate::rdt::fits_u32(shift_word(before.cleared_offsets(slot, false)[t.slot()], pivot, delta)));
        }
        if j <= p {
            lemma_span_grows(d1, ord, j, p);
            lemma_span_same(d1, ord, d2, ord, j);
        } else {
            lemma_span_changed(d1, d2, ord, p, delta, j);
            lemma_span_grows(d1, ord, p + 1, j);
        }
    }
}

#[verifier::rlimit(40)]
proof fn lemma_layout_remove(before: RawRdt, section: RdtSection, after: RawRdt, p: int)
    requires
        before.wf(),
        contiguous(before),
        0 <= p < before.ord().len(),
        before.ord()[p] == section,
        before.ord().index_of(section) == p,
        before.replace_error(section, Seq::empty()) is None,
        before.replaced(section, Seq::empty(), after),
        forall|k: int| 0 <= k < before.ord().len() && k != p ==> #[trigger] before.data()[before.ord()[k].slot()].len()
            == after.data()[before.ord()[k].slot()].len(),
    ensures
        contiguous(after),
{
    lemma_slots();
    let slot = section.slot();
    let ord = before.ord();
    let d1 = before.data();
    let d2 = after.data();
    let offs = before.offs();
    let delta = 0 - d1[slot].len();
    let pivot = offs[slot];
    let o2 = ord.remove(p);
    ord.remove_ensures(p);
    assert(after.ord() == o2);
    assert(pivot == 100 + span(d1, ord, p));
    assert forall|j: int| 0 <= j < o2.len() implies #[trigger] after.offs()[o2[j].slot()] == 100 + span(d2, o2, j) by {
        if j < p {
            let t = ord[j];
            assert(o2[j] == t);
            assert(offs[t.slot()] == 100 + span(d1, ord, j));
            if delta != 0 {
                assert(!before.header_overflows(slot, true, delta));
                assert(before.cleared_offsets(slot, true)[t.slot()] == offs[t.slot()]);
                assert(crate::rdt::fits_u32(shift_word(before.cleared_offsets(slot, true)[t.slot()], pivot, delta)));
            }
            lemma_span_grows(d1, ord, j, p);
            lemma_span_same(d1, ord, d2, o2, j);
            assert(t.slot() != slot) by {
                assert(ord.no_duplicates());
                assert(section_at(t.slot()) == t);
            }
        } else {
            let t = ord[j + 1];
            assert(o2[j] == t);
            assert(offs[t.slot()] == 100 + span(d1, ord, j + 1));
            lemma_span_removed(d1, d2, ord, p, j);
            lemma_span_grows(d1, ord, p + 1, j + 1);
            assert(t.slot() != slot) by {
                assert(ord.no_duplicates());
                assert(section_at(t.slot()) == t);
            }
            if delta != 0 {
                assert(!before.header_overflows(slot, true, delta));
                assert(before.cleared_offsets(slot, true)[t.slot()] == offs[t.slot()]);
                assert(crate::rdt::fits_u32(shift_word(before.cleared_offsets(slot, true)[t.slot()], pivot, delta)));
            }
        }
    }
}

/// Replacing a section keeps the sections contiguous, so every header offset stays the
/// position at which its section is written. The one exception: giving bytes to a
/// present but empty section that is not last on disk, since the sections after it
/// share its offset and so do not move.
#[verifier::rlimit(40)]
pub proof fn lemma_replace_keeps_layout(before: RawRdt, section: RdtSection, new: Seq<u8>, after: RawRdt)
    requires
        before.wf(),
        new.len() <= u32::MAX,
        contiguous(before),
        before.replace_error(section, new) is None,
        before.replaced(section, new, after),
        !(before.ord().contains(section) && before.data()[section.slot()].len() == 0 && new.len()
            > 0 && before.ord().index_of(section) < before.ord().len() - 1),
    ensures
        contiguous(after),
        after.ord().len() > 0 ==> after.offs()[after.ord()[0].slot()] == 100,
        placed(after.offs(), after.data(), after.ord()),
{
    lemma_slots();
    let slot = section.slot();
    let ord = before.ord();
    let n = ord.len();
    let d1 = before.data();
    let d2 = after.data();
    let delta = new.len() - d1[slot].len();
    let pivot = before.offs()[slot];
    assert(section_at(slot) == section);
    if new.len() > 0 && !ord.contains(section) {
        lemma_layout_append(before, section, new, after);
    } else {
        if delta != 0 && slot != 10 {
            lemma_model_patch_len(before, pivot, delta);
        }
        assert forall|t: RdtSection| t != section implies #[trigger] d2[t.slot()].len() == d1[t.slot()].len() by {
            assert(section_at(t.slot()) == t);
        }
        if ord.contains(section) {
            let p = ord.index_of(section);
            assert(ord[p] == section);
            assert forall|k: int| 0 <= k < n && k != p implies #[trigger] d1[ord[k].slot()].len() == d2[ord[k].slot()].len() by {
                assert(ord.no_duplicates());
                assert(ord[k] != section);
            }
            if new.len() > 0 {
                lemma_layout_resize(before, section, new, after, p);
            } else {
                assert(new =~= Seq::<u8>::empty());
                lemma_layout_remove(before, section, after, p);
            }
        } else {
            assert(d1[slot].len() == 0);
            assert(after.ord() == ord);
            assert forall|k: int| 0 <= k < n implies #[trigger] d1[ord[k].slot()].len() == d2[ord[k].slot()].len() by {
                assert(ord[k] != section);
            }
            assert forall|j: int| 0 <= j < n implies #[trigger] after.offs()[after.ord()[j].slot()] == 100 + span(d2, after.ord(), j) by {
                lemma_span_same(d1, ord, d2, ord, j);
                assert(ord[j] != section);
                assert(before.offs()[ord[j].slot()] == 100 + span(d1, ord, j));
            }
        }
    }
    if after.ord().len() > 0 {
        assert(after.offs()[after.ord()[0].slot()] == 100 + span(d2, after.ord(), 0));
    }
    lemma_contiguous_is_placed(after);
}

/// Contiguous sections are placed: writing the file succeeds and puts every section at
/// its header offset.
pub proof fn lemma_contiguous_is_placed(r: RawRdt)
    requires
        contiguous(r),
    ensures
        placed(r.offs(), r.data(), r.ord()),
{
    if r.ord().len() > 0 {
        assert(r.offs()[r.ord()[0].slot()] == 100 + span(r.data(), r.ord(), 0));
    }
}

} // verus!
