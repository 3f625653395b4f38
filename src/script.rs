//! Splitting a script section into functions of opcode-tagged instructions.
//!
//! A script section starts with a table of 16-bit little-endian function offsets; the
//! first offset is also the size of the table, so it gives the number of functions.
//! Each instruction is an opcode byte followed by a payload whose size the opcode fixes.
use vstd::prelude::*;

use crate::bytes::{copy_range, le16_at, read_u16_le};

verus! {

pub open spec fn payload_size_part0(op: u8) -> nat {
    match op {
        0 => 0,
        1 => 1,
        2 => 0,
        3 => 1,
        4 => 3,
        5 => 1,
        6 => 3,
        7 => 3,
        8 => 1,
        9 => 0,
        10 => 2,
        11 => 0,
        12 => 0,
        13 => 5,
        14 => 1,
        15 => 3,
        16 => 1,
        17 => 3,
        18 => 1,
        19 => 3,
        20 => 5,
        21 => 1,
        22 => 1,
        23 => 5,
        24 => 1,
        25 => 1,
        26 => 1,
        27 => 6,
        28 => 0,
        29 => 3,
        30 => 0,
        31 => 0,
        32 => 0,
        33 => 3,
        34 => 3,
        35 => 5,
        36 => 3,
        37 => 2,
        38 => 5,
        39 => 3,
        40 => 0,
        41 => 1,
        42 => 0,
        43 => 5,
        44 => 19,
        45 => 37,
        46 => 2,
        47 => 3,
        48 => 0,
        49 => 0,
        50 => 7,
        51 => 7,
        52 => 3,
        53 => 2,
        54 => 11,
        55 => 3,
        56 => 2,
        57 => 7,
        58 => 15,
        59 => 31,
        60 => 1,
        61 => 2,
        62 => 5,
        _ => 3,
    }
}

pub open spec fn payload_size_part1(op: u8) -> nat {
    match op {
        64 => 7,
        65 => 9,
        66 => 0,
        67 => 3,
        68 => 21,
        69 => 4,
        70 => 9,
        71 => 1,
        72 => 15,
        73 => 7,
        74 => 1,
        75 => 2,
        76 => 4,
        77 => 21,
        78 => 21,
        79 => 3,
        80 => 3,
        81 => 5,
        82 => 5,
        83 => 5,
        84 => 21,
        85 => 5,
        86 => 3,
        87 => 7,
        88 => 3,
        89 => 3,
        90 => 1,
        91 => 1,
        92 => 2,
        93 => 1,
        94 => 1,
        95 => 1,
        96 => 13,
        97 => 3,
        98 => 1,
        99 => 0,
        100 => 15,
        101 => 1,
        102 => 0,
        103 => 27,
        104 => 39,
        105 => 29,
        106 => 5,
        107 => 3,
        108 => 0,
        109 => 3,
        110 => 5,
        111 => 1,
        112 => 0,
        113 => 0,
        114 => 15,
        115 => 7,
        116 => 3,
        117 => 21,
        118 => 2,
        119 => 3,
        120 => 5,
        121 => 0,
        122 => 15,
        123 => 15,
        124 => 5,
        125 => 5,
        126 => 5,
        _ => 5,
    }
}

pub open spec fn payload_size_part2(op: u8) -> nat {
    match op {
        128 => 1,
        129 => 2,
        130 => 2,
        131 => 0,
        132 => 1,
        133 => 5,
        134 => 0,
        135 => 0,
        136 => 2,
        137 => 0,
        138 => 5,
        139 => 5,
        140 => 7,
        141 => 23,
        _ => 23,
    }
}

/// The payload size of each opcode; `None` for bytes that are no opcode.
pub open spec fn payload_size(op: u8) -> Option<nat> {
    if op < 64 {
        Some(payload_size_part0(op))
    } else if op < 128 {
        Some(payload_size_part1(op))
    } else if op < 143 {
        Some(payload_size_part2(op))
    } else {
        None
    }
}

fn payload_len_part0(op: u8) -> (r: usize)
    requires
        0 <= op < 64,
    ensures
        r == payload_size_part0(op),
        r <= 64,
{
    match op {
        0 => 0,
        1 => 1,
        2 => 0,
        3 => 1,
        4 => 3,
        5 => 1,
        6 => 3,
        7 => 3,
        8 => 1,
        9 => 0,
        10 => 2,
        11 => 0,
        12 => 0,
        13 => 5,
        14 => 1,
        15 => 3,
        16 => 1,
        17 => 3,
        18 => 1,
        19 => 3,
        20 => 5,
        21 => 1,
        22 => 1,
        23 => 5,
        24 => 1,
        25 => 1,
        26 => 1,
        27 => 6,
        28 => 0,
        29 => 3,
        30 => 0,
        31 => 0,
        32 => 0,
        33 => 3,
        34 => 3,
        35 => 5,
        36 => 3,
        37 => 2,
        38 => 5,
        39 => 3,
        40 => 0,
        41 => 1,
        42 => 0,
        43 => 5,
        44 => 19,
        45 => 37,
        46 => 2,
        47 => 3,
        48 => 0,
        49 => 0,
        50 => 7,
        51 => 7,
        52 => 3,
        53 => 2,
        54 => 11,
        55 => 3,
        56 => 2,
        57 => 7,
        58 => 15,
        59 => 31,
        60 => 1,
        61 => 2,
        62 => 5,
        _ => 3,
    }
}

fn payload_len_part1(op: u8) -> (r: usize)
    requires
        64 <= op < 128,
    ensures
        r == payload_size_part1(op),
        r <= 64,
{
    match op {
        64 => 7,
        65 => 9,
        66 => 0,
        67 => 3,
        68 => 21,
        69 => 4,
        70 => 9,
        71 => 1,
        72 => 15,
        73 => 7,
        74 => 1,
        75 => 2,
        76 => 4,
        77 => 21,
        78 => 21,
        79 => 3,
        80 => 3,
        81 => 5,
        82 => 5,
        83 => 5,
        84 => 21,
        85 => 5,
        86 => 3,
        87 => 7,
        88 => 3,
        89 => 3,
        90 => 1,
        91 => 1,
        92 => 2,
        93 => 1,
        94 => 1,
        95 => 1,
        96 => 13,
        97 => 3,
        98 => 1,
        99 => 0,
        100 => 15,
        101 => 1,
        102 => 0,
        103 => 27,
        104 => 39,
        105 => 29,
        106 => 5,
        107 => 3,
        108 => 0,
        109 => 3,
        110 => 5,
        111 => 1,
        112 => 0,
        113 => 0,
        114 => 15,
        115 => 7,
        116 => 3,
        117 => 21,
        118 => 2,
        119 => 3,
        120 => 5,
        121 => 0,
        122 => 15,
        123 => 15,
        124 => 5,
        125 => 5,
        126 => 5,
        _ => 5,
    }
}

fn payload_len_part2(op: u8) -> (r: usize)
    requires
        128 <= op < 143,
    ensures
        r == payload_size_part2(op),
        r <= 64,
{
    match op {
        128 => 1,
        129 => 2,
        130 => 2,
        131 => 0,
        132 => 1,
        133 => 5,
        134 => 0,
        135 => 0,
        136 => 2,
        137 => 0,
        138 => 5,
        139 => 5,
        140 => 7,
        141 => 23,
        _ => 23,
    }
}

/// The payload size of an opcode, or `None` for a byte that is no opcode.
pub fn payload_len(op: u8) -> (r: Option<usize>)
    ensures
        r matches Some(n) ==> payload_size(op) == Some(n as nat) && n <= 64,
        r is None <==> payload_size(op) is None,
{
    if op < 64 {
        Some(payload_len_part0(op))
    } else if op < 128 {
        Some(payload_len_part1(op))
    } else if op < 143 {
        Some(payload_len_part2(op))
    } else {
        None
    }
}

/// Opcodes that open a block: if, for, while, do, switch and the second form of for.
pub open spec fn opens_block(op: u8) -> bool {
    op == 0x06 || op == 0x0d || op == 0x0f || op == 0x11 || op == 0x13 || op == 0x1b
}

/// Opcodes that close a block: end-if, next, end-while, end-do-while and end-switch.
pub open spec fn closes_block(op: u8) -> bool {
    op == 0x08 || op == 0x0e || op == 0x10 || op == 0x12 || op == 0x16
}

/// The opcode that ends a function.
pub const EVT_END: u8 = 0x01;

/// One decoded instruction: its opcode and the payload bytes that follow it.
#[derive(Debug, Clone)]
pub struct Instruction {
    pub opcode: u8,
    pub payload: Vec<u8>,
}

impl Instruction {
    pub open spec fn view_pair(&self) -> (u8, Seq<u8>) {
        (self.opcode, self.payload@)
    }

    pub fn increases_nesting(&self) -> (r: bool)
        ensures
            r == opens_block(self.opcode),
    {
        let op = self.opcode;
        op == 0x06 || op == 0x0d || op == 0x0f || op == 0x11 || op == 0x13 || op == 0x1b
    }

    pub fn decreases_nesting(&self) -> (r: bool)
        ensures
            r == closes_block(self.opcode),
    {
        let op = self.opcode;
        op == 0x08 || op == 0x0e || op == 0x10 || op == 0x12 || op == 0x16
    }

    pub fn opcode(&self) -> (r: u8)
        ensures
            r == self.opcode,
    {
        self.opcode
    }

    /// The encoded size: the opcode byte and the payload.
    pub fn size(&self) -> (r: usize)
        requires
            self.payload@.len() < usize::MAX,
        ensures
            r == 1 + self.payload@.len(),
    {
        1 + self.payload.len()
    }

    /// Decodes the instruction at `at`: `None` when the byte there is no opcode or the
    /// payload runs past the end.
    pub fn decode(b: &[u8], at: usize) -> (r: Option<Instruction>)
        ensures
            r matches Some(i) ==> decoded_at(b@, at as int) == Some(i.view_pair()),
            r is None <==> decoded_at(b@, at as int) is None,
    {
        if at >= b.len() {
            return None;
        }
        let op = b[at];
        match payload_len(op) {
            None => None,
            Some(n) => {
                if b.len() - at - 1 < n {
                    return None;
                }
                let payload = copy_range(b, at + 1, at + 1 + n);
                Some(Instruction { opcode: op, payload })
            },
        }
    }
}

/// The instruction at `pos`, if the byte there is an opcode whose payload fits.
pub open spec fn decoded_at(b: Seq<u8>, pos: int) -> Option<(u8, Seq<u8>)> {
    if 0 <= pos < b.len() {
        match payload_size(b[pos]) {
            Some(n) => if pos + 1 + n <= b.len() {
                Some((b[pos], b.subrange(pos + 1, pos + 1 + n)))
            } else {
                None
            },
            None => None,
        }
    } else {
        None
    }
}

/// The block depth after an instruction; closing at depth zero stays at zero.
pub open spec fn nesting_after(n: nat, op: u8) -> nat {
    if opens_block(op) {
        n + 1
    } else if closes_block(op) {
        if n > 0 {
            (n - 1) as nat
        } else {
            0
        }
    } else {
        n
    }
}

/// The instructions of a function from `pos` up to `end`, at block depth `nesting`, and
/// whether decoding stopped on bytes that are no instruction. Decoding also stops after
/// an end-of-function instruction that leaves the depth at zero.
pub open spec fn function_from(b: Seq<u8>, pos: int, end: int, nesting: nat) -> (Seq<(u8, Seq<u8>)>, bool)
    decreases b.len() - pos,
{
    if pos >= end {
        (Seq::empty(), false)
    } else {
        match decoded_at(b, pos) {
            None => (Seq::empty(), true),
            Some(inst) => {
                let n2 = nesting_after(nesting, inst.0);
                if inst.0 == EVT_END && n2 == 0 {
                    (seq![inst], false)
                } else if pos + 1 + inst.1.len() <= b.len() {
                    let rest = function_from(b, pos + 1 + inst.1.len(), end, n2);
                    (seq![inst] + rest.0, rest.1)
                } else {
                    (seq![inst], false)
                }
            },
        }
    }
}

/// A decoded function: complete, or cut short by bytes that are no instruction.
#[derive(Debug, Clone)]
pub enum DecodedFunction {
    Complete(Vec<Instruction>),
    Truncated(Vec<Instruction>),
}

pub open spec fn pairs_of(insts: Seq<Instruction>) -> Seq<(u8, Seq<u8>)> {
    insts.map_values(|i: Instruction| i.view_pair())
}

impl DecodedFunction {
    /// The instructions and whether the function was cut short.
    pub open spec fn view_pair(&self) -> (Seq<(u8, Seq<u8>)>, bool) {
        match self {
            DecodedFunction::Complete(v) => (pairs_of(v@), false),
            DecodedFunction::Truncated(v) => (pairs_of(v@), true),
        }
    }

    pub fn instructions(&self) -> (r: &Vec<Instruction>)
        ensures
            pairs_of(r@) == self.view_pair().0,
    {
        match self {
            DecodedFunction::Complete(v) => v,
            DecodedFunction::Truncated(v) => v,
        }
    }

    pub fn is_truncated(&self) -> (r: bool)
        ensures
            r == self.view_pair().1,
    {
        match self {
            DecodedFunction::Complete(_) => false,
            DecodedFunction::Truncated(_) => true,
        }
    }
}

/// Decodes the function that starts at `start` and ends before `end`. An instruction
/// that starts before `end` may run past it.
pub fn read_function(b: &[u8], start: usize, end: usize) -> (r: DecodedFunction)
    ensures
        r.view_pair() == function_from(b@, start as int, end as int, 0),
{
    let mut insts: Vec<Instruction> = Vec::new();
    let mut pos: usize = start;
    let mut nesting: usize = 0;
    while pos < end
        invariant
            nesting <= pos,
            function_from(b@, start as int, end as int, 0) == (pairs_of(insts@) + function_from(
                b@,
                pos as int,
                end as int,
                nesting as nat,
            ).0, function_from(b@, pos as int, end as int, nesting as nat).1),
        decreases b@.len() - pos,
    {
        let ghost before = insts@;
        match Instruction::decode(b, pos) {
            None => {
                assert(pairs_of(insts@) + Seq::<(u8, Seq<u8>)>::empty() =~= pairs_of(insts@));
                return DecodedFunction::Truncated(insts);
            },
            Some(inst) => {
                let op = inst.opcode;
                let len = inst.payload.len();
                if inst.increases_nesting() {
                    nesting = nesting + 1;
                } else if inst.decreases_nesting() {
                    if nesting > 0 {
                        nesting = nesting - 1;
                    }
                }
                let ghost pair = inst.view_pair();
                assert(decoded_at(b@, pos as int) == Some(pair));
                let blen: usize = b.len();
                assert(pos + 1 + len <= blen);
                insts.push(inst);
                proof {
                    assert(pairs_of(insts@) =~= pairs_of(before).push(pair));
                }
                if op == EVT_END && nesting == 0 {
                    proof {
                        assert(pairs_of(insts@) =~= pairs_of(before) + seq![pair]);
                    }
                    return DecodedFunction::Complete(insts);
                }
                proof {
                    assert(pairs_of(before) + (seq![pair] + function_from(b@, pos + 1 + len, end as int, nesting as nat).0)
                        =~= pairs_of(insts@) + function_from(b@, pos + 1 + len, end as int, nesting as nat).0);
                }
                pos = pos + 1 + len;
            },
        }
    }
    assert(pairs_of(insts@) + Seq::<(u8, Seq<u8>)>::empty() =~= pairs_of(insts@));
    DecodedFunction::Complete(insts)
}

/// Why a script section could not be split.
#[derive(Debug, Clone, Copy, PartialEq, Eq, Structural)]
pub enum ScriptError {
    /// The function table runs past the end of the section.
    TruncatedTable,
}

/// Entry `k` of the function table of `n` functions; entry `n` is the section's end.
pub open spec fn table_entry(b: Seq<u8>, k: int, n: int) -> int {
    if k < n {
        le16_at(b, 2 * k)
    } else {
        b.len() as int
    }
}

/// The number of functions that a script section's table announces.
pub open spec fn function_count(b: Seq<u8>) -> int {
    le16_at(b, 0) / 2
}

/// A nonempty script section whose table runs past its end.
pub open spec fn script_refused(b: Seq<u8>) -> bool {
    b.len() > 0 && (b.len() < 2 || 2 * function_count(b) > b.len())
}

/// `fs` are the functions of script bytes `b`; none when the section is absent or empty.
pub open spec fn script_read_from(fs: Seq<DecodedFunction>, b: Seq<u8>, present: bool) -> bool {
    if !present || b.len() == 0 {
        fs.len() == 0
    } else {
        let n = function_count(b);
        &&& fs.len() == n
        &&& forall|k: int|
            0 <= k < n ==> (#[trigger] fs[k]).view_pair() == function_from(
                b,
                table_entry(b, k, n),
                table_entry(b, k + 1, n),
                0,
            )
    }
}

/// Splits a script section into its functions. An empty section, or a table whose first
/// offset is below two, holds no function; a table that runs past the end is refused.
pub fn read_script(b: &[u8]) -> (r: Result<Vec<DecodedFunction>, ScriptError>)
    ensures
        r is Err <==> script_refused(b@),
        r is Err ==> r == Err::<Vec<DecodedFunction>, ScriptError>(ScriptError::TruncatedTable),
        r matches Ok(fs) ==> script_read_from(fs@, b@, true),
        b@.len() >= 2 && le16_at(b@, 0) < 2 ==> (r matches Ok(fs) && fs@.len() == 0),
{
    let mut fs: Vec<DecodedFunction> = Vec::new();
    if b.len() == 0 {
        return Ok(fs);
    }
    let first = match read_u16_le(b, 0) {
        Some(v) => v,
        None => {
            return Err(ScriptError::TruncatedTable);
        },
    };
    let n: usize = (first / 2) as usize;
    if n > b.len() / 2 {
        return Err(ScriptError::TruncatedTable);
    }
    let mut offsets: Vec<usize> = Vec::new();
    let mut k: usize = 0;
    while k < n
        invariant
            n == function_count(b@),
            2 * n <= b@.len(),
            k <= n,
            offsets@.len() == k,
            forall|q: int| 0 <= q < k ==> #[trigger] offsets@[q] == table_entry(b@, q, n as int),
        decreases n - k,
    {
        let v = read_u16_le(b, 2 * k).unwrap();
        offsets.push(v as usize);
        k = k + 1;
    }
    offsets.push(b.len());
    let mut j: usize = 0;
    while j < n
        invariant
            n == function_count(b@),
            offsets@.len() == n + 1,
            forall|q: int| 0 <= q <= n ==> #[trigger] offsets@[q] == table_entry(b@, q, n as int),
            j <= n,
            fs@.len() == j,
            forall|q: int|
                0 <= q < j ==> (#[trigger] fs@[q]).view_pair() == function_from(
                    b@,
                    table_entry(b@, q, n as int),
                    table_entry(b@, q + 1, n as int),
                    0,
                ),
        decreases n - j,
    {
        let f = read_function(b, offsets[j], offsets[j + 1]);
        fs.push(f);
        j = j + 1;
    }
    Ok(fs)
}

} // verus!
