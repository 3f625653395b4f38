//! Fixed-point arithmetic and room-file codecs for a fixed-point 3D game engine.
//!
//! - `fixed` and `tables`: 16- and 32-bit fixed-point numbers with 12 fractional bits,
//!   with wrapping arithmetic and table-driven square root, sine and cosine.
//! - `rdt`: the room container, its section directory, and replacing sections while
//!   keeping every offset in step; `laws` states what reading, changing and writing
//!   preserve.
//! - `room` and `script`: collision, floor and script sections decoded from a container.
//! - `animation`, `weapon`, `ids` and `common`: smaller records and identifiers.
mod animation;
mod bytes;
mod common;
mod fixed;
mod ids;
mod laws;
mod motion;
mod rdt;
mod room;
mod script;
mod tables;
mod weapon;

pub use bytes::{
    append_bytes, copy_range, le16_at, le32_at, le32_bytes, lemma_le32_bytes_of_read, push_u32_le,
    read_u16_le, read_u32_le,
};
pub use common::{Ptr32, CVECTOR, MATRIX, SSVECTOR, SVECTOR, VECTOR};
pub use fixed::{
    abs_int, bit_len, even_leading_zeros, heading, length_of, root_index, rotated, sqrt,
    table_sin, table_sqrt, trunc_div, wrapping_abs_i16, wrapping_abs_i32, Fixed16, Fixed32,
    UFixed16, Vec2,
};
pub use rdt::{
    complete, counts_bytes, end_of, file_bytes, fits_u32, header_bytes, header_read_from,
    is_present, joined, key, lemma_header_round_trip, lemma_slots, model_entry_at,
    model_section_bytes, model_table_bytes, overruns, parsed_from, patched_model, piece, placed,
    section_at, shift_model_word, shift_word, shifted_entry, sorted_by_key, span, words_bytes,
    ModelOffsets, RawRdt, RdtError, RdtHeader, RdtSection, HEADER_SIZE, NUM_SECTIONS,
};
pub use room::{
    collider_at, collision_error, collision_read_from, floor_at, floors_fit, floors_read_from,
    i16_at, Collider, Collision, DecodeError, Floor, Rdt, RoomError, CELL_SIZE, COLLIDER_SIZE,
    FLOOR_SIZE,
};
pub use script::{
    closes_block, decoded_at, function_count, function_from, nesting_after, opens_block,
    pairs_of, payload_len, payload_size, read_function, read_script, script_read_from,
    script_refused, table_entry, DecodedFunction, Instruction, ScriptError, EVT_END,
};
pub use tables::{root_entry, root_lookup, sine_entry, sine_lookup};
pub use weapon::{AimZone, HitBounds, WeaponRange};
pub use laws::{
    contiguous, lemma_contiguous_is_placed, lemma_read_write_round_trip, lemma_replace_keeps_layout,
};
pub use ids::{CharacterId, Item, SceType};
pub use animation::{frame_of, widened, AnimationFrame, AnimationSet, FrameFlags, FrameMotionData};
pub use motion::{
    animation_frame_at, flags_need, frames_fit, has_motion, lemma_indices_within_need,
    motion_offset, motion_read, motion_size, parts_fit, read_frames, read_steps, record_at,
    room_set_fits, room_sets_fit, room_sets_read, set_count, set_dir, set_frames, set_read,
    set_steps, step_count, step_data, step_flag, step_flags, step_frames, steps_fit, steps_need,
    svector_at, AnimationError,
};
