use re2::{AnimationError, AnimationSet, Fixed32, FrameFlags, RawRdt, Rdt, RdtSection, HEADER_SIZE};

fn u16s(v: &[u16]) -> Vec<u8> {
    v.iter().flat_map(|x| x.to_le_bytes()).collect()
}

fn u32s(v: &[u32]) -> Vec<u8> {
    v.iter().flat_map(|x| x.to_le_bytes()).collect()
}

/// A step table with one animation of two frames (indices 1 and 0) at `at`, followed by
/// a frames header and two motion records.
fn steps_and_frames(at: u32) -> (Vec<u8>, u32) {
    let mut b = u16s(&[2, 4]);
    b.extend(u32s(&[0x1001, 0]));
    let frames_at = at + b.len() as u32;
    b.extend(u16s(&[0, 8, 0, 12]));
    b.extend(u16s(&[1, 2, 3, 4, 5, 6]));
    b.extend(u16s(&[0, 0, 0, 7, 8, 9]));
    (b, frames_at)
}

#[test]
fn model_file_animation_joins_flags_and_speed() {
    let (body, frames_at) = steps_and_frames(16);
    let mut b = u32s(&[8, 2, 16, frames_at]);
    b.extend(body);
    let set = AnimationSet::read_plw(&b).unwrap();
    assert_eq!(set.character_mask(), 0xffff_ffff);
    let anims = set.animations();
    assert_eq!(anims.len(), 1);
    assert_eq!(anims[0].len(), 2);
    assert_eq!(anims[0][0].index(), 1);
    assert_eq!(anims[0][0].flags(), 0x1000);
    assert_eq!(anims[0][0].speed().x, Fixed32(7));
    assert_eq!(anims[0][0].speed().z, Fixed32(9));
    assert_eq!(anims[0][1].speed().y, Fixed32(5));
}

#[test]
fn model_file_needs_two_sections() {
    let b = u32s(&[8, 1, 0, 0]);
    assert_eq!(AnimationSet::read_plw(&b).unwrap_err(), AnimationError::TooFewSections);
    assert_eq!(AnimationSet::read_plw(&[0u8; 4]).unwrap_err(), AnimationError::Truncated);
}

#[test]
fn model_file_without_motion_has_no_animations() {
    let mut b = u32s(&[8, 2, 16, 24]);
    b.extend(u16s(&[0, 4]));
    b.extend(u16s(&[0, 0, 0, 0]));
    b.extend(u16s(&[0, 0, 0, 12]));
    let set = AnimationSet::read_plw(&b).unwrap();
    assert_eq!(set.animations().len(), 0);
}

#[test]
fn room_animation_sets_carry_their_masks() {
    // directory at 8 with one (frames, steps) entry; mask at 16, steps after the frames
    let (body, _) = steps_and_frames(0);
    let steps_at = 16 + 4 + 8 + 24;
    let mut b = u32s(&[8, 1, 16, steps_at]);
    b.extend(u32s(&[0x5]));
    // frames header and records as in `steps_and_frames`, then the steps
    b.extend(&body[12..]);
    b.extend(&body[..12]);
    let sets = AnimationSet::read_rdt(&b).unwrap();
    assert_eq!(sets.len(), 1);
    assert_eq!(sets[0].character_mask(), 5);
    assert_eq!(sets[0].animations()[0][0].speed().x, Fixed32(7));

    let mut file = vec![0u8; HEADER_SIZE];
    file[8 + 4 * RdtSection::Animation.index()..][..4].copy_from_slice(&(HEADER_SIZE as u32).to_le_bytes());
    file.extend(&b);
    let raw = RawRdt::read(&file).unwrap();
    assert_eq!(raw.section(RdtSection::Animation), &b);
    let room = Rdt::read(&file).unwrap();
    assert_eq!(room.animation_sets().len(), 1);
}

#[test]
fn truncated_step_table_is_refused() {
    let b = u32s(&[8, 1, 16, 1000]);
    assert_eq!(AnimationSet::read_rdt(&b).unwrap_err(), AnimationError::Truncated);
}

#[test]
fn frame_flags_fields() {
    let f = FrameFlags(0xffff_ffff);
    assert_eq!(f.index(), 0xfff);
    assert_eq!(f.flags(), 0xffff_f000);
}
