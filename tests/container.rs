use re2::{
    read_script, Collision, DecodeError, Floor, ModelOffsets, RawRdt, Rdt, RdtError, RdtSection,
    RoomError, ScriptError, HEADER_SIZE,
};

fn header(counts: [u8; 8], offsets: &[(RdtSection, u32)]) -> Vec<u8> {
    let mut b = counts.to_vec();
    let mut slots = [0u32; 23];
    for (s, o) in offsets {
        slots[s.index()] = *o;
    }
    for o in slots.iter() {
        b.extend_from_slice(&o.to_le_bytes());
    }
    b
}

/// A file with a model section holding one table entry, then a collision section and a
/// script section.
fn sample() -> Vec<u8> {
    let model_at = 100u32;
    let model: Vec<u8> = [150u32.to_le_bytes(), 90u32.to_le_bytes()].concat();
    let model = [model, vec![0xaa, 0xbb]].concat();
    let collision_at = model_at + model.len() as u32;
    let mut collision = Vec::new();
    collision.extend_from_slice(&5i16.to_le_bytes());
    collision.extend_from_slice(&(-7i16).to_le_bytes());
    collision.extend_from_slice(&2u32.to_le_bytes());
    collision.extend_from_slice(&(-100i32).to_le_bytes());
    collision.extend_from_slice(&0u32.to_le_bytes());
    collision.extend_from_slice(&[1, 0, 2, 0, 3, 0, 4, 0, 0x34, 0x12, 0, 0, 9, 0, 0, 0]);
    let script_at = collision_at + collision.len() as u32;
    let script = vec![2, 0, 0x09, 0x01, 0x00];
    let mut b = header(
        [0, 0, 1, 0, 0, 0, 0, 0],
        &[
            (RdtSection::Model, model_at),
            (RdtSection::Collision, collision_at),
            (RdtSection::InitScript, script_at),
        ],
    );
    b.extend_from_slice(&model);
    b.extend_from_slice(&collision);
    b.extend_from_slice(&script);
    b
}

#[test]
fn minimal_container_round_trips() {
    let data = vec![1u8, 2, 3, 4, 5];
    let mut b = header([0; 8], &[(RdtSection::Floor, HEADER_SIZE as u32)]);
    b.extend_from_slice(&data);
    let rdt = RawRdt::read(&b).unwrap();
    assert_eq!(rdt.section_order().len(), 1);
    assert_eq!(rdt.section_order()[0], RdtSection::Floor);
    assert_eq!(rdt.header().offset(RdtSection::Floor), HEADER_SIZE as u32);
    assert_eq!(rdt.section(RdtSection::Floor), &data);
    assert_eq!(rdt.write().unwrap(), b);
}

#[test]
fn sample_round_trips() {
    let b = sample();
    let rdt = RawRdt::read(&b).unwrap();
    assert_eq!(
        rdt.section_order(),
        &vec![RdtSection::Model, RdtSection::Collision, RdtSection::InitScript]
    );
    assert_eq!(rdt.write().unwrap(), b);
}

#[test]
fn sections_are_ordered_by_offset() {
    let mut b = header(
        [0; 8],
        &[(RdtSection::Animation, 100), (RdtSection::SoundAttributes, 103)],
    );
    b.extend_from_slice(&[1, 2, 3, 4, 5, 6]);
    let rdt = RawRdt::read(&b).unwrap();
    assert_eq!(
        rdt.section_order(),
        &vec![RdtSection::Animation, RdtSection::SoundAttributes]
    );
    assert_eq!(rdt.section(RdtSection::Animation), &vec![1, 2, 3]);
    assert_eq!(rdt.section(RdtSection::SoundAttributes), &vec![4, 5, 6]);
    assert_eq!(rdt.size(), 106);
}

#[test]
fn short_file_is_refused() {
    assert_eq!(RawRdt::read(&[0u8; 99]).unwrap_err(), RdtError::TruncatedHeader);
}

#[test]
fn section_beyond_the_end_is_refused() {
    let mut b = header([0; 8], &[(RdtSection::Ota, 100), (RdtSection::Light, 500)]);
    b.extend_from_slice(&[1, 2]);
    assert_eq!(RawRdt::read(&b).unwrap_err(), RdtError::SectionOutOfBounds);
}

#[test]
fn only_section_beyond_the_end_is_empty() {
    let mut b = header([0; 8], &[(RdtSection::Light, 200)]);
    b.extend_from_slice(&[9u8; 50]);
    let rdt = RawRdt::read(&b).unwrap();
    assert_eq!(rdt.section(RdtSection::Light).len(), 0);
    let out = rdt.write().unwrap();
    assert_eq!(out.len(), 200);
    assert_eq!(&out[100..], &[0u8; 100][..]);
}

#[test]
fn section_ending_at_the_end_of_file_is_empty() {
    let mut b = header([0; 8], &[(RdtSection::Ota, 100), (RdtSection::Light, 500)]);
    b.extend_from_slice(&[0u8; 400]);
    let rdt = RawRdt::read(&b).unwrap();
    assert_eq!(rdt.section(RdtSection::Ota).len(), 400);
    assert_eq!(rdt.section(RdtSection::Light).len(), 0);
    assert_eq!(rdt.write().unwrap(), b);
}

#[test]
fn section_inside_the_header_cannot_be_written() {
    let mut b = header([0; 8], &[(RdtSection::Ota, 50)]);
    b.extend_from_slice(&[1, 2]);
    let rdt = RawRdt::read(&b).unwrap();
    assert_eq!(rdt.write().unwrap_err(), RdtError::SectionInsideHeader);
}

#[test]
fn growing_a_section_shifts_later_offsets_and_model_pointers() {
    let b = sample();
    let mut rdt = RawRdt::read(&b).unwrap();
    let old_collision = rdt.header().offset(RdtSection::Collision);
    let old_script = rdt.header().offset(RdtSection::InitScript);
    rdt.replace_section(RdtSection::Model, {
        let mut m = rdt.section(RdtSection::Model).clone();
        m.extend_from_slice(&[0; 6]);
        m
    })
    .unwrap();
    assert_eq!(rdt.header().offset(RdtSection::Model), 100);
    assert_eq!(rdt.header().offset(RdtSection::Collision), old_collision + 6);
    assert_eq!(rdt.header().offset(RdtSection::InitScript), old_script + 6);
    let out = rdt.write().unwrap();
    assert_eq!(out.len(), b.len() + 6);

    // A change in the collision section moves the model pointer that lies beyond it.
    let mut rdt = RawRdt::read(&b).unwrap();
    rdt.replace_section(RdtSection::Collision, vec![0u8; 40]).unwrap();
    let t = rdt.model_offsets().unwrap();
    assert_eq!(t[0], ModelOffsets { tim_offset: 150 + 8, md1_offset: 90 });
    assert_eq!(rdt.header().offset(RdtSection::InitScript), old_script + 8);
    assert_eq!(rdt.write().unwrap().len(), b.len() + 8);
}

#[test]
fn removing_a_section_closes_the_gap() {
    let b = sample();
    let mut rdt = RawRdt::read(&b).unwrap();
    let collision_at = rdt.header().offset(RdtSection::Collision);
    rdt.replace_section(RdtSection::Collision, Vec::new()).unwrap();
    assert_eq!(rdt.header().offset(RdtSection::Collision), 0);
    assert_eq!(rdt.header().offset(RdtSection::InitScript), collision_at);
    assert_eq!(rdt.section_order(), &vec![RdtSection::Model, RdtSection::InitScript]);
    let out = rdt.write().unwrap();
    assert_eq!(out.len(), b.len() - 32);
}

#[test]
fn adding_a_section_appends_it() {
    let b = sample();
    let mut rdt = RawRdt::read(&b).unwrap();
    rdt.replace_section(RdtSection::Light, vec![7, 7, 7]).unwrap();
    assert_eq!(rdt.header().offset(RdtSection::Light), b.len() as u32);
    assert_eq!(rdt.section_order().last(), Some(&RdtSection::Light));
    let out = rdt.write().unwrap();
    assert_eq!(&out[b.len()..], &[7, 7, 7]);
}

#[test]
fn short_model_table_is_refused_without_change() {
    let mut b = header([0, 0, 3, 0, 0, 0, 0, 0], &[(RdtSection::Model, 100), (RdtSection::Ota, 104)]);
    b.extend_from_slice(&[0u8; 8]);
    let mut rdt = RawRdt::read(&b).unwrap();
    assert_eq!(rdt.model_offsets().unwrap_err(), RdtError::TruncatedModelTable);
    assert_eq!(
        rdt.replace_section(RdtSection::Model, vec![1]).unwrap_err(),
        RdtError::TruncatedModelTable
    );
    assert_eq!(rdt.write().unwrap(), b);
}

#[test]
fn model_pointer_overflow_is_refused() {
    let mut b = header([0, 0, 1, 0, 0, 0, 0, 0], &[(RdtSection::Ota, 100), (RdtSection::Model, 101)]);
    b.push(0);
    b.extend_from_slice(&u32::MAX.to_le_bytes());
    b.extend_from_slice(&0u32.to_le_bytes());
    let mut rdt = RawRdt::read(&b).unwrap();
    assert_eq!(
        rdt.replace_section(RdtSection::Ota, vec![1, 2]).unwrap_err(),
        RdtError::OffsetOverflow
    );
}

#[test]
fn setting_model_offsets_writes_the_table() {
    let b = sample();
    let mut rdt = RawRdt::read(&b).unwrap();
    rdt.set_model_offsets(vec![
        ModelOffsets { tim_offset: 1, md1_offset: 2 },
        ModelOffsets { tim_offset: 3, md1_offset: 4 },
    ])
    .unwrap();
    assert_eq!(rdt.header().o_model, 2);
    assert_eq!(rdt.section(RdtSection::Model).len(), 16);
    let t = rdt.model_offsets().unwrap();
    assert_eq!(t[1], ModelOffsets { tim_offset: 3, md1_offset: 4 });
    let too_many = vec![ModelOffsets { tim_offset: 0, md1_offset: 0 }; 256];
    assert_eq!(rdt.set_model_offsets(too_many).unwrap_err(), RdtError::TooManyModels);
}

#[test]
fn collision_count_gives_one_fewer_collider() {
    let b = sample();
    let rdt = RawRdt::read(&b).unwrap();
    let c = Collision::decode(rdt.section(RdtSection::Collision)).unwrap();
    assert_eq!(c.count, 2);
    assert_eq!(c.colliders.len(), 1);
    assert_eq!(c.cell_x.0, 5);
    assert_eq!(c.cell_z.0, -7);
    assert_eq!(c.ceiling, -100);
    assert_eq!(c.colliders[0].collision_mask(), 0x1230);
    assert_eq!(c.colliders[0].floor, 9);
}

#[test]
fn zero_collision_count_is_refused() {
    let mut c = vec![0u8; 16];
    c[4] = 0;
    assert_eq!(Collision::decode(&c).unwrap_err(), DecodeError::ZeroColliderCount);
    c[4] = 1;
    assert_eq!(Collision::decode(&c).unwrap().colliders.len(), 0);
    c[4] = 2;
    assert_eq!(Collision::decode(&c).unwrap_err(), DecodeError::Truncated);
}

#[test]
fn floors_are_counted_and_need_the_trailing_field() {
    let mut f = vec![1u8, 0];
    f.extend_from_slice(&[0xff, 0xff, 2, 0, 3, 0, 4, 0, 5, 0, 6, 0]);
    assert_eq!(Floor::decode_all(&f).unwrap_err(), DecodeError::Truncated);
    f.extend_from_slice(&[0, 0]);
    let fs = Floor::decode_all(&f).unwrap();
    assert_eq!(fs.len(), 1);
    assert_eq!(fs[0].x.0, -1);
    assert_eq!(fs[0].level, 6);
}

#[test]
fn zero_function_table_has_no_functions() {
    assert_eq!(read_script(&[0, 0]).unwrap().len(), 0);
    assert_eq!(read_script(&[]).unwrap().len(), 0);
}

#[test]
fn script_functions_split_at_table_offsets() {
    // Two functions: a sleep, then an if-block whose end-of-function comes after end-if.
    let s = vec![4, 0, 5, 0, 0x09, 0x06, 0, 2, 0, 0x01, 0, 0x08, 0, 0x01, 0];
    let fs = read_script(&s).unwrap();
    assert_eq!(fs.len(), 2);
    assert!(!fs[0].is_truncated());
    assert_eq!(fs[0].instructions().len(), 1);
    assert_eq!(fs[0].instructions()[0].opcode(), 0x09);
    let ops: Vec<u8> = fs[1].instructions().iter().map(|i| i.opcode()).collect();
    assert_eq!(ops, vec![0x06, 0x01, 0x08, 0x01]);
}

#[test]
fn undefined_opcode_truncates_the_function() {
    let s = vec![2, 0, 0x09, 0xff, 0x09];
    let fs = read_script(&s).unwrap();
    assert_eq!(fs.len(), 1);
    assert!(fs[0].is_truncated());
    assert_eq!(fs[0].instructions().len(), 1);
}

#[test]
fn script_table_past_the_end_is_refused() {
    assert!(read_script(&[8, 0, 1, 0]).is_err());
    assert!(read_script(&[8]).is_err());
}

#[test]
fn room_decodes_its_parts() {
    let b = sample();
    let room = Rdt::read(&b).unwrap();
    assert_eq!(room.collision().colliders.len(), 1);
    assert_eq!(room.center().x.0, 5);
    assert_eq!(room.floors().len(), 0);
    assert_eq!(room.init_script().len(), 1);
    assert_eq!(room.init_script()[0].instructions().len(), 2);
    assert_eq!(room.exec_script().len(), 0);
    assert_eq!(room.raw(RdtSection::InitScript).len(), 5);
}

#[test]
fn room_with_bad_collision_is_refused() {
    let mut b = header([0; 8], &[(RdtSection::Collision, 100)]);
    b.extend_from_slice(&[0u8; 16]);
    assert_eq!(
        Rdt::read(&b).unwrap_err(),
        RoomError::Collision(DecodeError::ZeroColliderCount)
    );
}

#[test]
fn section_iteration_follows_slots() {
    assert_eq!(RdtSection::SoundAttributes.next(), Some(RdtSection::SoundHeader1));
    assert_eq!(RdtSection::Animation.next(), None);
    assert_eq!(RdtSection::from_index(10), Some(RdtSection::Model));
    assert_eq!(RdtSection::from_index(23), None);
}

#[test]
fn filling_an_empty_section_that_shares_its_offset_misplaces_the_next() {
    let mut b = header([0; 8], &[(RdtSection::Ota, 100), (RdtSection::Light, 100)]);
    b.extend_from_slice(&[1, 2, 3]);
    let mut rdt = RawRdt::read(&b).unwrap();
    assert_eq!(rdt.section(RdtSection::Ota).len(), 0);
    assert_eq!(rdt.write().unwrap(), b);
    rdt.replace_section(RdtSection::Ota, vec![9]).unwrap();
    assert_eq!(rdt.header().offset(RdtSection::Light), 100);
    assert_eq!(rdt.write().unwrap_err(), RdtError::SectionMisplaced);
}

#[test]
fn room_with_short_floor_or_script_is_refused() {
    let mut b = header([0; 8], &[(RdtSection::Floor, 100)]);
    b.extend_from_slice(&[1, 0, 0, 0]);
    assert_eq!(Rdt::read(&b).unwrap_err(), RoomError::Floor(DecodeError::Truncated));
    let mut b = header([0; 8], &[(RdtSection::ExecScript, 100)]);
    b.extend_from_slice(&[40, 0, 0, 0]);
    assert_eq!(
        Rdt::read(&b).unwrap_err(),
        RoomError::Script(ScriptError::TruncatedTable)
    );
    assert_eq!(
        Rdt::read(&[0u8; 10]).unwrap_err(),
        RoomError::Container(RdtError::TruncatedHeader)
    );
}

#[test]
fn header_round_trips() {
    let b = sample();
    let rdt = RawRdt::read(&b).unwrap();
    assert_eq!(rdt.header().to_bytes(), b[..100].to_vec());
    assert_eq!(rdt.header().o_model, 1);
}

#[test]
fn model_pointer_at_the_changed_section_stays() {
    // The model table points at the start of the collision section, which does not move
    // when that section grows; a pointer past it does move.
    let b = sample();
    let mut rdt = RawRdt::read(&b).unwrap();
    let collision_at = rdt.header().offset(RdtSection::Collision);
    rdt.set_model_offsets(vec![ModelOffsets { tim_offset: collision_at, md1_offset: collision_at + 1 }])
        .unwrap();
    rdt.replace_section(RdtSection::Collision, vec![0u8; 40]).unwrap();
    let t = rdt.model_offsets().unwrap();
    assert_eq!(t[0], ModelOffsets { tim_offset: collision_at, md1_offset: collision_at + 1 + 8 });
}

#[test]
fn removing_the_model_section_empties_its_table() {
    let b = sample();
    let mut rdt = RawRdt::read(&b).unwrap();
    rdt.replace_section(RdtSection::Model, Vec::new()).unwrap();
    assert_eq!(rdt.header().o_model, 0);
    assert_eq!(rdt.header().offset(RdtSection::Model), 0);
    assert_eq!(rdt.model_offsets().unwrap().len(), 0);
    rdt.replace_section(RdtSection::Collision, vec![0u8; 20]).unwrap();
    assert_eq!(rdt.section_order(), &vec![RdtSection::Collision, RdtSection::InitScript]);
    assert_eq!(rdt.header().offset(RdtSection::Collision), 100);
    assert_eq!(rdt.header().offset(RdtSection::InitScript), 120);
    assert_eq!(rdt.write().unwrap().len(), 125);
}

#[test]
fn room_with_only_floors_has_default_collision() {
    let mut b = header([0; 8], &[(RdtSection::Floor, 100)]);
    b.extend_from_slice(&[1, 0, 1, 0, 2, 0, 3, 0, 4, 0, 5, 0, 6, 0, 0, 0]);
    let room = Rdt::read(&b).unwrap();
    assert_eq!(room.floors().len(), 1);
    assert_eq!(room.collision().count, 0);
    assert_eq!(room.collision().colliders.len(), 0);
    assert_eq!(room.init_script().len(), 0);
    assert_eq!(room.exec_script().len(), 0);
}
