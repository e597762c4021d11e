use cannonball::pointing_slots::{
    plan_save, slot_addr, snapshot_from_read, PointingSettingsSnapshot, BLOB_LEN, MAGIC,
    SLOT_1_ADDR, SLOT_2_ADDR, SLOT_SIZE, STORAGE_START, VERSION,
};

fn sample() -> PointingSettingsSnapshot {
    PointingSettingsSnapshot {
        cpi_step: 7,
        scroll_step: 3,
        cursor_enabled: true,
        scroll_invert_wheel: false,
        scroll_invert_pan: true,
    }
}

#[test]
fn encode_writes_header_steps_and_flags() {
    let blob = sample().encode();
    assert_eq!(blob, [0x50, 0x54, 0x53, 0x31, 1, 7, 3, 0b101, 0, 0, 0, 0, 0, 0, 0, 0]);
    assert_eq!(&blob[0..4], b"PTS1");
    assert_eq!(MAGIC, *b"PTS1");
    assert_eq!(VERSION, 1);
    assert_eq!(BLOB_LEN, 16);
}

#[test]
fn encode_flag_bits() {
    let mut s = sample();
    s.cursor_enabled = false;
    s.scroll_invert_wheel = true;
    s.scroll_invert_pan = false;
    assert_eq!(s.encode()[7], 0b010);
    s.cursor_enabled = true;
    s.scroll_invert_wheel = true;
    s.scroll_invert_pan = true;
    assert_eq!(s.encode()[7], 0b111);
    s.cursor_enabled = false;
    s.scroll_invert_wheel = false;
    s.scroll_invert_pan = false;
    assert_eq!(s.encode()[7], 0);
}

#[test]
fn decode_of_encode_round_trips() {
    for bits in 0u8..8 {
        let s = PointingSettingsSnapshot {
            cpi_step: bits.wrapping_mul(37),
            scroll_step: 255 - bits,
            cursor_enabled: bits & 1 != 0,
            scroll_invert_wheel: bits & 2 != 0,
            scroll_invert_pan: bits & 4 != 0,
        };
        assert_eq!(PointingSettingsSnapshot::decode(&s.encode()), Some(s));
    }
}

#[test]
fn decode_rejects_wrong_magic() {
    let mut blob = sample().encode();
    blob[2] = b'X';
    assert_eq!(PointingSettingsSnapshot::decode(&blob), None);
    let erased = [0xFFu8; BLOB_LEN];
    assert_eq!(PointingSettingsSnapshot::decode(&erased), None);
    let zeros = [0u8; BLOB_LEN];
    assert_eq!(PointingSettingsSnapshot::decode(&zeros), None);
}

#[test]
fn decode_rejects_wrong_version() {
    let mut blob = sample().encode();
    blob[4] = 2;
    assert_eq!(PointingSettingsSnapshot::decode(&blob), None);
}

#[test]
fn decode_ignores_tail_and_high_flag_bits() {
    let mut blob = sample().encode();
    blob[7] = 0b1111_1010;
    for b in blob.iter_mut().skip(8) {
        *b = 0xAB;
    }
    let s = PointingSettingsSnapshot::decode(&blob).unwrap();
    assert_eq!(
        s,
        PointingSettingsSnapshot {
            cpi_step: 7,
            scroll_step: 3,
            cursor_enabled: false,
            scroll_invert_wheel: true,
            scroll_invert_pan: false,
        }
    );
    assert_eq!(s.encode()[7], blob[7] & 7);
    assert_eq!(&s.encode()[0..7], &blob[0..7]);
}

#[test]
fn slot_addresses() {
    assert_eq!(slot_addr(1), 0x9_E000);
    assert_eq!(slot_addr(2), 0x9_F000);
    assert_eq!(slot_addr(0), SLOT_2_ADDR);
    assert_eq!(slot_addr(255), SLOT_2_ADDR);
}

#[test]
fn slots_sit_below_storage() {
    assert_eq!(SLOT_SIZE, 4096);
    assert_eq!(SLOT_1_ADDR + SLOT_SIZE, SLOT_2_ADDR);
    assert_eq!(SLOT_2_ADDR + SLOT_SIZE, STORAGE_START);
    assert_eq!(STORAGE_START, 0xA_0000);
}

#[test]
fn plan_save_erases_the_slot_and_writes_the_blob() {
    let w = plan_save(1, sample());
    assert_eq!(w.erase_from, 0x9_E000);
    assert_eq!(w.erase_to, 0x9_F000);
    assert_eq!(w.offset, 0x9_E000);
    assert_eq!(w.blob, sample().encode());
    let w2 = plan_save(2, sample());
    assert_eq!((w2.erase_from, w2.erase_to, w2.offset), (0x9_F000, 0xA_0000, 0x9_F000));
}

#[test]
fn load_after_save_on_simulated_flash() {
    // A NOR flash image: erase sets 0xFF, programming clears bits.
    let mut mem = vec![0x5Au8; STORAGE_START as usize + 0x100];
    let other_before = mem[SLOT_2_ADDR as usize..STORAGE_START as usize].to_vec();
    let w = plan_save(1, sample());
    for b in &mut mem[w.erase_from as usize..w.erase_to as usize] {
        *b = 0xFF;
    }
    for (i, b) in w.blob.iter().enumerate() {
        mem[w.offset as usize + i] &= *b;
    }
    let mut buf = [0u8; BLOB_LEN];
    let at = slot_addr(1) as usize;
    buf.copy_from_slice(&mem[at..at + BLOB_LEN]);
    assert_eq!(snapshot_from_read(Some(buf)), Some(sample()));
    assert_eq!(&mem[SLOT_2_ADDR as usize..STORAGE_START as usize], &other_before[..]);
    assert!(mem[at + BLOB_LEN..at + SLOT_SIZE as usize].iter().all(|b| *b == 0xFF));
}

#[test]
fn failed_read_loads_nothing() {
    assert_eq!(snapshot_from_read(None), None);
    assert_eq!(snapshot_from_read(Some([0xFF; BLOB_LEN])), None);
    assert_eq!(snapshot_from_read(Some(sample().encode())), Some(sample()));
}
