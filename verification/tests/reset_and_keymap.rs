use cannonball::keymap::{
    get_default_encoder_map, get_default_keymap, EncoderKeys, Key, SensorMount, COL, NUM_ENCODER,
    NUM_LAYER, ROW, SCROLL_LAYER, USER_CPI_DOWN, USER_CPI_UP, USER_CURSOR_TOGGLE,
    USER_LOAD_SLOT_1, USER_LOAD_SLOT_2, USER_SAVE_SLOT_1, USER_SAVE_SLOT_2,
    USER_SCROLL_INVERT_X, USER_SCROLL_INVERT_Y, USER_SCROLL_SPEED_DOWN, USER_SCROLL_SPEED_UP,
    USER_SNIPE,
};
use cannonball::pointing_slots::{SLOT_1_ADDR, SLOT_2_ADDR, STORAGE_START};
use cannonball::reset::{erase_pages, DFU_MAGIC_UF2_RESET, ERASE_END, ERASE_START, PAGE_SIZE};

#[test]
fn erase_pages_cover_slots_and_storage() {
    let pages = erase_pages();
    assert_eq!(
        pages,
        vec![0x9_E000, 0x9_F000, 0xA_0000, 0xA_1000, 0xA_2000, 0xA_3000, 0xA_4000, 0xA_5000]
    );
    assert_eq!(pages[0], SLOT_1_ADDR);
    assert_eq!(pages[1], SLOT_2_ADDR);
    assert_eq!(pages[2], STORAGE_START);
    assert!(pages.iter().all(|p| p % PAGE_SIZE == 0));
    assert_eq!(*pages.last().unwrap() + PAGE_SIZE, ERASE_END);
    assert_eq!(pages[0], ERASE_START);
    assert_eq!(DFU_MAGIC_UF2_RESET, 0x57);
}

#[test]
fn standard_keymap_layout() {
    let km = get_default_keymap(SensorMount::Standard);
    assert_eq!(km.len(), NUM_LAYER);
    assert_eq!(km[0][0][0], Key::MouseBtn2);
    assert_eq!(km[0][0][6], Key::MouseBtn1);
    assert_eq!(km[0][0][14], Key::Kc7);
    assert_eq!(km[0][1][0], Key::N);
    assert_eq!(km[0][1][12], Key::Kc0);
    for layer in km.iter().skip(1) {
        for row in layer.iter() {
            assert!(row.iter().all(|k| *k == Key::Transparent));
        }
    }
}

#[test]
fn rotated_keymap_layout() {
    let km = get_default_keymap(SensorMount::Rotated180);
    assert_eq!(
        km[0][0],
        [
            Key::A, Key::B, Key::MouseBtn1, Key::C, Key::E, Key::G, Key::H, Key::I,
            Key::MouseBtn2, Key::J, Key::K, Key::L, Key::Kc5, Key::Kc6, Key::Kc7,
        ]
    );
    let std_km = get_default_keymap(SensorMount::Standard);
    assert_eq!(km[0][1], std_km[0][1]);
    let mut a = km[0][0].to_vec();
    let mut b = std_km[0][0].to_vec();
    a.sort_by_key(|k| format!("{:?}", k));
    b.sort_by_key(|k| format!("{:?}", k));
    assert_eq!(a, b);
}

#[test]
fn base_layer_keys_are_distinct() {
    for mount in [SensorMount::Standard, SensorMount::Rotated180] {
        let km = get_default_keymap(mount);
        let keys: Vec<Key> = km[0].iter().flat_map(|r| r.iter().copied()).collect();
        assert_eq!(keys.len(), ROW * COL);
        for i in 0..keys.len() {
            assert_ne!(keys[i], Key::Transparent);
            for j in i + 1..keys.len() {
                assert_ne!(keys[i], keys[j]);
            }
        }
    }
}

#[test]
fn encoder_maps() {
    let wheel = EncoderKeys { clockwise: Key::MouseWheelDown, counter_clockwise: Key::MouseWheelUp };
    let head = EncoderKeys { clockwise: Key::W, counter_clockwise: Key::X };
    let t = EncoderKeys { clockwise: Key::Transparent, counter_clockwise: Key::Transparent };
    let st = get_default_encoder_map(SensorMount::Standard);
    assert_eq!(st[0], [head, wheel, EncoderKeys { clockwise: Key::Y, counter_clockwise: Key::Z }]);
    let rt = get_default_encoder_map(SensorMount::Rotated180);
    assert_eq!(rt[0], [head, EncoderKeys { clockwise: Key::Z, counter_clockwise: Key::Y }, wheel]);
    for m in [st, rt] {
        assert_eq!(m[0].len(), NUM_ENCODER);
        for layer in m.iter().skip(1) {
            assert_eq!(*layer, [t; NUM_ENCODER]);
        }
    }
}

#[test]
fn user_key_ids_follow_reserved_range() {
    let ids = [
        USER_CPI_UP, USER_CPI_DOWN, USER_CURSOR_TOGGLE, USER_SNIPE, USER_SCROLL_SPEED_UP,
        USER_SCROLL_SPEED_DOWN, USER_SCROLL_INVERT_X, USER_SCROLL_INVERT_Y, USER_SAVE_SLOT_1,
        USER_LOAD_SLOT_1, USER_SAVE_SLOT_2, USER_LOAD_SLOT_2,
    ];
    for (i, id) in ids.iter().enumerate() {
        assert_eq!(*id as usize, 8 + i);
    }
    assert_eq!(SCROLL_LAYER, 1);
}
