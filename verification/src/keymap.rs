//! The default keymap and encoder map of the keyboard: a base layer of
//! 2 x 15 keys and three encoders, over four transparent layers.

use vstd::prelude::*;

verus! {

/// Columns of the key matrix.
pub const COL: usize = 15;

/// Rows of the key matrix.
pub const ROW: usize = 2;

/// Number of layers.
pub const NUM_LAYER: usize = 5;

/// Number of rotary encoders (head, chest, leg).
pub const NUM_ENCODER: usize = 3;

/// The layer on which the pointing device scrolls.
pub const SCROLL_LAYER: u8 = 1;

/// USER key IDs (0..=7 are reserved by rmk for BLE profile control).
/// Not used by the default keymap; exposed via Vial for remapping.
pub const USER_CPI_UP: u8 = 8;
pub const USER_CPI_DOWN: u8 = 9;
pub const USER_CURSOR_TOGGLE: u8 = 10;
pub const USER_SNIPE: u8 = 11;
pub const USER_SCROLL_SPEED_UP: u8 = 12;
pub const USER_SCROLL_SPEED_DOWN: u8 = 13;
pub const USER_SCROLL_INVERT_X: u8 = 14;
pub const USER_SCROLL_INVERT_Y: u8 = 15;
pub const USER_SAVE_SLOT_1: u8 = 16;
pub const USER_LOAD_SLOT_1: u8 = 17;
pub const USER_SAVE_SLOT_2: u8 = 18;
pub const USER_LOAD_SLOT_2: u8 = 19;

/// The USER key IDs of this keyboard.
pub open spec fn user_key_ids() -> Seq<u8> {
    seq![
        USER_CPI_UP, USER_CPI_DOWN, USER_CURSOR_TOGGLE, USER_SNIPE, USER_SCROLL_SPEED_UP,
        USER_SCROLL_SPEED_DOWN, USER_SCROLL_INVERT_X, USER_SCROLL_INVERT_Y, USER_SAVE_SLOT_1,
        USER_LOAD_SLOT_1, USER_SAVE_SLOT_2, USER_LOAD_SLOT_2,
    ]
}

/// The key actions that the default maps use.
#[derive(Debug, Clone, Copy, PartialEq, Eq, Structural)]
pub enum Key {
    /// Falls through to the layer below.
    Transparent,
    A,
    B,
    C,
    D,
    E,
    F,
    G,
    H,
    I,
    J,
    K,
    L,
    M,
    N,
    O,
    P,
    Q,
    R,
    S,
    T,
    U,
    V,
    W,
    X,
    Y,
    Z,
    Kc0,
    Kc5,
    Kc6,
    Kc7,
    Kc8,
    Kc9,
    MouseBtn1,
    MouseBtn2,
    MouseWheelUp,
    MouseWheelDown,
}

/// The keys of one encoder, for each direction of rotation.
#[derive(Debug, Clone, Copy, PartialEq, Eq, Structural)]
pub struct EncoderKeys {
    pub clockwise: Key,
    pub counter_clockwise: Key,
}

/// How the pointing sensor is mounted; the rotated mount swaps some keys.
#[derive(Debug, Clone, Copy, PartialEq, Eq, Structural)]
pub enum SensorMount {
    Standard,
    Rotated180,
}

/// Row 0 of the base layer.
pub open spec fn base_row0(mount: SensorMount) -> Seq<Key> {
    match mount {
        SensorMount::Standard => seq![
            Key::MouseBtn2, Key::A, Key::B, Key::C, Key::E, Key::G, Key::MouseBtn1, Key::H,
            Key::I, Key::J, Key::K, Key::L, Key::Kc5, Key::Kc6, Key::Kc7,
        ],
        SensorMount::Rotated180 => seq![
            Key::A, Key::B, Key::MouseBtn1, Key::C, Key::E, Key::G, Key::H, Key::I,
            Key::MouseBtn2, Key::J, Key::K, Key::L, Key::Kc5, Key::Kc6, Key::Kc7,
        ],
    }
}

/// Row 1 of the base layer, the same for both mounts.
pub open spec fn base_row1() -> Seq<Key> {
    seq![
        Key::N, Key::M, Key::P, Key::O, Key::D, Key::F, Key::S, Key::Q,
        Key::R, Key::T, Key::V, Key::U, Key::Kc0, Key::Kc9, Key::Kc8,
    ]
}

/// The key at `(row, col)` of `layer` in the default keymap: the base layer
/// is layer 0, every other layer is transparent.
pub open spec fn default_key(mount: SensorMount, layer: int, row: int, col: int) -> Key {
    if layer == 0 {
        if row == 0 {
            base_row0(mount)[col]
        } else {
            base_row1()[col]
        }
    } else {
        Key::Transparent
    }
}

/// The encoders of the base layer: head, chest, leg.
pub open spec fn base_encoders(mount: SensorMount) -> Seq<EncoderKeys> {
    match mount {
        SensorMount::Standard => seq![
            EncoderKeys { clockwise: Key::W, counter_clockwise: Key::X },
            EncoderKeys { clockwise: Key::MouseWheelDown, counter_clockwise: Key::MouseWheelUp },
            EncoderKeys { clockwise: Key::Y, counter_clockwise: Key::Z },
        ],
        SensorMount::Rotated180 => seq![
            EncoderKeys { clockwise: Key::W, counter_clockwise: Key::X },
            EncoderKeys { clockwise: Key::Z, counter_clockwise: Key::Y },
            EncoderKeys { clockwise: Key::MouseWheelDown, counter_clockwise: Key::MouseWheelUp },
        ],
    }
}

/// The encoder `enc` of `layer` in the default encoder map.
pub open spec fn default_encoder(mount: SensorMount, layer: int, enc: int) -> EncoderKeys {
    if layer == 0 {
        base_encoders(mount)[enc]
    } else {
        EncoderKeys { clockwise: Key::Transparent, counter_clockwise: Key::Transparent }
    }
}

fn transparent_layer() -> (layer: [[Key; COL]; ROW])
    ensures
        forall|r: int, c: int| 0 <= r < ROW && 0 <= c < COL ==> layer[r][c] == Key::Transparent,
{
    [[Key::Transparent; COL]; ROW]
}

/// The default keymap for a sensor mount.
pub fn get_default_keymap(mount: SensorMount) -> (keymap: [[[Key; COL]; ROW]; NUM_LAYER])
    ensures
        forall|l: int, r: int, c: int|
            0 <= l < NUM_LAYER && 0 <= r < ROW && 0 <= c < COL ==> #[trigger] keymap[l][r][c]
                == default_key(mount, l, r, c),
        keymap[0][1]@ == seq![
            Key::N, Key::M, Key::P, Key::O, Key::D, Key::F, Key::S, Key::Q,
            Key::R, Key::T, Key::V, Key::U, Key::Kc0, Key::Kc9, Key::Kc8,
        ],
        mount == SensorMount::Standard ==> keymap[0][0]@ == seq![
            Key::MouseBtn2, Key::A, Key::B, Key::C, Key::E, Key::G, Key::MouseBtn1, Key::H,
            Key::I, Key::J, Key::K, Key::L, Key::Kc5, Key::Kc6, Key::Kc7,
        ],
        mount == SensorMount::Rotated180 ==> keymap[0][0]@ == seq![
            Key::A, Key::B, Key::MouseBtn1, Key::C, Key::E, Key::G, Key::H, Key::I,
            Key::MouseBtn2, Key::J, Key::K, Key::L, Key::Kc5, Key::Kc6, Key::Kc7,
        ],
{
    let base: [[Key; COL]; ROW] = match mount {
        SensorMount::Standard => [
            [
                Key::MouseBtn2, Key::A, Key::B, Key::C,
                Key::E, Key::G, Key::MouseBtn1, Key::H,
                Key::I, Key::J, Key::K, Key::L,
                Key::Kc5, Key::Kc6, Key::Kc7,
            ],
            [
                Key::N, Key::M, Key::P, Key::O,
                Key::D, Key::F, Key::S, Key::Q,
                Key::R, Key::T, Key::V, Key::U,
                Key::Kc0, Key::Kc9, Key::Kc8,
            ],
        ],
        SensorMount::Rotated180 => [
            [
                Key::A, Key::B, Key::MouseBtn1, Key::C,
                Key::E, Key::G, Key::H, Key::I,
                Key::MouseBtn2, Key::J, Key::K, Key::L,
                Key::Kc5, Key::Kc6, Key::Kc7,
            ],
            [
                Key::N, Key::M, Key::P, Key::O,
                Key::D, Key::F, Key::S, Key::Q,
                Key::R, Key::T, Key::V, Key::U,
                Key::Kc0, Key::Kc9, Key::Kc8,
            ],
        ],
    };
    assert(base[0]@ =~= base_row0(mount));
    assert(base[1]@ =~= base_row1());
    let keymap = [
        base,
        transparent_layer(),
        transparent_layer(),
        transparent_layer(),
        transparent_layer(),
    ];
    keymap
}

fn transparent_encoders() -> (encoders: [EncoderKeys; NUM_ENCODER])
    ensures
        forall|e: int|
            0 <= e < NUM_ENCODER ==> encoders[e] == (EncoderKeys {
                clockwise: Key::Transparent,
                counter_clockwise: Key::Transparent,
            }),
{
    let t = EncoderKeys { clockwise: Key::Transparent, counter_clockwise: Key::Transparent };
    [t, t, t]
}

/// The default encoder map for a sensor mount.
pub fn get_default_encoder_map(mount: SensorMount) -> (map: [[EncoderKeys; NUM_ENCODER]; NUM_LAYER])
    ensures
        forall|l: int, e: int|
            0 <= l < NUM_LAYER && 0 <= e < NUM_ENCODER ==> #[trigger] map[l][e] == default_encoder(
                mount,
                l,
                e,
            ),
{
    let base: [EncoderKeys; NUM_ENCODER] = match mount {
        SensorMount::Standard => [
            EncoderKeys { clockwise: Key::W, counter_clockwise: Key::X },
            EncoderKeys { clockwise: Key::MouseWheelDown, counter_clockwise: Key::MouseWheelUp },
            EncoderKeys { clockwise: Key::Y, counter_clockwise: Key::Z },
        ],
        SensorMount::Rotated180 => [
            EncoderKeys { clockwise: Key::W, counter_clockwise: Key::X },
            EncoderKeys { clockwise: Key::Z, counter_clockwise: Key::Y },
            EncoderKeys { clockwise: Key::MouseWheelDown, counter_clockwise: Key::MouseWheelUp },
        ],
    };
    assert(base@ =~= base_encoders(mount));
    [
        base,
        transparent_encoders(),
        transparent_encoders(),
        transparent_encoders(),
        transparent_encoders(),
    ]
}

/// The USER key IDs are pairwise distinct and none of them is one of the
/// IDs 0..=7 that rmk reserves.
pub proof fn lemma_user_keys_distinct_and_unreserved()
    ensures
        forall|i: int| 0 <= i < user_key_ids().len() ==> #[trigger] user_key_ids()[i] >= 8,
        forall|i: int, j: int|
            0 <= i < j < user_key_ids().len() ==> user_key_ids()[i] != user_key_ids()[j],
{
}

/// Every layer above the base layer is transparent, keys and encoders alike.
pub proof fn lemma_upper_layers_transparent(mount: SensorMount)
    ensures
        forall|l: int, r: int, c: int|
            1 <= l < NUM_LAYER && 0 <= r < ROW && 0 <= c < COL ==> #[trigger] default_key(
                mount,
                l,
                r,
                c,
            ) == Key::Transparent,
        forall|l: int, e: int|
            1 <= l < NUM_LAYER && 0 <= e < NUM_ENCODER ==> (#[trigger] default_encoder(
                mount,
                l,
                e,
            )).clockwise == Key::Transparent && default_encoder(mount, l, e).counter_clockwise
                == Key::Transparent,
{
}

/// All keys of the base layer, row 0 then row 1.
pub open spec fn base_keys(mount: SensorMount) -> Seq<Key> {
    base_row0(mount) + base_row1()
}

/// No key of the base layer is transparent, and no key occurs twice on it.
pub proof fn lemma_base_layer_keys_distinct(mount: SensorMount)
    ensures
        base_keys(mount).len() == ROW * COL,
        forall|i: int|
            0 <= i < base_keys(mount).len() ==> #[trigger] base_keys(mount)[i] != Key::Transparent,
        forall|i: int, j: int|
            0 <= i < j < base_keys(mount).len() ==> base_keys(mount)[i] != base_keys(mount)[j],
{
    let keys = base_keys(mount);
    assert(keys.len() == 30);
    assert forall|i: int| 0 <= i < 30 implies #[trigger] keys[i] == (if i < 15 {
        base_row0(mount)[i]
    } else {
        base_row1()[i - 15]
    }) by {}
}

/// Both mounts put the same keys on the base layer: row 1 is identical, and
/// row 0 holds the same keys, only in another order.
pub proof fn lemma_mounts_hold_same_keys()
    ensures
        forall|k: Key|
            #![auto]
            base_row0(SensorMount::Standard).contains(k) <==> base_row0(
                SensorMount::Rotated180,
            ).contains(k),
        base_row0(SensorMount::Standard).len() == base_row0(SensorMount::Rotated180).len(),
{
    let st = base_row0(SensorMount::Standard);
    let rt = base_row0(SensorMount::Rotated180);
    assert forall|k: Key| #![auto] st.contains(k) implies rt.contains(k) by {
        let i = choose|i: int| 0 <= i < st.len() && st[i] == k;
        let j: int = if i == 0 { 8 } else if i == 1 { 0 } else if i == 2 { 1 } else if i == 6 { 2 } else if i
            == 7 { 6 } else if i == 8 { 7 } else { i };
        assert(rt[j] == k);
    }
    assert forall|k: Key| #![auto] rt.contains(k) implies st.contains(k) by {
        let j = choose|j: int| 0 <= j < rt.len() && rt[j] == k;
        let i: int = if j == 8 { 0 } else if j == 0 { 1 } else if j == 1 { 2 } else if j == 2 { 6 } else if j
            == 6 { 7 } else if j == 7 { 8 } else { j };
        assert(st[i] == k);
    }
}

/// On the base layer exactly one encoder scrolls the vertical wheel, down
/// clockwise and up counter-clockwise: the chest on the standard mount, the
/// leg on the rotated one. The head encoder is the same on both.
pub proof fn lemma_one_wheel_encoder(mount: SensorMount)
    ensures
        ({
            let wheel = if mount == SensorMount::Standard { 1int } else { 2int };
            &&& default_encoder(mount, 0, wheel) == (EncoderKeys {
                clockwise: Key::MouseWheelDown,
                counter_clockwise: Key::MouseWheelUp,
            })
            &&& forall|e: int|
                0 <= e < NUM_ENCODER && e != wheel ==> (#[trigger] default_encoder(
                    mount,
                    0,
                    e,
                )).clockwise != Key::MouseWheelDown && default_encoder(mount, 0, e).clockwise
                    != Key::MouseWheelUp
        }),
        default_encoder(mount, 0, 0) == (EncoderKeys { clockwise: Key::W, counter_clockwise: Key::X }),
{
}

/// Where the rotated mount takes the key of each column of row 0 from: the
/// rotation moves the keys of columns 0, 1, 2, 6, 7 and 8 only.
pub open spec fn rotated_source_column(c: int) -> int {
    if c == 0 {
        1
    } else if c == 1 {
        2
    } else if c == 2 {
        6
    } else if c == 6 {
        7
    } else if c == 7 {
        8
    } else if c == 8 {
        0
    } else {
        c
    }
}

/// The base layer, column by column. Row 1 is N M P O D F S Q R T V U 0 9 8 on
/// both mounts; row 0 of the standard mount is MouseBtn2 A B C E G MouseBtn1 H
/// I J K L 5 6 7; row 0 of the rotated mount is that row with the keys of
/// columns 0, 1, 2, 6, 7, 8 moved as the rotation moves them, every other
/// column unchanged.
pub proof fn lemma_base_layer_layout()
    ensures
        forall|m: SensorMount, c: int|
            0 <= c < COL ==> #[trigger] default_key(m, 0, 1, c) == seq![
                Key::N, Key::M, Key::P, Key::O, Key::D, Key::F, Key::S, Key::Q,
                Key::R, Key::T, Key::V, Key::U, Key::Kc0, Key::Kc9, Key::Kc8,
            ][c],
        forall|c: int|
            0 <= c < COL ==> #[trigger] default_key(SensorMount::Standard, 0, 0, c) == seq![
                Key::MouseBtn2, Key::A, Key::B, Key::C, Key::E, Key::G, Key::MouseBtn1, Key::H,
                Key::I, Key::J, Key::K, Key::L, Key::Kc5, Key::Kc6, Key::Kc7,
            ][c],
        forall|c: int|
            0 <= c < COL ==> #[trigger] default_key(SensorMount::Rotated180, 0, 0, c) == default_key(
                SensorMount::Standard,
                0,
                0,
                rotated_source_column(c),
            ),
        forall|c: int|
            0 <= c < COL && !(c == 0 || c == 1 || c == 2 || c == 6 || c == 7 || c == 8)
                ==> #[trigger] default_key(SensorMount::Rotated180, 0, 0, c) == default_key(
                SensorMount::Standard,
                0,
                0,
                c,
            ),
{
}

} // verus!
