//! Flash-backed persistence for pointing-device runtime settings.
//!
//! Two 4-KiB slots sit immediately below rmk's storage region (which starts
//! at 0x`A0000`). Each slot carries a 16-byte blob; the rest of the sector is
//! left erased.

use vstd::prelude::*;

verus! {

/// Address of the first slot.
pub const SLOT_1_ADDR: u32 = 0x9_E000;

/// Address of the second slot.
pub const SLOT_2_ADDR: u32 = 0x9_F000;

/// Size of a slot: one erase sector of the flash.
pub const SLOT_SIZE: u32 = 0x1000;

/// Where rmk's own storage region starts; the slots sit just below it.
pub const STORAGE_START: u32 = 0xA_0000;

/// Length of the blob stored at the start of a slot.
pub const BLOB_LEN: usize = 16;

/// Tag that opens every blob: the bytes of `PTS1`.
pub const MAGIC: [u8; 4] = [0x50, 0x54, 0x53, 0x31];

/// Format version written after the tag.
pub const VERSION: u8 = 1;

/// The settings that are saved to and restored from a slot.
#[derive(Debug, Clone, Copy, PartialEq, Eq, Structural)]
pub struct PointingSettingsSnapshot {
    pub cpi_step: u8,
    pub scroll_step: u8,
    pub cursor_enabled: bool,
    pub scroll_invert_wheel: bool,
    pub scroll_invert_pan: bool,
}

/// The flags byte: bit 0 cursor enabled, bit 1 wheel inverted, bit 2 pan inverted.
pub open spec fn flags_byte(cursor: bool, wheel: bool, pan: bool) -> u8 {
    (if cursor { 1u8 } else { 0u8 }) | (if wheel { 2u8 } else { 0u8 }) | (if pan { 4u8 } else { 0u8 })
}

/// The blob that represents `s`: tag, version, the two steps, the flags byte,
/// and eight zero bytes.
pub open spec fn blob_of(s: PointingSettingsSnapshot) -> Seq<u8> {
    MAGIC@ + seq![
        VERSION,
        s.cpi_step,
        s.scroll_step,
        flags_byte(s.cursor_enabled, s.scroll_invert_wheel, s.scroll_invert_pan),
    ] + Seq::new(8, |i: int| 0u8)
}

/// A blob is accepted when it opens with the tag and the version.
pub open spec fn has_header(b: Seq<u8>) -> bool {
    &&& b.len() == BLOB_LEN
    &&& b.subrange(0, 4) == MAGIC@
    &&& b[4] == VERSION
}

/// What a blob decodes to: the steps from bytes 5 and 6, the three flags from
/// the low bits of byte 7; every other bit of the blob past the header is ignored.
pub open spec fn snapshot_of(b: Seq<u8>) -> Option<PointingSettingsSnapshot> {
    if has_header(b) {
        Some(
            PointingSettingsSnapshot {
                cpi_step: b[5],
                scroll_step: b[6],
                cursor_enabled: b[7] & 1 != 0,
                scroll_invert_wheel: b[7] & 2 != 0,
                scroll_invert_pan: b[7] & 4 != 0,
            },
        )
    } else {
        None
    }
}

impl PointingSettingsSnapshot {
    /// Serialises the settings into the blob stored in a slot.
    pub fn encode(&self) -> (buf: [u8; BLOB_LEN])
        ensures
            buf@ == blob_of(*self),
            buf@[0] == 0x50 && buf@[1] == 0x54 && buf@[2] == 0x53 && buf@[3] == 0x31,
            buf@[4] == 1,
            buf@[5] == self.cpi_step,
            buf@[6] == self.scroll_step,
            (buf@[7] & 1 != 0) == self.cursor_enabled,
            (buf@[7] & 2 != 0) == self.scroll_invert_wheel,
            (buf@[7] & 4 != 0) == self.scroll_invert_pan,
            buf@[7] < 8,
            forall|i: int| 8 <= i < 16 ==> #[trigger] buf@[i] == 0,
    {
        proof {
            lemma_blob_layout(*self);
        }
        let mut buf = [0u8; BLOB_LEN];
        buf[0] = MAGIC[0];
        buf[1] = MAGIC[1];
        buf[2] = MAGIC[2];
        buf[3] = MAGIC[3];
        buf[4] = VERSION;
        buf[5] = self.cpi_step;
        buf[6] = self.scroll_step;
        let cursor: u8 = if self.cursor_enabled { 0b0000_0001 } else { 0 };
        let wheel: u8 = if self.scroll_invert_wheel { 0b0000_0010 } else { 0 };
        let pan: u8 = if self.scroll_invert_pan { 0b0000_0100 } else { 0 };
        let flags: u8 = cursor | wheel | pan;
        buf[7] = flags;
        assert(buf@ =~= blob_of(*self));
        buf
    }

    /// Reads the settings back from a slot's blob; `None` unless the blob
    /// opens with the tag and the version.
    pub fn decode(buf: &[u8; BLOB_LEN]) -> (out: Option<Self>)
        ensures
            out == snapshot_of(buf@),
            out is Some <==> has_header(buf@),
            out is Some <==> (buf@[0] == 0x50 && buf@[1] == 0x54 && buf@[2] == 0x53 && buf@[3]
                == 0x31 && buf@[4] == 1),
            out is Some ==> out == Some(
                PointingSettingsSnapshot {
                    cpi_step: buf@[5],
                    scroll_step: buf@[6],
                    cursor_enabled: buf@[7] & 1 != 0,
                    scroll_invert_wheel: buf@[7] & 2 != 0,
                    scroll_invert_pan: buf@[7] & 4 != 0,
                },
            ),
    {
        proof {
            lemma_blob_decoding(buf@);
        }
        if buf[0] != MAGIC[0] || buf[1] != MAGIC[1] || buf[2] != MAGIC[2] || buf[3] != MAGIC[3]
            || buf[4] != VERSION {
            proof {
                if buf@.subrange(0, 4) == MAGIC@ {
                    assert(buf@.subrange(0, 4)[0] == buf@[0]);
                    assert(buf@.subrange(0, 4)[1] == buf@[1]);
                    assert(buf@.subrange(0, 4)[2] == buf@[2]);
                    assert(buf@.subrange(0, 4)[3] == buf@[3]);
                }
            }
            return None;
        }
        assert(buf@.subrange(0, 4) =~= MAGIC@);
        let flags = buf[7];
        Some(
            Self {
                cpi_step: buf[5],
                scroll_step: buf[6],
                cursor_enabled: flags & 0b0000_0001 != 0,
                scroll_invert_wheel: flags & 0b0000_0010 != 0,
                scroll_invert_pan: flags & 0b0000_0100 != 0,
            },
        )
    }
}

/// The slot address chosen for a slot index: index 1 is the first slot,
/// every other index the second.
pub open spec fn slot_base(slot_index: u8) -> u32 {
    if slot_index == 1 {
        SLOT_1_ADDR
    } else {
        SLOT_2_ADDR
    }
}

/// Maps a slot index to the flash address of its slot.
pub fn slot_addr(slot_index: u8) -> (addr: u32)
    ensures
        addr == slot_base(slot_index),
{
    match slot_index {
        1 => SLOT_1_ADDR,
        _ => SLOT_2_ADDR,
    }
}

/// The flash operations that save a snapshot: erase the sector
/// `[erase_from, erase_to)`, then program `blob` at `offset`.
#[derive(Debug, Clone, Copy)]
pub struct SlotWrite {
    pub erase_from: u32,
    pub erase_to: u32,
    pub offset: u32,
    pub blob: [u8; BLOB_LEN],
}

/// Plans the save of `snapshot` into slot `slot_index`: the whole slot sector
/// is erased and the encoded blob is written at its start.
pub fn plan_save(slot_index: u8, snapshot: PointingSettingsSnapshot) -> (w: SlotWrite)
    ensures
        w.erase_from == slot_base(slot_index),
        w.erase_to == slot_base(slot_index) + SLOT_SIZE,
        w.offset == slot_base(slot_index),
        w.blob@ == blob_of(snapshot),
{
    let addr = slot_addr(slot_index);
    let blob = snapshot.encode();
    SlotWrite { erase_from: addr, erase_to: addr + SLOT_SIZE, offset: addr, blob }
}

/// Turns the outcome of reading a slot's blob into the loaded settings: a
/// failed read loads nothing, a completed one loads what the blob decodes to.
pub fn snapshot_from_read(read: Option<[u8; BLOB_LEN]>) -> (out: Option<PointingSettingsSnapshot>)
    ensures
        out == (match read {
            None => None,
            Some(buf) => snapshot_of(buf@),
        }),
{
    match read {
        None => None,
        Some(buf) => PointingSettingsSnapshot::decode(&buf),
    }
}

/// Byte by byte, the blob of a snapshot is: `P`, `T`, `S`, `1`, version 1,
/// the cpi step, the scroll step, a flags byte with bit 0 set exactly when the
/// cursor is enabled, bit 1 exactly when the wheel is inverted, bit 2 exactly
/// when the pan is inverted and no other bit, then eight zero bytes.
pub proof fn lemma_blob_layout(s: PointingSettingsSnapshot)
    ensures
        blob_of(s).len() == 16,
        blob_of(s)[0] == 0x50 && blob_of(s)[1] == 0x54 && blob_of(s)[2] == 0x53 && blob_of(s)[3]
            == 0x31,
        blob_of(s)[4] == 1,
        blob_of(s)[5] == s.cpi_step,
        blob_of(s)[6] == s.scroll_step,
        (blob_of(s)[7] & 1 != 0) == s.cursor_enabled,
        (blob_of(s)[7] & 2 != 0) == s.scroll_invert_wheel,
        (blob_of(s)[7] & 4 != 0) == s.scroll_invert_pan,
        blob_of(s)[7] < 8,
        forall|i: int| 8 <= i < 16 ==> #[trigger] blob_of(s)[i] == 0,
{
    let b = blob_of(s);
    let c: u8 = if s.cursor_enabled { 1u8 } else { 0u8 };
    let w: u8 = if s.scroll_invert_wheel { 2u8 } else { 0u8 };
    let p: u8 = if s.scroll_invert_pan { 4u8 } else { 0u8 };
    assert(b[7] == c | w | p);
    assert(((c | w | p) & 1 != 0) == (c == 1) && ((c | w | p) & 2 != 0) == (w == 2) && ((c | w | p)
        & 4 != 0) == (p == 4) && (c | w | p) < 8) by (bit_vector)
        requires
            c == 0 || c == 1,
            w == 0 || w == 2,
            p == 0 || p == 4,
    ;
}

/// A blob decodes exactly when it starts with the bytes `P`, `T`, `S`, `1`
/// and version 1; it then gives the cpi step of byte 5, the scroll step of
/// byte 6, and the flags of bits 0 (cursor enabled), 1 (wheel inverted) and
/// 2 (pan inverted) of byte 7.
pub proof fn lemma_blob_decoding(b: Seq<u8>)
    requires
        b.len() == 16,
    ensures
        snapshot_of(b) is Some <==> (b[0] == 0x50 && b[1] == 0x54 && b[2] == 0x53 && b[3] == 0x31
            && b[4] == 1),
        snapshot_of(b) is Some ==> snapshot_of(b) == Some(
            PointingSettingsSnapshot {
                cpi_step: b[5],
                scroll_step: b[6],
                cursor_enabled: b[7] & 1 != 0,
                scroll_invert_wheel: b[7] & 2 != 0,
                scroll_invert_pan: b[7] & 4 != 0,
            },
        ),
{
    if b[0] == 0x50 && b[1] == 0x54 && b[2] == 0x53 && b[3] == 0x31 {
        assert(b.subrange(0, 4) =~= MAGIC@);
    }
    if b.subrange(0, 4) == MAGIC@ {
        assert(b.subrange(0, 4)[0] == b[0]);
        assert(b.subrange(0, 4)[1] == b[1]);
        assert(b.subrange(0, 4)[2] == b[2]);
        assert(b.subrange(0, 4)[3] == b[3]);
    }
}

/// Decoding the blob of any snapshot gives that snapshot back.
pub proof fn lemma_decode_of_encode(s: PointingSettingsSnapshot)
    ensures
        snapshot_of(blob_of(s)) == Some(s),
        has_header(blob_of(s)),
{
    let b = blob_of(s);
    assert(b.subrange(0, 4) =~= MAGIC@);
    let c: u8 = if s.cursor_enabled { 1u8 } else { 0u8 };
    let w: u8 = if s.scroll_invert_wheel { 2u8 } else { 0u8 };
    let p: u8 = if s.scroll_invert_pan { 4u8 } else { 0u8 };
    assert(b[7] == c | w | p);
    assert(((c | w | p) & 1 != 0) == (c == 1)) by (bit_vector)
        requires
            c == 0 || c == 1,
            w == 0 || w == 2,
            p == 0 || p == 4,
    ;
    assert(((c | w | p) & 2 != 0) == (w == 2)) by (bit_vector)
        requires
            c == 0 || c == 1,
            w == 0 || w == 2,
            p == 0 || p == 4,
    ;
    assert(((c | w | p) & 4 != 0) == (p == 4)) by (bit_vector)
        requires
            c == 0 || c == 1,
            w == 0 || w == 2,
            p == 0 || p == 4,
    ;
}

/// A blob that decodes re-encodes to the same tag, version and steps, and to
/// the low three bits of its flags byte; the rest of the blob is zeroed.
pub proof fn lemma_encode_of_decode(b: Seq<u8>, s: PointingSettingsSnapshot)
    requires
        snapshot_of(b) == Some(s),
    ensures
        blob_of(s).subrange(0, 7) == b.subrange(0, 7),
        blob_of(s)[7] == b[7] & 7,
        forall|i: int| 8 <= i < BLOB_LEN ==> blob_of(s)[i] == 0,
{
    assert(b.subrange(0, 4) == MAGIC@);
    assert(b[0] == b.subrange(0, 4)[0]);
    assert(b[1] == b.subrange(0, 4)[1]);
    assert(b[2] == b.subrange(0, 4)[2]);
    assert(b[3] == b.subrange(0, 4)[3]);
    assert(blob_of(s).subrange(0, 7) =~= b.subrange(0, 7));
    let f = b[7];
    assert(((if f & 1 != 0 { 1u8 } else { 0u8 }) | (if f & 2 != 0 { 2u8 } else { 0u8 }) | (if f
        & 4 != 0 { 4u8 } else { 0u8 })) == f & 7) by (bit_vector);
}

/// The two slots are consecutive 4-KiB sectors, aligned to their size, and
/// the second ends exactly where rmk's storage region starts.
pub proof fn lemma_slot_layout()
    ensures
        SLOT_SIZE == 4096,
        SLOT_1_ADDR + SLOT_SIZE == SLOT_2_ADDR,
        SLOT_2_ADDR + SLOT_SIZE == STORAGE_START,
        SLOT_1_ADDR % SLOT_SIZE == 0,
        SLOT_2_ADDR % SLOT_SIZE == 0,
        forall|i: u8| #![auto] slot_base(i) == SLOT_1_ADDR || slot_base(i) == SLOT_2_ADDR,
        forall|i: u8, j: u8|
            #![auto]
            slot_base(i) != slot_base(j) ==> (slot_base(i) + SLOT_SIZE <= slot_base(j)
                || slot_base(j) + SLOT_SIZE <= slot_base(i)),
{
}

/// Flash contents after erasing `[from, to)`: erased bytes read `0xFF`.
pub open spec fn erased(mem: Seq<u8>, from: int, to: int) -> Seq<u8> {
    Seq::new(mem.len(), |i: int| if from <= i < to { 0xFFu8 } else { mem[i] })
}

/// Flash contents after programming `bytes` at `offset` on NOR flash, where
/// programming can only clear bits.
pub open spec fn programmed(mem: Seq<u8>, offset: int, bytes: Seq<u8>) -> Seq<u8> {
    Seq::new(
        mem.len(),
        |i: int|
            if offset <= i < offset + bytes.len() {
                mem[i] & bytes[i - offset]
            } else {
                mem[i]
            },
    )
}

/// Flash contents after carrying out a planned save.
pub open spec fn after_write(mem: Seq<u8>, w: SlotWrite) -> Seq<u8> {
    programmed(erased(mem, w.erase_from as int, w.erase_to as int), w.offset as int, w.blob@)
}

/// Carrying out the save planned for any slot and snapshot, on a flash that
/// holds the slots, leaves a blob at that slot from which loading gives the
/// snapshot back, leaves the rest of the slot's sector erased, and changes no
/// byte outside that sector: the other slot and rmk's storage keep their
/// contents.
pub proof fn lemma_load_after_save(
    mem: Seq<u8>,
    slot_index: u8,
    snapshot: PointingSettingsSnapshot,
    w: SlotWrite,
)
    requires
        mem.len() >= STORAGE_START,
        w.erase_from == slot_base(slot_index),
        w.erase_to == slot_base(slot_index) + SLOT_SIZE,
        w.offset == slot_base(slot_index),
        w.blob@ == blob_of(snapshot),
    ensures
        after_write(mem, w).len() == mem.len(),
        after_write(mem, w).subrange(
            slot_base(slot_index) as int,
            slot_base(slot_index) + BLOB_LEN,
        ) == blob_of(snapshot),
        snapshot_of(
            after_write(mem, w).subrange(
                slot_base(slot_index) as int,
                slot_base(slot_index) + BLOB_LEN,
            ),
        ) == Some(snapshot),
        forall|i: int|
            slot_base(slot_index) + BLOB_LEN <= i < slot_base(slot_index) + SLOT_SIZE
                ==> #[trigger] after_write(mem, w)[i] == 0xFF,
        forall|i: int|
            0 <= i < mem.len() && !(slot_base(slot_index) <= i < slot_base(slot_index) + SLOT_SIZE)
                ==> #[trigger] after_write(mem, w)[i] == mem[i],
{
    let base = slot_base(slot_index) as int;
    let m = after_write(mem, w);
    let blob = blob_of(snapshot);
    assert forall|k: int| 0 <= k < BLOB_LEN implies #[trigger] m.subrange(base, base + BLOB_LEN)[k]
        == blob[k] by {
        let x = blob[k];
        assert(0xFFu8 & x == x) by (bit_vector);
        assert(m[base + k] == 0xFFu8 & x);
    }
    assert(m.subrange(base, base + BLOB_LEN) =~= blob);
    lemma_decode_of_encode(snapshot);
}

} // verus!
