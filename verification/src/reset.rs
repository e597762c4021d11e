//! The flash plan of the reset firmware: erase rmk storage (6 sectors at
//! 0x`A0000`) and the pointing-device slots (2 sectors at 0x`9E000`) page by
//! page, so that the next firmware boots with its compile-time defaults, then
//! ask the bootloader for UF2 DFU mode.

use vstd::prelude::*;
use crate::pointing_slots::{SLOT_1_ADDR, SLOT_2_ADDR, SLOT_SIZE, STORAGE_START};

verus! {

/// Size of a flash page of the nRF52840.
pub const PAGE_SIZE: u32 = 0x1000;

/// First address erased.
pub const ERASE_START: u32 = 0x9_E000;

/// First address past the erased region.
pub const ERASE_END: u32 = 0xA_6000;

/// Number of sectors of rmk's storage region.
pub const STORAGE_SECTORS: u32 = 6;

/// Value for GPREGRET that makes the Adafruit nRF52 bootloader enter UF2 DFU
/// mode on the next boot.
pub const DFU_MAGIC_UF2_RESET: u32 = 0x57;

/// Number of pages in the erased region.
pub open spec fn page_count() -> nat {
    ((ERASE_END - ERASE_START) / PAGE_SIZE as int) as nat
}

/// The pages erased, in order: one per page from `ERASE_START` up to `ERASE_END`.
pub open spec fn reset_pages() -> Seq<u32> {
    Seq::new(page_count(), |i: int| (ERASE_START + i * PAGE_SIZE) as u32)
}

/// The addresses of the pages that the reset erases, lowest first.
pub fn erase_pages() -> (pages: Vec<u32>)
    ensures
        pages@ == reset_pages(),
{
    let mut pages: Vec<u32> = Vec::new();
    let mut addr: u32 = ERASE_START;
    while addr < ERASE_END
        invariant
            addr == ERASE_START + pages.len() * PAGE_SIZE,
            addr <= ERASE_END,
            pages.len() <= page_count(),
            forall|i: int| 0 <= i < pages.len() ==> pages@[i] == reset_pages()[i],
        decreases ERASE_END - addr,
    {
        pages.push(addr);
        addr = addr + PAGE_SIZE;
    }
    assert(pages@ =~= reset_pages());
    pages
}

/// Whether address `a` lies in one of the pages that the reset erases.
pub open spec fn erased_by_reset(a: int) -> bool {
    exists|i: int|
        0 <= i < reset_pages().len() && #[trigger] reset_pages()[i] <= a < reset_pages()[i]
            + PAGE_SIZE
}

/// Every erased page is page-aligned, the pages are distinct, and together
/// they cover exactly the region `[ERASE_START, ERASE_END)`.
pub proof fn lemma_pages_cover_region()
    ensures
        forall|i: int| 0 <= i < reset_pages().len() ==> #[trigger] reset_pages()[i] % PAGE_SIZE == 0,
        forall|i: int, j: int|
            0 <= i < j < reset_pages().len() ==> reset_pages()[i] < reset_pages()[j],
        forall|a: int| ERASE_START <= a < ERASE_END ==> #[trigger] erased_by_reset(a),
        forall|i: int|
            0 <= i < reset_pages().len() ==> ERASE_START <= #[trigger] reset_pages()[i]
                && reset_pages()[i] + PAGE_SIZE <= ERASE_END,
{
    assert forall|a: int| ERASE_START <= a < ERASE_END implies #[trigger] erased_by_reset(a) by {
        let i = (a - ERASE_START) / PAGE_SIZE as int;
        assert(reset_pages()[i] <= a < reset_pages()[i] + PAGE_SIZE);
    }
}

/// Address of sector `k` of rmk's storage region.
pub open spec fn storage_sector(k: int) -> u32 {
    (STORAGE_START + k * PAGE_SIZE) as u32
}

/// The reset erases both pointing-device slots and every sector of rmk's
/// storage region.
pub proof fn lemma_reset_erases_slots_and_storage()
    ensures
        reset_pages().contains(SLOT_1_ADDR),
        reset_pages().contains(SLOT_2_ADDR),
        SLOT_SIZE == PAGE_SIZE,
        forall|k: int|
            0 <= k < STORAGE_SECTORS ==> reset_pages().contains(#[trigger] storage_sector(k)),
{
    assert(reset_pages()[0] == SLOT_1_ADDR);
    assert(reset_pages()[1] == SLOT_2_ADDR);
    assert forall|k: int| 0 <= k < STORAGE_SECTORS implies reset_pages().contains(
        #[trigger] storage_sector(k),
    ) by {
        assert(reset_pages()[k + 2] == storage_sector(k));
    }
}

} // verus!
