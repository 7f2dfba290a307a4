//! Where free memory starts.

use vstd::prelude::*;

verus! {

/// Size of a page in bytes.
pub const PAGE_SIZE: usize = 0x1000;

/// The first page boundary at or after `address`.
pub open spec fn page_align_up(address: int) -> int {
    if address % (PAGE_SIZE as int) == 0 {
        address
    } else {
        address + PAGE_SIZE - address % (PAGE_SIZE as int)
    }
}

/// The first page after the boot information, which lies at `mbi` and is
/// `total_size` bytes long: the first page boundary at or after its end.
/// `None` where that lies beyond the address space.
pub fn init(mbi: usize, total_size: u32) -> (first_page: Option<usize>)
    ensures
        first_page == if page_align_up(mbi + total_size) <= usize::MAX {
            Some(page_align_up(mbi + total_size) as usize)
        } else {
            None::<usize>
        },
{
    let mbi_end = match mbi.checked_add(total_size as usize) {
        Some(end) => end,
        None => return None,
    };
    let over = mbi_end % PAGE_SIZE;
    if over == 0 {
        Some(mbi_end)
    } else {
        mbi_end.checked_add(PAGE_SIZE - over)
    }
}

} // verus!
