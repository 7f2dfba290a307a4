//! The segment descriptor table and the task state record.
//!
//! The task state record gives the double fault handler a stack of its own,
//! so that a fault taken on a broken stack can still be reported. The
//! descriptor table holds the kernel's code segment and the descriptor of the
//! task state record. Loading either into the CPU is left to the caller.

use vstd::prelude::*;
use x86_64::structures::gdt::{Descriptor, GlobalDescriptorTable};
use x86_64::VirtAddr;

verus! {

/// The slot of the interrupt stack table that holds the double fault's stack.
pub const DOUBLE_FAULT_IST_INDEX: u16 = 0;

/// Size of the double fault's stack in bytes.
pub const DOUBLE_FAULT_STACK_SIZE: usize = 4096 * 16;

/// Number of 64-bit words a descriptor table has room for.
pub const GDT_WORDS: usize = 8;

/// The descriptor of a 64-bit kernel code segment.
pub const KERNEL_CODE64: u64 = 0x00af_9b00_0000_ffff;

/// The bits of a descriptor's first word that hold its privilege level.
pub const DPL_MASK: u64 = 0x6000_0000_0000;

/// The 64-bit mode global descriptor table of the `x86_64` crate.
#[verifier::external_type_specification]
#[verifier::external_body]
pub struct ExGlobalDescriptorTable(GlobalDescriptorTable);

/// The words a descriptor table holds, the null descriptor first.
pub uninterp spec fn gdt_entries(gdt: GlobalDescriptorTable) -> Seq<u64>;

/// A segment descriptor: one word for a code or data segment, two for a
/// system segment such as the task state record's.
#[derive(Clone, Copy, Debug, PartialEq, Eq, Structural)]
pub enum SegmentDescriptor {
    User(u64),
    System(u64, u64),
}

impl SegmentDescriptor {
    /// The words of the descriptor, in table order.
    pub open spec fn words(self) -> Seq<u64> {
        match self {
            SegmentDescriptor::User(value) => seq![value],
            SegmentDescriptor::System(low, high) => seq![low, high],
        }
    }

    /// The privilege level of the descriptor: bits 45 and 46 of its first
    /// word.
    pub open spec fn dpl(self) -> u16 {
        ((self.words()[0] & DPL_MASK) >> 45) as u16
    }
}

/// The selector of the descriptor at word `index` of the table, for requested
/// privilege level `rpl`.
pub open spec fn selector_bits(index: u16, rpl: u16) -> u16 {
    index << 3 | rpl
}

/// `x86_64::structures::gdt::GlobalDescriptorTable::new`: a table that holds
/// the null descriptor and nothing else.
#[verifier::external_body]
fn gdt_new() -> (gdt: GlobalDescriptorTable)
    ensures
        gdt_entries(gdt) == seq![0u64],
{
    GlobalDescriptorTable::new()
}

/// `GlobalDescriptorTable::add_entry`. The call panics where the table has no
/// room left for the descriptor's words. Otherwise it appends them and
/// returns the selector made of the index of the first appended word and the
/// descriptor's privilege level.
#[verifier::external_body]
fn gdt_add_entry(gdt: &mut GlobalDescriptorTable, entry: SegmentDescriptor) -> (selector: u16)
    requires
        gdt_entries(*old(gdt)).len() + entry.words().len() <= GDT_WORDS,
    ensures
        gdt_entries(*final(gdt)) == gdt_entries(*old(gdt)) + entry.words(),
        selector == selector_bits(gdt_entries(*old(gdt)).len() as u16, entry.dpl()),
{
    let descriptor = match entry {
        SegmentDescriptor::User(value) => Descriptor::UserSegment(value),
        SegmentDescriptor::System(low, high) => Descriptor::SystemSegment(low, high),
    };
    gdt.add_entry(descriptor).0
}

/// `GlobalDescriptorTable::as_raw_slice`: the words the table holds.
#[verifier::external_body]
fn gdt_as_raw_slice(gdt: &GlobalDescriptorTable) -> (words: Vec<u64>)
    ensures
        words@ == gdt_entries(*gdt),
{
    gdt.as_raw_slice().to_vec()
}

/// `x86_64::structures::gdt::Descriptor::kernel_code_segment`: the one-word
/// descriptor of a 64-bit kernel code segment.
#[verifier::external_body]
fn kernel_code_segment() -> (descriptor: SegmentDescriptor)
    ensures
        descriptor == SegmentDescriptor::User(KERNEL_CODE64),
{
    match Descriptor::kernel_code_segment() {
        Descriptor::UserSegment(value) => SegmentDescriptor::User(value),
        Descriptor::SystemSegment(low, high) => SegmentDescriptor::System(low, high),
    }
}

/// The canonical form of a virtual address. Bits 47 to 63 of a canonical
/// address are all equal. An address with bit 47 set and nothing above it
/// gets the bits above set; any other address with differing bits has no
/// canonical form.
pub open spec fn canonical_form(addr: u64) -> Option<u64> {
    let top = addr >> 47;
    if top == 0 || top == 0x1ffff {
        Some(addr)
    } else if top == 1 {
        Some(addr | 0xffff_0000_0000_0000)
    } else {
        None
    }
}

/// `x86_64::VirtAddr::try_new`: the canonical form of an address, `None`
/// where bits 48 to 63 hold anything but zeros or a copy of bit 47.
#[verifier::external_body]
fn canonical(addr: u64) -> (form: Option<u64>)
    ensures
        form == canonical_form(addr),
{
    match VirtAddr::try_new(addr) {
        Ok(form) => Some(form.as_u64()),
        Err(_) => None,
    }
}

/// The selectors of the two segments this kernel has.
#[derive(Clone, Copy, Debug, PartialEq, Eq, Structural)]
pub struct Selectors {
    /// The kernel's code segment.
    pub code: u16,
    /// The task state record.
    pub tss: u16,
}

/// Builds the descriptor table: the null descriptor, the kernel's code
/// segment, and `tss`, the descriptor of the task state record. Returns the
/// table with the selectors of the two segments.
pub fn init_gdt(tss: SegmentDescriptor) -> (built: (GlobalDescriptorTable, Selectors))
    ensures
        gdt_entries(built.0) == seq![0u64, KERNEL_CODE64] + tss.words(),
        built.1.code == 8,
        built.1.tss == selector_bits(2, tss.dpl()),
{
    let mut gdt = gdt_new();
    let code = gdt_add_entry(&mut gdt, kernel_code_segment());
    let tss_selector = gdt_add_entry(&mut gdt, tss);
    proof {
        let code_word = SegmentDescriptor::User(KERNEL_CODE64).words()[0];
        assert(selector_bits(1u16, ((code_word & DPL_MASK) >> 45) as u16) == 8) by (bit_vector)
            requires
                code_word == KERNEL_CODE64,
        ;
        assert(gdt_entries(gdt) =~= seq![0u64, KERNEL_CODE64] + tss.words());
    }
    (gdt, Selectors { code, tss: tss_selector })
}

/// The words a descriptor table holds, the null descriptor first.
pub fn descriptor_words(gdt: &GlobalDescriptorTable) -> (words: Vec<u64>)
    ensures
        words@ == gdt_entries(*gdt),
{
    gdt_as_raw_slice(gdt)
}

/// A stack: the addresses from `start` up to `top`.
#[derive(Clone, Copy, Debug, PartialEq, Eq, Structural)]
pub struct StackRegion {
    /// The lowest address of the stack.
    pub start: u64,
    /// The address just above the stack, where the stack pointer starts.
    pub top: u64,
}

impl StackRegion {
    /// Whether a stack pointer lies in the region.
    pub open spec fn spec_contains(self, stack_pointer: u64) -> bool {
        self.start <= stack_pointer <= self.top
    }

    /// Whether a stack pointer lies in the region.
    pub fn contains(&self, stack_pointer: u64) -> (inside: bool)
        ensures
            inside == self.spec_contains(stack_pointer),
    {
        self.start <= stack_pointer && stack_pointer <= self.top
    }
}

/// The double fault's stack where its memory starts at `stack_start`: the
/// canonical form of the start, and `DOUBLE_FAULT_STACK_SIZE` bytes above it
/// the top. `None` where an address has no canonical form or the top lies
/// beyond the address space.
pub open spec fn double_fault_region(stack_start: u64) -> Option<StackRegion> {
    match canonical_form(stack_start) {
        Some(start) => if start + DOUBLE_FAULT_STACK_SIZE > u64::MAX {
            None
        } else {
            match canonical_form((start + DOUBLE_FAULT_STACK_SIZE) as u64) {
                Some(top) => Some(StackRegion { start, top }),
                None => None,
            }
        },
        None => None,
    }
}

/// The double fault's stack where its memory starts at `stack_start`.
pub fn double_fault_stack(stack_start: u64) -> (region: Option<StackRegion>)
    ensures
        region == double_fault_region(stack_start),
{
    let start = match canonical(stack_start) {
        Some(start) => start,
        None => return None,
    };
    let sum = match start.checked_add(DOUBLE_FAULT_STACK_SIZE as u64) {
        Some(sum) => sum,
        None => return None,
    };
    match canonical(sum) {
        Some(top) => Some(StackRegion { start, top }),
        None => None,
    }
}

/// The task state record: the stacks the CPU switches to by itself.
#[derive(Clone, Copy, Debug, PartialEq, Eq)]
pub struct TaskStateRecord {
    /// The interrupt stack table: for each slot the top of its stack, 0
    /// while the slot is unused.
    pub interrupt_stack_table: [u64; 7],
}

/// Builds the task state record for a double fault stack whose memory starts
/// at `stack_start`: slot `DOUBLE_FAULT_IST_INDEX` of the interrupt stack
/// table holds the top of that stack, every other slot is unused. `None`
/// where the stack does not fit the address space.
pub fn init_tss(stack_start: u64) -> (tss: Option<TaskStateRecord>)
    ensures
        tss is Some <==> double_fault_region(stack_start) is Some,
        tss matches Some(record) ==> record.interrupt_stack_table@ == Seq::new(
            7,
            |slot: int|
                if slot == DOUBLE_FAULT_IST_INDEX {
                    double_fault_region(stack_start)->0.top
                } else {
                    0
                },
        ),
{
    match double_fault_stack(stack_start) {
        Some(region) => {
            let mut interrupt_stack_table = [0u64;7];
            interrupt_stack_table[DOUBLE_FAULT_IST_INDEX as usize] = region.top;
            assert(interrupt_stack_table@ =~= Seq::new(
                7,
                |slot: int|
                    if slot == DOUBLE_FAULT_IST_INDEX {
                        region.top
                    } else {
                        0
                    },
            ));
            Some(TaskStateRecord { interrupt_stack_table })
        },
        None => None,
    }
}

} // verus!
