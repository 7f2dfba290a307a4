//! The PCI bus: how the configuration space is addressed and what a scan of
//! the bus looks at.
//!
//! A word of configuration space is read by writing an address to port
//! `0xCF8` and reading port `0xCFC`. The port accesses are left to the
//! caller; here are the address to write, the word to take from what was
//! read, and the order in which a scan visits the slots.

use bit_field::BitField;
use vstd::prelude::*;

verus! {

/// The port the address of a configuration word is written to.
pub const CONFIG_ADDRESS: u16 = 0xCF8;

/// The port the configuration word is then read from.
pub const CONFIG_DATA: u16 = 0xCFC;

/// What a read of the vendor word gives where no device answers.
pub const NO_DEVICE: u16 = 0xFFFF;

/// Offset of the vendor word.
pub const VENDOR_OFFSET: u8 = 0;

/// Offset of the device word.
pub const DEVICE_OFFSET: u8 = 2;

/// Offset of the word that holds the header type.
pub const HEADER_OFFSET: u8 = 0xe;

/// Number of buses a full scan visits.
pub const BUSES: u8 = 255;

/// Number of slots on a bus.
pub const SLOTS: u8 = 32;

/// The address to write for the word at `offset` in the configuration space
/// of function `func` of device `device` on bus `bus`.
pub open spec fn spec_config_address(bus: u8, device: u8, func: u8, offset: u8) -> u32 {
    0x8000_0000u32 | (bus as u32) << 16 | (device as u32) << 11 | (func as u32) << 8 | (offset
        & 0xFC) as u32
}

/// The word at `offset` in the double word that was read for it: the high
/// half where bit 1 of the offset is set, the low half otherwise.
pub open spec fn spec_config_word(data: u32, offset: u8) -> u16 {
    if offset & 2 == 0 {
        (data % 0x1_0000) as u16
    } else {
        (data / 0x1_0000) as u16
    }
}

/// The address to write to `CONFIG_ADDRESS` for the word at `offset` in the
/// configuration space of function `func` of device `device` on bus `bus`.
pub fn config_address(bus: u8, device: u8, func: u8, offset: u8) -> (address: u32)
    ensures
        address == spec_config_address(bus, device, func, offset),
{
    0x8000_0000u32 | (bus as u32) << 16 | (device as u32) << 11 | (func as u32) << 8 | (offset
        & 0xFC) as u32
}

/// The word at `offset` in the double word `data` read from `CONFIG_DATA`.
pub fn config_word(data: u32, offset: u8) -> (word: u16)
    ensures
        word == spec_config_word(data, offset),
{
    let half = offset & 2;
    assert(half == 0 || half == 2) by (bit_vector)
        requires
            half == offset & 2,
    ;
    let shift = (half as u32) * 8;
    let word = (data >> shift) as u16;
    assert(word == spec_config_word(data, offset)) by (bit_vector)
        requires
            half == offset & 2,
            half == 0 || half == 2,
            shift == (half as u32) * 8,
            word == (data >> shift) as u16,
    ;
    word
}

/// The vendor of a device, given the vendor word read from its slot; `None`
/// where the word says that no device answered.
pub fn check_vendor(vendor: u16) -> (present: Option<u16>)
    ensures
        present == if vendor != NO_DEVICE {
            Some(vendor)
        } else {
            None::<u16>
        },
{
    if vendor != NO_DEVICE {
        return Some(vendor);
    }
    return None;
}

/// Whether bit `bit` of `value` is set, bit 0 being the least significant.
pub open spec fn bit_is_set(value: u16, bit: usize) -> bool {
    value & (1u16 << bit) != 0
}

/// `bit_field::BitField::get_bit` on a `u16`. The call panics for a bit index
/// of 16 or more; below that it tests the word against a mask with that one
/// bit set.
#[verifier::external_body]
fn get_bit(value: u16, bit: usize) -> (set: bool)
    requires
        bit < 16,
    ensures
        set == bit_is_set(value, bit),
{
    value.get_bit(bit)
}

/// A device found by a scan.
#[derive(Clone, Copy, Debug, PartialEq, Eq, Structural)]
pub struct Device {
    pub bus: u8,
    pub slot: u8,
    pub vendor: u16,
    pub device: u16,
    pub header_type: u16,
    /// Whether the device has more than one function: bit 7 of the header
    /// type.
    pub multi_function: bool,
}

/// What a scan notes of the slot `slot` on bus `bus`, given the three words
/// read from it: nothing where the vendor word says that no device answered.
pub fn check_device(bus: u8, slot: u8, vendor: u16, device: u16, header_type: u16) -> (found:
    Option<Device>)
    ensures
        found == if vendor != NO_DEVICE {
            Some(
                Device {
                    bus,
                    slot,
                    vendor,
                    device,
                    header_type,
                    multi_function: header_type & 0x80 != 0,
                },
            )
        } else {
            None::<Device>
        },
{
    if let Some(vendor) = check_vendor(vendor) {
        let multi_function = get_bit(header_type, 7);
        assert(bit_is_set(header_type, 7usize) == (header_type & 0x80 != 0)) by (bit_vector);
        Some(Device { bus, slot, vendor, device, header_type, multi_function })
    } else {
        None
    }
}

/// A scan under way: the slots still to visit.
pub struct Scan {
    bus: u16,
    slot: u8,
    end: u16,
}

impl Scan {
    #[verifier::type_invariant]
    spec fn well_formed(self) -> bool {
        self.slot < SLOTS && self.bus <= self.end <= 256
    }

    /// The slots still to visit, as pairs of bus and slot, in the order of
    /// the visit: bus by bus, and on each bus slot by slot.
    pub closed spec fn remaining(self) -> Seq<(u8, u8)> {
        slots_between(self.bus as int, self.slot as int, self.end as int)
    }

    /// The next slot to visit, as bus and slot; `None` when the scan is
    /// over.
    pub fn next(&mut self) -> (visit: Option<(u8, u8)>)
        ensures
            old(self).remaining().len() == 0 ==> {
                &&& visit is None
                &&& final(self).remaining() == old(self).remaining()
            },
            old(self).remaining().len() > 0 ==> {
                &&& visit == Some(old(self).remaining()[0])
                &&& final(self).remaining() == old(self).remaining().drop_first()
            },
    {
        proof {
            use_type_invariant(&*self);
        }
        if self.bus >= self.end {
            return None;
        }
        let visit = (self.bus as u8, self.slot);
        let ghost before = self.remaining();
        proof {
            lemma_slots_between_step(self.bus as int, self.slot as int, self.end as int);
        }
        if self.slot + 1 < SLOTS {
            self.slot += 1;
        } else {
            *self = Scan { bus: self.bus + 1, slot: 0, end: self.end };
        }
        Some(visit)
    }
}

/// The slots from slot `slot` of bus `bus` up to the last slot of bus
/// `end - 1`, bus by bus and slot by slot.
pub open spec fn slots_between(bus: int, slot: int, end: int) -> Seq<(u8, u8)>
    decreases (end - bus) * SLOTS - slot,
{
    if bus >= end || slot < 0 || slot >= SLOTS || bus < 0 || end > 256 {
        Seq::empty()
    } else if slot + 1 < SLOTS {
        seq![(bus as u8, slot as u8)] + slots_between(bus, slot + 1, end)
    } else {
        seq![(bus as u8, slot as u8)] + slots_between(bus + 1, 0, end)
    }
}

/// The first of the slots to visit is the one the scan stands at, and the
/// rest are the slots from the next one on.
proof fn lemma_slots_between_step(bus: int, slot: int, end: int)
    requires
        0 <= bus < end <= 256,
        0 <= slot < SLOTS,
    ensures
        slots_between(bus, slot, end).len() > 0,
        slots_between(bus, slot, end)[0] == (bus as u8, slot as u8),
        slots_between(bus, slot, end).drop_first() == if slot + 1 < SLOTS {
            slots_between(bus, slot + 1, end)
        } else {
            slots_between(bus + 1, 0, end)
        },
{
    let rest = if slot + 1 < SLOTS {
        slots_between(bus, slot + 1, end)
    } else {
        slots_between(bus + 1, 0, end)
    };
    assert(slots_between(bus, slot, end) == seq![(bus as u8, slot as u8)] + rest);
    assert((seq![(bus as u8, slot as u8)] + rest).drop_first() =~= rest);
}

/// The scan of one bus: its 32 slots in order.
pub fn check_bus(bus: u8) -> (scan: Scan)
    ensures
        scan.remaining() == slots_between(bus as int, 0, bus + 1),
{
    Scan { bus: bus as u16, slot: 0, end: bus as u16 + 1 }
}

/// The scan of every bus from 0 to 254: on each its 32 slots in order.
pub fn brute_force() -> (scan: Scan)
    ensures
        scan.remaining() == slots_between(0, 0, BUSES as int),
{
    Scan { bus: 0, slot: 0, end: BUSES as u16 }
}

} // verus!
