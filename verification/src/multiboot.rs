//! The boot information a Multiboot2 loader leaves in memory.
//!
//! The information is a run of tags after a header of two words. Each tag
//! starts on an 8-byte boundary with its type and its size, header included,
//! both little-endian words; a tag of type 0 ends the run. [`BootInformation::load`]
//! checks the whole run once, so that walking it afterwards cannot fail.

use vstd::prelude::*;
use vstd::slice::slice_subrange;

verus! {

/// Size of the header of the boot information and of the header of a tag.
pub const HEADER_SIZE: usize = 8;

/// Size of one entry of the memory map.
pub const MEMORY_MAP_ENTRY_SIZE: usize = 24;

/// Size of one ELF section header.
pub const ELF_SECTION_SIZE: usize = 64;

/// Size of the fixed part of the frame buffer tag.
pub const FRAME_BUFFER_FIXED: usize = 23;

/// Size of the APM table.
pub const APM_TABLE_SIZE: usize = 20;

/// The little-endian 16-bit number at `at`.
pub open spec fn le_u16(bytes: Seq<u8>, at: int) -> u16 {
    (bytes[at] + bytes[at + 1] * 0x100) as u16
}

/// The little-endian 32-bit number at `at`.
pub open spec fn le_u32(bytes: Seq<u8>, at: int) -> u32 {
    (le_u16(bytes, at) + le_u16(bytes, at + 2) * 0x1_0000) as u32
}

/// The little-endian 64-bit number at `at`.
pub open spec fn le_u64(bytes: Seq<u8>, at: int) -> u64 {
    (le_u32(bytes, at) + le_u32(bytes, at + 4) * 0x1_0000_0000) as u64
}

/// Reads the little-endian 16-bit number at `at`.
pub fn read_u16(bytes: &[u8], at: usize) -> (value: u16)
    requires
        at + 2 <= bytes.len(),
    ensures
        value == le_u16(bytes@, at as int),
{
    bytes[at] as u16 + bytes[at + 1] as u16 * 0x100
}

/// Reads the little-endian 32-bit number at `at`.
pub fn read_u32(bytes: &[u8], at: usize) -> (value: u32)
    requires
        at + 4 <= bytes.len(),
    ensures
        value == le_u32(bytes@, at as int),
{
    read_u16(bytes, at) as u32 + read_u16(bytes, at + 2) as u32 * 0x1_0000
}

/// Reads the little-endian 64-bit number at `at`.
pub fn read_u64(bytes: &[u8], at: usize) -> (value: u64)
    requires
        at + 8 <= bytes.len(),
    ensures
        value == le_u64(bytes@, at as int),
{
    read_u32(bytes, at) as u64 + read_u32(bytes, at + 4) as u64 * 0x1_0000_0000
}

/// Memory below and above the first megabyte, in kilobytes.
#[derive(Clone, Copy, Debug, PartialEq, Eq, Structural)]
pub struct BasicMemInfo {
    pub mem_lower: u32,
    pub mem_upper: u32,
}

/// The BIOS disk the loader booted from.
#[derive(Clone, Copy, Debug, PartialEq, Eq, Structural)]
pub struct BIOSBootDevice {
    pub biosdev: u32,
    pub partition: u32,
    pub sub_partition: u32,
}

/// One area of the memory map.
#[derive(Clone, Copy, Debug, PartialEq, Eq, Structural)]
pub struct MemoryMapEntry {
    pub base_addr: u64,
    pub length: u64,
    pub type_: u32,
}

/// The physical address the image was loaded at.
#[derive(Clone, Copy, Debug, PartialEq, Eq, Structural)]
pub struct ImageLoadBase {
    pub load_base_addr: u32,
}

/// The table of the advanced power management BIOS.
#[derive(Clone, Copy, Debug, PartialEq, Eq, Structural)]
pub struct APMTable {
    pub version: u16,
    pub cseg: u16,
    pub offset: u32,
    pub cseg_16: u16,
    pub dseg: u16,
    pub flags: u16,
    pub cseg_len: u16,
    pub cseg_16_len: u16,
    pub dseg_len: u16,
}

/// One section header of the kernel's ELF image.
#[derive(Clone, Copy, Debug, PartialEq, Eq, Structural)]
pub struct ElfSection {
    /// Offset of the section's name in the section of names.
    pub name: u32,
    /// The type of the section.
    pub type_: u32,
    /// The attributes of the section.
    pub flags: u64,
    /// The address of the section in memory, for sections that are loaded.
    pub addr: u64,
    /// Offset of the section in the file.
    pub offset: u64,
    /// Size of the section in the file.
    pub size: u64,
    /// The index of an associated section.
    pub link: u32,
    /// More about the section.
    pub info: u32,
    /// The alignment of the section.
    pub addr_align: u64,
    /// Size of an entry, for sections of entries of one size.
    pub entsize: u64,
}

/// The memory map: the areas of memory and what each may be used for.
#[derive(Clone, Copy, Debug)]
pub struct MemoryMap<'a> {
    pub entry_size: u32,
    pub entry_version: u32,
    /// The entries, 24 bytes each.
    pub entries: &'a [u8],
}

/// The frame buffer the loader set up.
#[derive(Clone, Copy, Debug)]
pub struct FrameBufferInfo<'a> {
    pub framebuffer_addr: u64,
    pub framebuffer_pitch: u32,
    pub framebuffer_width: u32,
    pub framebuffer_height: u32,
    pub framebuffer_bpp: u8,
    pub framebuffer_type: u8,
    /// What follows the fixed part: how colors are encoded.
    pub color_info: &'a [u8],
}

/// The section headers of the kernel's ELF image.
#[derive(Clone, Copy, Debug)]
pub struct ElfSymbol<'a> {
    pub num: u16,
    pub entsize: u16,
    pub shndx: u16,
    /// The bytes after the tag's four 16-bit fields.
    pub section_headers: &'a [u8],
}

/// One tag of the boot information.
#[derive(Clone, Copy, Debug)]
pub enum Tag<'a> {
    End,
    /// The command line, with its terminating zero.
    BootCommandLine(&'a [u8]),
    /// The name of the loader, with its terminating zero.
    BootLoaderName(&'a [u8]),
    BasicMemInfo(BasicMemInfo),
    BIOSBootDevice(BIOSBootDevice),
    MemoryMap(MemoryMap<'a>),
    FrameBufferInfo(FrameBufferInfo<'a>),
    ElfSymbol(ElfSymbol<'a>),
    APMTable(APMTable),
    ACPIOldRSDP(&'a [u8]),
    ACPINewRSDP(&'a [u8]),
    NetworkInfo(&'a [u8]),
    ImageLoadBase(ImageLoadBase),
    /// Any other tag, with its type and its bytes.
    Unknown(u32, &'a [u8]),
}

/// A tag with the bytes it refers to.
pub enum TagView {
    End,
    BootCommandLine(Seq<u8>),
    BootLoaderName(Seq<u8>),
    BasicMemInfo(BasicMemInfo),
    BIOSBootDevice(BIOSBootDevice),
    MemoryMap { entry_size: u32, entry_version: u32, entries: Seq<u8> },
    FrameBufferInfo {
        framebuffer_addr: u64,
        framebuffer_pitch: u32,
        framebuffer_width: u32,
        framebuffer_height: u32,
        framebuffer_bpp: u8,
        framebuffer_type: u8,
        color_info: Seq<u8>,
    },
    ElfSymbol { num: u16, entsize: u16, shndx: u16, section_headers: Seq<u8> },
    APMTable(APMTable),
    ACPIOldRSDP(Seq<u8>),
    ACPINewRSDP(Seq<u8>),
    NetworkInfo(Seq<u8>),
    ImageLoadBase(ImageLoadBase),
    Unknown(u32, Seq<u8>),
}

impl<'a> View for Tag<'a> {
    type V = TagView;

    open spec fn view(&self) -> TagView {
        match *self {
            Tag::End => TagView::End,
            Tag::BootCommandLine(s) => TagView::BootCommandLine(s@),
            Tag::BootLoaderName(s) => TagView::BootLoaderName(s@),
            Tag::BasicMemInfo(info) => TagView::BasicMemInfo(info),
            Tag::BIOSBootDevice(device) => TagView::BIOSBootDevice(device),
            Tag::MemoryMap(map) => TagView::MemoryMap {
                entry_size: map.entry_size,
                entry_version: map.entry_version,
                entries: map.entries@,
            },
            Tag::FrameBufferInfo(info) => TagView::FrameBufferInfo {
                framebuffer_addr: info.framebuffer_addr,
                framebuffer_pitch: info.framebuffer_pitch,
                framebuffer_width: info.framebuffer_width,
                framebuffer_height: info.framebuffer_height,
                framebuffer_bpp: info.framebuffer_bpp,
                framebuffer_type: info.framebuffer_type,
                color_info: info.color_info@,
            },
            Tag::ElfSymbol(elf) => TagView::ElfSymbol {
                num: elf.num,
                entsize: elf.entsize,
                shndx: elf.shndx,
                section_headers: elf.section_headers@,
            },
            Tag::APMTable(table) => TagView::APMTable(table),
            Tag::ACPIOldRSDP(s) => TagView::ACPIOldRSDP(s@),
            Tag::ACPINewRSDP(s) => TagView::ACPINewRSDP(s@),
            Tag::NetworkInfo(s) => TagView::NetworkInfo(s@),
            Tag::ImageLoadBase(base) => TagView::ImageLoadBase(base),
            Tag::Unknown(type_, s) => TagView::Unknown(type_, s@),
        }
    }
}

/// The first 8-byte boundary at or after `i`.
pub open spec fn align8(i: int) -> int {
    if i % 8 == 0 {
        i
    } else {
        i + 8 - i % 8
    }
}

/// The header of a tag: its type and where its payload lies.
pub struct TagHeader {
    pub type_: u32,
    pub start: int,
    pub len: int,
}

/// The header of the tag at or after `i` in the run `tags`; `None` where
/// the run ends before the header does, or the tag's size is less than its
/// header's or reaches beyond the run.
pub open spec fn header_at(tags: Seq<u8>, i: int) -> Option<TagHeader> {
    let at = align8(i);
    let size = le_u32(tags, at + 4);
    if i < 0 || at + HEADER_SIZE > tags.len() || size < HEADER_SIZE || at + size > tags.len() {
        None
    } else {
        Some(TagHeader { type_: le_u32(tags, at), start: at + HEADER_SIZE, len: size - HEADER_SIZE })
    }
}

/// The least payload a tag of type `type_` must have to be read.
pub open spec fn least_payload(type_: u32) -> int {
    if type_ == 4 {
        8
    } else if type_ == 5 {
        12
    } else if type_ == 6 {
        8
    } else if type_ == 8 {
        FRAME_BUFFER_FIXED as int
    } else if type_ == 9 {
        8
    } else if type_ == 10 {
        APM_TABLE_SIZE as int
    } else if type_ == 21 {
        4
    } else {
        0
    }
}

/// The tag of type `type_` whose payload is `payload`. Type 16 has no
/// reading of its own and is taken as unknown, like every type not listed.
pub open spec fn tag_of(type_: u32, payload: Seq<u8>) -> TagView {
    if type_ == 0 {
        TagView::End
    } else if type_ == 1 {
        TagView::BootCommandLine(payload)
    } else if type_ == 2 {
        TagView::BootLoaderName(payload)
    } else if type_ == 4 {
        TagView::BasicMemInfo(
            BasicMemInfo { mem_lower: le_u32(payload, 0), mem_upper: le_u32(payload, 4) },
        )
    } else if type_ == 5 {
        TagView::BIOSBootDevice(
            BIOSBootDevice {
                biosdev: le_u32(payload, 0),
                partition: le_u32(payload, 4),
                sub_partition: le_u32(payload, 8),
            },
        )
    } else if type_ == 6 {
        TagView::MemoryMap {
            entry_size: le_u32(payload, 0),
            entry_version: le_u32(payload, 4),
            entries: payload.skip(8),
        }
    } else if type_ == 8 {
        TagView::FrameBufferInfo {
            framebuffer_addr: le_u64(payload, 0),
            framebuffer_pitch: le_u32(payload, 8),
            framebuffer_width: le_u32(payload, 12),
            framebuffer_height: le_u32(payload, 16),
            framebuffer_bpp: payload[20],
            framebuffer_type: payload[21],
            color_info: payload.skip(FRAME_BUFFER_FIXED as int),
        }
    } else if type_ == 9 {
        TagView::ElfSymbol {
            num: le_u16(payload, 0),
            entsize: le_u16(payload, 2),
            shndx: le_u16(payload, 4),
            section_headers: payload.skip(8),
        }
    } else if type_ == 10 {
        TagView::APMTable(
            APMTable {
                version: le_u16(payload, 0),
                cseg: le_u16(payload, 2),
                offset: le_u32(payload, 4),
                cseg_16: le_u16(payload, 8),
                dseg: le_u16(payload, 10),
                flags: le_u16(payload, 12),
                cseg_len: le_u16(payload, 14),
                cseg_16_len: le_u16(payload, 16),
                dseg_len: le_u16(payload, 18),
            },
        )
    } else if type_ == 14 {
        TagView::ACPIOldRSDP(payload)
    } else if type_ == 15 {
        TagView::ACPINewRSDP(payload)
    } else if type_ == 21 {
        TagView::ImageLoadBase(ImageLoadBase { load_base_addr: le_u32(payload, 0) })
    } else {
        TagView::Unknown(type_, payload)
    }
}

/// Reads a tag of type `type_` from its payload.
pub fn read_tag<'a>(type_: u32, payload: &'a [u8]) -> (tag: Tag<'a>)
    requires
        payload.len() >= least_payload(type_),
    ensures
        tag@ == tag_of(type_, payload@),
{
    let len = payload.len();
    match type_ {
        0 => Tag::End,
        1 => Tag::BootCommandLine(payload),
        2 => Tag::BootLoaderName(payload),
        4 => Tag::BasicMemInfo(
            BasicMemInfo { mem_lower: read_u32(payload, 0), mem_upper: read_u32(payload, 4) },
        ),
        5 => Tag::BIOSBootDevice(
            BIOSBootDevice {
                biosdev: read_u32(payload, 0),
                partition: read_u32(payload, 4),
                sub_partition: read_u32(payload, 8),
            },
        ),
        6 => {
            let entries = slice_subrange(payload, 8, len);
            assert(entries@ =~= payload@.skip(8));
            Tag::MemoryMap(
                MemoryMap {
                    entry_size: read_u32(payload, 0),
                    entry_version: read_u32(payload, 4),
                    entries,
                },
            )
        },
        8 => {
            let color_info = slice_subrange(payload, FRAME_BUFFER_FIXED, len);
            assert(color_info@ =~= payload@.skip(FRAME_BUFFER_FIXED as int));
            Tag::FrameBufferInfo(
                FrameBufferInfo {
                    framebuffer_addr: read_u64(payload, 0),
                    framebuffer_pitch: read_u32(payload, 8),
                    framebuffer_width: read_u32(payload, 12),
                    framebuffer_height: read_u32(payload, 16),
                    framebuffer_bpp: payload[20],
                    framebuffer_type: payload[21],
                    color_info,
                },
            )
        },
        9 => {
            let section_headers = slice_subrange(payload, 8, len);
            assert(section_headers@ =~= payload@.skip(8));
            Tag::ElfSymbol(
                ElfSymbol {
                    num: read_u16(payload, 0),
                    entsize: read_u16(payload, 2),
                    shndx: read_u16(payload, 4),
                    section_headers,
                },
            )
        },
        10 => Tag::APMTable(
            APMTable {
                version: read_u16(payload, 0),
                cseg: read_u16(payload, 2),
                offset: read_u32(payload, 4),
                cseg_16: read_u16(payload, 8),
                dseg: read_u16(payload, 10),
                flags: read_u16(payload, 12),
                cseg_len: read_u16(payload, 14),
                cseg_16_len: read_u16(payload, 16),
                dseg_len: read_u16(payload, 18),
            },
        ),
        14 => Tag::ACPIOldRSDP(payload),
        15 => Tag::ACPINewRSDP(payload),
        21 => Tag::ImageLoadBase(ImageLoadBase { load_base_addr: read_u32(payload, 0) }),
        _ => Tag::Unknown(type_, payload),
    }
}

/// Whether the run `tags` can be walked from `i` on: every tag up to the end
/// tag has a header that lies in the run and a payload long enough for its
/// type.
pub open spec fn sound_from(tags: Seq<u8>, i: int) -> bool
    decreases tags.len() - i,
{
    match header_at(tags, i) {
        None => false,
        Some(header) => header.type_ == 0 || (header.len >= least_payload(header.type_)
            && sound_from(tags, header.start + header.len)),
    }
}

/// The tags of a sound run from `i` on, up to the end tag, which is not one
/// of them.
pub open spec fn tags_from(tags: Seq<u8>, i: int) -> Seq<TagView>
    decreases tags.len() - i,
{
    match header_at(tags, i) {
        None => Seq::empty(),
        Some(header) => if header.type_ == 0 || header.len < least_payload(header.type_) {
            Seq::empty()
        } else {
            seq![tag_of(header.type_, tags.subrange(header.start, header.start + header.len))]
                + tags_from(tags, header.start + header.len)
        },
    }
}

/// Reads the header of the tag at or after `i`.
fn read_header(tags: &[u8], i: usize) -> (header: Option<(u32, usize, usize)>)
    requires
        i <= tags.len(),
    ensures
        match header {
            Some((type_, start, len)) => header_at(tags@, i as int) == Some(
                TagHeader { type_, start: start as int, len: len as int },
            ) && start + len <= tags.len(),
            None => header_at(tags@, i as int) is None,
        },
{
    let end = tags.len();
    let at = if i % 8 != 0 {
        if end - i < 8 - i % 8 {
            return None;
        }
        i + (8 - i % 8)
    } else {
        i
    };
    if end - at < HEADER_SIZE {
        return None;
    }
    let type_ = read_u32(tags, at);
    let size = read_u32(tags, at + 4) as usize;
    if size < HEADER_SIZE || end - at < size {
        return None;
    }
    Some((type_, at + HEADER_SIZE, size - HEADER_SIZE))
}

/// Why a block of memory is not taken as boot information.
#[derive(Clone, Copy, Debug, PartialEq, Eq, Structural)]
pub enum LoadError {
    /// The block is shorter than its header, or the size in the header is
    /// less than the header's own or more than the block's.
    BadSize,
    /// The run of tags cannot be walked to its end tag.
    BadTags,
}

/// The boot information. Its view is its run of tags, the bytes after the
/// header.
pub struct BootInformation<'a> {
    total_size: u32,
    tags: &'a [u8],
}

impl<'a> View for BootInformation<'a> {
    type V = Seq<u8>;

    closed spec fn view(&self) -> Seq<u8> {
        self.tags@
    }
}

/// The size the header of a block of boot information gives.
pub open spec fn total_size_of(block: Seq<u8>) -> u32 {
    le_u32(block, 0)
}

/// Whether the header of a block gives a size that holds the header and
/// lies in the block.
pub open spec fn size_fits(block: Seq<u8>) -> bool {
    block.len() >= HEADER_SIZE && HEADER_SIZE <= total_size_of(block) <= block.len()
}

/// The run of tags of a block whose size fits.
pub open spec fn tags_of(block: Seq<u8>) -> Seq<u8> {
    block.subrange(HEADER_SIZE as int, total_size_of(block) as int)
}

impl<'a> BootInformation<'a> {
    #[verifier::type_invariant]
    spec fn well_formed(self) -> bool {
        sound_from(self.tags@, 0) && self.total_size == self.tags@.len() + HEADER_SIZE
    }

    /// The size of the boot information in bytes, header included.
    pub closed spec fn spec_total_size(self) -> u32 {
        self.total_size
    }

    /// The tags of the boot information, in order, without the end tag.
    pub open spec fn spec_tags(self) -> Seq<TagView> {
        tags_from(self@, 0)
    }

    /// Takes a block of memory as boot information. The block is refused
    /// where its size does not fit or its run of tags cannot be walked.
    pub fn load(block: &'a [u8]) -> (loaded: Result<BootInformation<'a>, LoadError>)
        ensures
            match loaded {
                Ok(mbi) => {
                    &&& size_fits(block@)
                    &&& sound_from(tags_of(block@), 0)
                    &&& mbi@ == tags_of(block@)
                    &&& mbi.spec_total_size() == total_size_of(block@)
                },
                Err(LoadError::BadSize) => !size_fits(block@),
                Err(LoadError::BadTags) => size_fits(block@) && !sound_from(tags_of(block@), 0),
            },
    {
        if block.len() < HEADER_SIZE {
            return Err(LoadError::BadSize);
        }
        let total_size = read_u32(block, 0);
        if (total_size as usize) < HEADER_SIZE || total_size as usize > block.len() {
            return Err(LoadError::BadSize);
        }
        let tags = slice_subrange(block, HEADER_SIZE, total_size as usize);
        let mut i: usize = 0;
        loop
            invariant
                i <= tags.len(),
                size_fits(block@),
                tags@ == tags_of(block@),
                total_size == total_size_of(block@),
                sound_from(tags@, 0) == sound_from(tags@, i as int),
            decreases tags.len() - i,
        {
            match read_header(tags, i) {
                None => {
                    return Err(LoadError::BadTags);
                },
                Some((type_, start, len)) => {
                    if type_ == 0 {
                        return Ok(BootInformation { total_size, tags });
                    }
                    if len < least_payload_of(type_) {
                        return Err(LoadError::BadTags);
                    }
                    i = start + len;
                },
            }
        }
    }

    /// The size of the boot information in bytes, header included.
    pub fn total_size(&self) -> (size: u32)
        ensures
            size == self.spec_total_size(),
            size == self@.len() + HEADER_SIZE,
    {
        proof {
            use_type_invariant(self);
        }
        self.total_size
    }

    /// Walks the tags from the first on.
    pub fn tags(&self) -> (iter: TagIter<'a>)
        ensures
            iter.remaining() == self.spec_tags(),
    {
        proof {
            use_type_invariant(self);
        }
        TagIter { tags: self.tags, i: 0 }
    }
}

/// The least payload a tag of type `type_` must have to be read.
pub fn least_payload_of(type_: u32) -> (least: usize)
    ensures
        least == least_payload(type_),
{
    match type_ {
        4 => 8,
        5 => 12,
        6 => 8,
        8 => FRAME_BUFFER_FIXED,
        9 => 8,
        10 => APM_TABLE_SIZE,
        21 => 4,
        _ => 0,
    }
}

/// A walk over the tags of the boot information.
pub struct TagIter<'a> {
    tags: &'a [u8],
    i: usize,
}

impl<'a> TagIter<'a> {
    #[verifier::type_invariant]
    spec fn well_formed(self) -> bool {
        self.i <= self.tags@.len() && sound_from(self.tags@, self.i as int)
    }

    /// The tags still to come, in order, without the end tag.
    pub closed spec fn remaining(self) -> Seq<TagView> {
        tags_from(self.tags@, self.i as int)
    }

    /// The next tag; `None` at the end tag, however often it is asked for.
    pub fn next(&mut self) -> (tag: Option<Tag<'a>>)
        ensures
            old(self).remaining().len() == 0 ==> {
                &&& tag is None
                &&& final(self).remaining() == old(self).remaining()
            },
            old(self).remaining().len() > 0 ==> {
                &&& tag matches Some(t)
                &&& t@ == old(self).remaining()[0]
                &&& final(self).remaining() == old(self).remaining().drop_first()
            },
    {
        proof {
            use_type_invariant(&*self);
        }
        let tags = self.tags;
        match read_header(tags, self.i) {
            None => None,
            Some((type_, start, len)) => {
                if type_ == 0 {
                    return None;
                }
                let payload = slice_subrange(tags, start, start + len);
                let tag = read_tag(type_, payload);
                let ghost rest = tags_from(tags@, (start + len) as int);
                assert(old(self).remaining() == seq![tag@] + rest);
                assert((seq![tag@] + rest).drop_first() =~= rest);
                *self = TagIter { tags, i: start + len };
                Some(tag)
            },
        }
    }
}

/// The type number of a tag.
pub open spec fn type_of(tag: TagView) -> u32 {
    match tag {
        TagView::End => 0,
        TagView::BootCommandLine(_) => 1,
        TagView::BootLoaderName(_) => 2,
        TagView::BasicMemInfo(_) => 4,
        TagView::BIOSBootDevice(_) => 5,
        TagView::MemoryMap { .. } => 6,
        TagView::FrameBufferInfo { .. } => 8,
        TagView::ElfSymbol { .. } => 9,
        TagView::APMTable(_) => 10,
        TagView::ACPIOldRSDP(_) => 14,
        TagView::ACPINewRSDP(_) => 15,
        TagView::NetworkInfo(_) => 16,
        TagView::ImageLoadBase(_) => 21,
        TagView::Unknown(type_, _) => type_,
    }
}

/// The first of `tags` that has type `type_`.
pub open spec fn first_of_type(tags: Seq<TagView>, type_: u32) -> Option<TagView>
    decreases tags.len(),
{
    if tags.len() == 0 {
        None
    } else if type_of(tags[0]) == type_ {
        Some(tags[0])
    } else {
        first_of_type(tags.drop_first(), type_)
    }
}

/// Those of `tags` that hold ELF section headers, in order.
pub open spec fn elf_symbols_of(tags: Seq<TagView>) -> Seq<TagView>
    decreases tags.len(),
{
    if tags.len() == 0 {
        Seq::empty()
    } else if tags[0] is ElfSymbol {
        seq![tags[0]] + elf_symbols_of(tags.drop_first())
    } else {
        elf_symbols_of(tags.drop_first())
    }
}

/// The tags that stand for the ELF symbols in `symbols`.
pub open spec fn elf_views(symbols: Seq<ElfSymbol>) -> Seq<TagView> {
    Seq::new(symbols.len(), |k: int| Tag::ElfSymbol(symbols[k])@)
}

impl<'a> BootInformation<'a> {
    /// The name of the loader: the bytes of the first tag that holds one,
    /// with the terminating zero.
    pub fn bootloader_name(&self) -> (name: Option<&'a [u8]>)
        ensures
            match first_of_type(self.spec_tags(), 2) {
                Some(tag) => name matches Some(bytes) && tag == TagView::BootLoaderName(bytes@),
                None => name is None,
            },
    {
        let mut iter = self.tags();
        loop
            invariant
                first_of_type(self.spec_tags(), 2) == first_of_type(iter.remaining(), 2),
            decreases iter.remaining().len(),
        {
            match iter.next() {
                Some(Tag::BootLoaderName(bln)) => {
                    return Some(bln);
                },
                Some(_) => {},
                None => {
                    return None;
                },
            }
        }
    }

    /// The command line: the bytes of the first tag that holds one, with the
    /// terminating zero.
    pub fn boot_command_line(&self) -> (line: Option<&'a [u8]>)
        ensures
            match first_of_type(self.spec_tags(), 1) {
                Some(tag) => line matches Some(bytes) && tag == TagView::BootCommandLine(bytes@),
                None => line is None,
            },
    {
        let mut iter = self.tags();
        loop
            invariant
                first_of_type(self.spec_tags(), 1) == first_of_type(iter.remaining(), 1),
            decreases iter.remaining().len(),
        {
            match iter.next() {
                Some(Tag::BootCommandLine(bcl)) => {
                    return Some(bcl);
                },
                Some(_) => {},
                None => {
                    return None;
                },
            }
        }
    }

    /// The memory map: the first tag that holds one.
    pub fn memory_map(&self) -> (map: Option<MemoryMap<'a>>)
        ensures
            match first_of_type(self.spec_tags(), 6) {
                Some(tag) => map matches Some(mm) && tag == Tag::MemoryMap(mm)@,
                None => map is None,
            },
    {
        let mut iter = self.tags();
        loop
            invariant
                first_of_type(self.spec_tags(), 6) == first_of_type(iter.remaining(), 6),
            decreases iter.remaining().len(),
        {
            match iter.next() {
                Some(Tag::MemoryMap(mm)) => {
                    return Some(mm);
                },
                Some(_) => {},
                None => {
                    return None;
                },
            }
        }
    }

    /// Every tag that holds ELF section headers, in order.
    pub fn elf_symbols(&self) -> (symbols: Vec<ElfSymbol<'a>>)
        ensures
            elf_views(symbols@) == elf_symbols_of(self.spec_tags()),
    {
        let mut iter = self.tags();
        let mut symbols: Vec<ElfSymbol<'a>> = Vec::new();
        assert(elf_views(symbols@) =~= Seq::<TagView>::empty());
        loop
            invariant
                elf_views(symbols@) + elf_symbols_of(iter.remaining()) == elf_symbols_of(
                    self.spec_tags(),
                ),
            decreases iter.remaining().len(),
        {
            let ghost before = symbols@;
            let ghost coming = iter.remaining();
            match iter.next() {
                Some(Tag::ElfSymbol(es)) => {
                    symbols.push(es);
                    assert(elf_views(symbols@) =~= elf_views(before) + seq![coming[0]]);
                    assert(elf_views(symbols@) + elf_symbols_of(iter.remaining()) =~= elf_views(
                        before,
                    ) + elf_symbols_of(coming));
                },
                Some(_) => {},
                None => {
                    assert(elf_views(symbols@) + Seq::<TagView>::empty() =~= elf_views(symbols@));
                    return symbols;
                },
            }
        }
    }
}

impl<'a> MemoryMap<'a> {
    /// Number of whole entries.
    pub open spec fn spec_len(self) -> nat {
        self.entries@.len() / (MEMORY_MAP_ENTRY_SIZE as nat)
    }

    /// Entry `k`.
    pub open spec fn spec_entry(self, k: int) -> MemoryMapEntry {
        let at = k * MEMORY_MAP_ENTRY_SIZE;
        MemoryMapEntry {
            base_addr: le_u64(self.entries@, at),
            length: le_u64(self.entries@, at + 8),
            type_: le_u32(self.entries@, at + 16),
        }
    }

    /// Number of whole entries.
    pub fn len(&self) -> (len: usize)
        ensures
            len == self.spec_len(),
    {
        self.entries.len() / MEMORY_MAP_ENTRY_SIZE
    }

    /// Entry `k`; `None` from the number of entries on.
    pub fn entry(&self, k: usize) -> (entry: Option<MemoryMapEntry>)
        ensures
            entry == if k < self.spec_len() {
                Some(self.spec_entry(k as int))
            } else {
                None::<MemoryMapEntry>
            },
    {
        if k < self.len() {
            assert((k + 1) * MEMORY_MAP_ENTRY_SIZE <= self.entries.len()) by (nonlinear_arith)
                requires
                    k < self.entries.len() / MEMORY_MAP_ENTRY_SIZE,
            ;
            let at = k * MEMORY_MAP_ENTRY_SIZE;
            Some(
                MemoryMapEntry {
                    base_addr: read_u64(self.entries, at),
                    length: read_u64(self.entries, at + 8),
                    type_: read_u32(self.entries, at + 16),
                },
            )
        } else {
            None
        }
    }
}

/// The section header that lies at `at`.
pub open spec fn section_at(bytes: Seq<u8>, at: int) -> ElfSection {
    ElfSection {
        name: le_u32(bytes, at),
        type_: le_u32(bytes, at + 4),
        flags: le_u64(bytes, at + 8),
        addr: le_u64(bytes, at + 16),
        offset: le_u64(bytes, at + 24),
        size: le_u64(bytes, at + 32),
        link: le_u32(bytes, at + 40),
        info: le_u32(bytes, at + 44),
        addr_align: le_u64(bytes, at + 48),
        entsize: le_u64(bytes, at + 56),
    }
}

impl<'a> ElfSymbol<'a> {
    /// Where section header `k` lies in `section_headers`.
    pub open spec fn section_offset(self, k: int) -> int {
        self.shndx + 4 + k * ELF_SECTION_SIZE
    }

    /// Whether there is a section header `k`: all but the last of the `num`
    /// headers are given out, as far as their bytes are there.
    pub open spec fn has_section(self, k: int) -> bool {
        0 <= k && k + 1 < self.num && self.section_offset(k + 1) <= self.section_headers@.len()
    }

    /// Walks the section headers from the first on.
    pub fn sections(&self) -> (iter: ElfSectionIter<'a>)
        ensures
            iter.symbol() == *self,
            iter.position() == 0,
    {
        ElfSectionIter { symbol: *self, i: 0 }
    }
}

/// A walk over the section headers of the kernel's ELF image.
pub struct ElfSectionIter<'a> {
    symbol: ElfSymbol<'a>,
    i: usize,
}

impl<'a> ElfSectionIter<'a> {
    /// The tag whose section headers are walked.
    pub closed spec fn symbol(self) -> ElfSymbol<'a> {
        self.symbol
    }

    /// The number of the next section header.
    pub closed spec fn position(self) -> nat {
        self.i as nat
    }

    /// The next section header; `None` when there is no more.
    pub fn next(&mut self) -> (section: Option<ElfSection>)
        ensures
            final(self).symbol() == old(self).symbol(),
            old(self).symbol().has_section(old(self).position() as int) ==> {
                &&& section == Some(
                    section_at(
                        old(self).symbol().section_headers@,
                        old(self).symbol().section_offset(old(self).position() as int),
                    ),
                )
                &&& final(self).position() == old(self).position() + 1
            },
            !old(self).symbol().has_section(old(self).position() as int) ==> {
                &&& section is None
                &&& final(self).position() == old(self).position()
            },
    {
        let bytes = self.symbol.section_headers;
        let first = self.symbol.shndx as usize + 4;
        if self.i >= 0xffff || self.i + 1 >= self.symbol.num as usize {
            return None;
        }
        let at = first + self.i * ELF_SECTION_SIZE;
        if bytes.len() < ELF_SECTION_SIZE || at > bytes.len() - ELF_SECTION_SIZE {
            return None;
        }
        self.i += 1;
        Some(
            ElfSection {
                name: read_u32(bytes, at),
                type_: read_u32(bytes, at + 4),
                flags: read_u64(bytes, at + 8),
                addr: read_u64(bytes, at + 16),
                offset: read_u64(bytes, at + 24),
                size: read_u64(bytes, at + 32),
                link: read_u32(bytes, at + 40),
                info: read_u32(bytes, at + 44),
                addr_align: read_u64(bytes, at + 48),
                entsize: read_u64(bytes, at + 56),
            },
        )
    }
}

impl<'a> ElfSymbol<'a> {
    /// Number of section headers that are given out.
    pub open spec fn section_count(self) -> nat {
        let by_num = if self.num >= 1 {
            self.num - 1
        } else {
            0
        };
        let room = self.section_headers@.len() - self.shndx - 4;
        let by_len = if room >= 0 {
            room / (ELF_SECTION_SIZE as int)
        } else {
            0
        };
        if by_num <= by_len {
            by_num as nat
        } else {
            by_len as nat
        }
    }

    /// Section header `k`.
    pub open spec fn spec_section(self, k: int) -> ElfSection {
        section_at(self.section_headers@, self.section_offset(k))
    }

    /// The section headers that are given out are those below
    /// `section_count`.
    pub proof fn lemma_has_section(self, k: int)
        ensures
            self.has_section(k) <==> 0 <= k < self.section_count(),
    {
    }
}

/// The lowest address among the first `n` sections, for `n` of 1 or more.
pub open spec fn lowest_addr(elf: ElfSymbol, n: nat) -> u64
    decreases n,
{
    if n <= 1 {
        elf.spec_section(0).addr
    } else {
        let rest = lowest_addr(elf, (n - 1) as nat);
        let addr = elf.spec_section(n - 1).addr;
        if addr < rest {
            addr
        } else {
            rest
        }
    }
}

/// The highest end among the first `n` sections, the end of a section being
/// its address plus its size.
pub open spec fn highest_end(elf: ElfSymbol, n: nat) -> int
    decreases n,
{
    if n == 0 {
        0
    } else {
        let rest = highest_end(elf, (n - 1) as nat);
        let section = elf.spec_section(n - 1);
        if section.addr + section.size > rest {
            section.addr + section.size
        } else {
            rest
        }
    }
}

/// More sections never lower the highest end.
proof fn lemma_highest_end_grows(elf: ElfSymbol, n: nat, m: nat)
    requires
        n <= m,
    ensures
        highest_end(elf, n) <= highest_end(elf, m),
    decreases m,
{
    if n < m {
        lemma_highest_end_grows(elf, n, (m - 1) as nat);
    }
}

/// The memory the kernel's sections span: the lowest address of a section
/// and the highest end of one. `None` where no section header is given out
/// or an end lies beyond the address space.
pub fn kernel_range(elf: &ElfSymbol) -> (range: Option<(u64, u64)>)
    ensures
        range is Some <==> elf.section_count() > 0 && highest_end(*elf, elf.section_count())
            <= u64::MAX,
        range matches Some((start, end)) ==> start == lowest_addr(*elf, elf.section_count())
            && end == highest_end(*elf, elf.section_count()),
{
    let mut iter = elf.sections();
    let ghost count = elf.section_count();
    proof {
        elf.lemma_has_section(0);
    }
    let first = match iter.next() {
        Some(section) => section,
        None => return None,
    };
    let mut start = first.addr;
    let mut end = match first.addr.checked_add(first.size) {
        Some(end) => end,
        None => {
            proof {
                lemma_highest_end_grows(*elf, 1, count);
            }
            return None;
        },
    };
    let ghost mut k: nat = 1;
    assert(end == highest_end(*elf, 1)) by {
        reveal_with_fuel(highest_end, 2);
    }
    loop
        invariant
            iter.symbol() == *elf,
            iter.position() == k,
            count == elf.section_count(),
            1 <= k <= count,
            start == lowest_addr(*elf, k),
            end == highest_end(*elf, k),
        decreases count - k,
    {
        proof {
            elf.lemma_has_section(k as int);
        }
        match iter.next() {
            None => {
                return Some((start, end));
            },
            Some(section) => {
                if section.addr < start {
                    start = section.addr;
                }
                match section.addr.checked_add(section.size) {
                    Some(section_end) => {
                        if section_end > end {
                            end = section_end;
                        }
                    },
                    None => {
                        proof {
                            lemma_highest_end_grows(*elf, k + 1, count);
                        }
                        return None;
                    },
                }
                proof {
                    k = k + 1;
                }
            },
        }
    }
}

} // verus!
