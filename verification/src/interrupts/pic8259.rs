//! The chained pair of 8259 programmable interrupt controllers.
//!
//! Each chip has eight input lines. At power-on the pair delivers its
//! interrupts on vectors that the CPU also uses for exceptions, so the pair is
//! reprogrammed to deliver them from vector `0x20` on. Nothing here touches a
//! port: every function returns the port writes to perform, in order.

use vstd::prelude::*;

verus! {

/// First vector of the primary controller after the remap.
pub const PIC1_OFFSET: u8 = 0x20;

/// First vector of the secondary controller after the remap.
pub const PIC2_OFFSET: u8 = 0x28;

/// Command port of the primary controller.
pub const PIC1_COMMAND: u16 = 0x20;

/// Data port of the primary controller.
pub const PIC1_DATA: u16 = 0x21;

/// Command port of the secondary controller.
pub const PIC2_COMMAND: u16 = 0xa0;

/// Data port of the secondary controller.
pub const PIC2_DATA: u16 = 0xa1;

/// An unused diagnostic port. A write to it does nothing but take the time
/// of one bus cycle.
pub const WAIT_PORT: u16 = 0x80;

/// Starts the initialisation handshake, announcing that a mode word follows.
pub const CMD_INIT: u8 = 0x11;

/// Acknowledges the interrupt in service.
pub const CMD_EOI: u8 = 0x20;

/// The primary's wiring word: input line 2 carries the secondary.
pub const PRIMARY_WIRING: u8 = 4;

/// The secondary's wiring word: its identity on the cascade.
pub const SECONDARY_WIRING: u8 = 2;

/// The mode word for 8086 operation.
pub const MODE_8086: u8 = 1;

/// Number of input lines of one controller.
pub const LINES: u8 = 8;

/// One byte written to an I/O port.
#[derive(Clone, Copy, Debug, PartialEq, Eq, Structural)]
pub struct PortWrite {
    pub port: u16,
    pub value: u8,
}

/// The write that lets the bus settle between two handshake steps.
pub open spec fn settle() -> PortWrite {
    PortWrite { port: WAIT_PORT, value: 0 }
}

/// The write of `value` to `port`.
pub open spec fn write_to(port: u16, value: u8) -> PortWrite {
    PortWrite { port, value }
}

/// One controller: its two ports and the vector of its line 0.
#[derive(Clone, Copy, Debug, PartialEq, Eq, Structural)]
pub struct Pic {
    pub command: u16,
    pub data: u16,
    pub offset: u8,
}

impl Pic {
    /// Whether `vector` is delivered by one of this controller's eight lines.
    pub open spec fn spec_serves(self, vector: u8) -> bool {
        self.offset <= vector && vector < self.offset + LINES
    }

    /// Whether `vector` is delivered by one of this controller's eight lines.
    pub fn serves(&self, vector: u8) -> (yes: bool)
        ensures
            yes == self.spec_serves(vector),
    {
        self.offset <= vector && vector - self.offset < LINES
    }
}

/// The primary controller with the offset this kernel uses.
pub open spec fn standard_primary() -> Pic {
    Pic { command: PIC1_COMMAND, data: PIC1_DATA, offset: PIC1_OFFSET }
}

/// The secondary controller with the offset this kernel uses.
pub open spec fn standard_secondary() -> Pic {
    Pic { command: PIC2_COMMAND, data: PIC2_DATA, offset: PIC2_OFFSET }
}

/// The writes that reprogram the pair `p`, `s`, for the interrupt masks
/// `mask1` and `mask2` read from the two data ports beforehand.
///
/// Four steps, each done on the primary and then on the secondary, with a
/// settling write after every one: start the handshake, give the vector
/// offset, give the cascade wiring, give the operating mode. The handshake
/// clears the masks, so the last two writes put them back.
pub open spec fn remap_writes(p: Pic, s: Pic, mask1: u8, mask2: u8) -> Seq<PortWrite> {
    seq![
        write_to(p.command, CMD_INIT),
        settle(),
        write_to(s.command, CMD_INIT),
        settle(),
        write_to(p.data, p.offset),
        settle(),
        write_to(s.data, s.offset),
        settle(),
        write_to(p.data, PRIMARY_WIRING),
        settle(),
        write_to(s.data, SECONDARY_WIRING),
        settle(),
        write_to(p.data, MODE_8086),
        settle(),
        write_to(s.data, MODE_8086),
        settle(),
        write_to(p.data, mask1),
        write_to(s.data, mask2),
    ]
}

/// The writes that acknowledge the interrupt delivered on `vector`: the
/// secondary first where the vector is one of its lines, then always the
/// primary.
pub open spec fn eoi_writes_of(p: Pic, s: Pic, vector: u8) -> Seq<PortWrite> {
    let ack1 = write_to(p.command, CMD_EOI);
    let ack2 = write_to(s.command, CMD_EOI);
    if s.spec_serves(vector) {
        seq![ack2, ack1]
    } else {
        seq![ack1]
    }
}

/// Whether two vector offsets can be given to the pair: both ranges lie above
/// the CPU's exception vectors and the secondary's range follows the
/// primary's directly.
pub open spec fn valid_offsets(offset1: u8, offset2: u8) -> bool {
    offset1 >= 32 && offset2 == offset1 + LINES && offset2 + LINES <= 256
}

/// The two controllers as wired in a PC: the secondary hangs on line 2 of the
/// primary.
pub struct ChainedPics {
    primary: Pic,
    secondary: Pic,
}

impl ChainedPics {
    #[verifier::type_invariant]
    spec fn well_formed(self) -> bool {
        &&& self.primary.command == PIC1_COMMAND
        &&& self.primary.data == PIC1_DATA
        &&& self.secondary.command == PIC2_COMMAND
        &&& self.secondary.data == PIC2_DATA
        &&& valid_offsets(self.primary.offset, self.secondary.offset)
    }

    /// The primary controller.
    pub closed spec fn spec_primary(self) -> Pic {
        self.primary
    }

    /// The secondary controller.
    pub closed spec fn spec_secondary(self) -> Pic {
        self.secondary
    }

    /// The pair with the given vector offsets, or `None` where the offsets
    /// are not valid.
    pub fn new(offset1: u8, offset2: u8) -> (pics: Option<ChainedPics>)
        ensures
            pics is Some <==> valid_offsets(offset1, offset2),
            pics matches Some(p) ==> p.spec_primary() == (Pic {
                command: PIC1_COMMAND,
                data: PIC1_DATA,
                offset: offset1,
            }) && p.spec_secondary() == (Pic {
                command: PIC2_COMMAND,
                data: PIC2_DATA,
                offset: offset2,
            }),
    {
        if offset1 >= 32 && offset1 <= 240 && offset2 == offset1 + LINES {
            Some(
                ChainedPics {
                    primary: Pic { command: PIC1_COMMAND, data: PIC1_DATA, offset: offset1 },
                    secondary: Pic { command: PIC2_COMMAND, data: PIC2_DATA, offset: offset2 },
                },
            )
        } else {
            None
        }
    }

    /// The pair with the offsets this kernel uses, `0x20` and `0x28`.
    pub fn standard() -> (pics: ChainedPics)
        ensures
            pics.spec_primary() == standard_primary(),
            pics.spec_secondary() == standard_secondary(),
    {
        ChainedPics {
            primary: Pic { command: PIC1_COMMAND, data: PIC1_DATA, offset: PIC1_OFFSET },
            secondary: Pic { command: PIC2_COMMAND, data: PIC2_DATA, offset: PIC2_OFFSET },
        }
    }

    /// The primary controller. Its ports are `0x20` and `0x21`, its offset 32
    /// or more.
    pub fn primary(&self) -> (pic: Pic)
        ensures
            pic == self.spec_primary(),
            pic.command == PIC1_COMMAND,
            pic.data == PIC1_DATA,
            valid_offsets(pic.offset, self.spec_secondary().offset),
    {
        proof {
            use_type_invariant(self);
        }
        self.primary
    }

    /// The secondary controller. Its ports are `0xa0` and `0xa1`, its offset
    /// the primary's plus eight.
    pub fn secondary(&self) -> (pic: Pic)
        ensures
            pic == self.spec_secondary(),
            pic.command == PIC2_COMMAND,
            pic.data == PIC2_DATA,
            valid_offsets(self.spec_primary().offset, pic.offset),
    {
        proof {
            use_type_invariant(self);
        }
        self.secondary
    }

    /// The writes that reprogram the pair, for the interrupt masks `mask1`
    /// and `mask2` read from the two data ports beforehand.
    pub open spec fn spec_remap(self, mask1: u8, mask2: u8) -> Seq<PortWrite> {
        remap_writes(self.spec_primary(), self.spec_secondary(), mask1, mask2)
    }

    /// The writes that acknowledge the interrupt delivered on `vector`.
    pub open spec fn spec_send_eoi(self, vector: u8) -> Seq<PortWrite> {
        eoi_writes_of(self.spec_primary(), self.spec_secondary(), vector)
    }

    /// Plans the remap: returns the port writes to perform, in order, given
    /// the two interrupt masks as read from the data ports just before.
    pub fn remap(&self, mask1: u8, mask2: u8) -> (writes: Vec<PortWrite>)
        ensures
            writes@ == self.spec_remap(mask1, mask2),
    {
        let wait = PortWrite { port: WAIT_PORT, value: 0 };
        let p = self.primary;
        let s = self.secondary;
        let mut writes: Vec<PortWrite> = Vec::new();
        writes.push(PortWrite { port: p.command, value: CMD_INIT });
        writes.push(wait);
        writes.push(PortWrite { port: s.command, value: CMD_INIT });
        writes.push(wait);
        writes.push(PortWrite { port: p.data, value: p.offset });
        writes.push(wait);
        writes.push(PortWrite { port: s.data, value: s.offset });
        writes.push(wait);
        writes.push(PortWrite { port: p.data, value: PRIMARY_WIRING });
        writes.push(wait);
        writes.push(PortWrite { port: s.data, value: SECONDARY_WIRING });
        writes.push(wait);
        writes.push(PortWrite { port: p.data, value: MODE_8086 });
        writes.push(wait);
        writes.push(PortWrite { port: s.data, value: MODE_8086 });
        writes.push(wait);
        writes.push(PortWrite { port: p.data, value: mask1 });
        writes.push(PortWrite { port: s.data, value: mask2 });
        assert(writes@ =~= self.spec_remap(mask1, mask2));
        writes
    }

    /// Plans the acknowledgment of the interrupt delivered on `vector`:
    /// returns the port writes to perform, in order.
    pub fn send_eoi(&self, vector: u8) -> (writes: Vec<PortWrite>)
        ensures
            writes@ == self.spec_send_eoi(vector),
    {
        let mut writes: Vec<PortWrite> = Vec::new();
        if self.secondary.serves(vector) {
            writes.push(PortWrite { port: self.secondary.command, value: CMD_EOI });
        }
        writes.push(PortWrite { port: self.primary.command, value: CMD_EOI });
        assert(writes@ =~= self.spec_send_eoi(vector));
        writes
    }
}

/// The acknowledgment writes for `vector` with the offsets this kernel uses.
pub open spec fn eoi_writes(vector: u8) -> Seq<PortWrite> {
    eoi_writes_of(standard_primary(), standard_secondary(), vector)
}

/// Plans the acknowledgment of the interrupt delivered on vector `irq`, for
/// the pair remapped to `0x20` and `0x28`. The primary is always
/// acknowledged; the secondary too, and first, where `irq` lies in
/// `0x28..0x30`.
pub fn send_eoi(irq: u8) -> (writes: Vec<PortWrite>)
    ensures
        writes@ == eoi_writes(irq),
{
    ChainedPics::standard().send_eoi(irq)
}

/// Plans the remap of the pair to `0x20` and `0x28`, given the two interrupt
/// masks as read from the data ports `0x21` and `0xa1` just before. Returns
/// the port writes to perform, in order.
pub fn init_pic(pic1_mask: u8, pic2_mask: u8) -> (writes: Vec<PortWrite>)
    ensures
        writes@ == remap_writes(standard_primary(), standard_secondary(), pic1_mask, pic2_mask),
{
    ChainedPics::standard().remap(pic1_mask, pic2_mask)
}

/// How often `write` occurs among `writes`.
pub open spec fn occurrences(writes: Seq<PortWrite>, write: PortWrite) -> nat
    decreases writes.len(),
{
    if writes.len() == 0 {
        0
    } else {
        occurrences(writes.drop_last(), write) + if writes.last() == write {
            1nat
        } else {
            0nat
        }
    }
}

/// An acknowledgment reaches each controller at most once: the primary
/// exactly once whatever the vector, the secondary exactly once for a vector
/// of its own lines and not at all for any other.
pub proof fn lemma_eoi_once_each(p: Pic, s: Pic, vector: u8)
    requires
        p.command != s.command,
    ensures
        occurrences(eoi_writes_of(p, s, vector), write_to(p.command, CMD_EOI)) == 1,
        occurrences(eoi_writes_of(p, s, vector), write_to(s.command, CMD_EOI)) == if s.spec_serves(
            vector,
        ) {
            1nat
        } else {
            0nat
        },
        eoi_writes_of(p, s, vector).len() == if s.spec_serves(vector) {
            2nat
        } else {
            1nat
        },
{
    let ack1 = write_to(p.command, CMD_EOI);
    let ack2 = write_to(s.command, CMD_EOI);
    reveal_with_fuel(occurrences, 3);
    if s.spec_serves(vector) {
        assert(seq![ack2, ack1].drop_last() =~= seq![ack2]);
        assert(seq![ack2].drop_last() =~= Seq::<PortWrite>::empty());
    } else {
        assert(seq![ack1].drop_last() =~= Seq::<PortWrite>::empty());
    }
}

/// Where a controller stands in its initialisation handshake.
#[derive(Clone, Copy, Debug, PartialEq, Eq, Structural)]
pub enum Stage {
    /// In operation: a data write sets the interrupt mask.
    Ready,
    /// The next data write is the vector offset.
    AwaitOffset,
    /// The next data write is the cascade wiring.
    AwaitWiring,
    /// The next data write is the operating mode.
    AwaitMode,
}

/// The state of one 8259, as far as the handshake concerns it.
pub struct PicState {
    /// The interrupt mask: what a read of the data port gives.
    pub mask: u8,
    /// The vector of line 0.
    pub offset: u8,
    /// Where the chip stands in the handshake.
    pub stage: Stage,
    /// Whether the running handshake is for a chip without a cascade.
    pub single: bool,
    /// Whether the running handshake ends with a mode word.
    pub with_mode: bool,
}

/// The state of the chained pair.
pub struct PairState {
    pub primary: PicState,
    pub secondary: PicState,
}

/// The stage after the wiring word, or after the offset of a chip without a
/// cascade.
pub open spec fn stage_before_mode(state: PicState) -> Stage {
    if state.with_mode {
        Stage::AwaitMode
    } else {
        Stage::Ready
    }
}

/// An 8259 after a write to its command port. A byte with bit 4 set starts
/// the handshake, which clears the interrupt mask; bit 0 announces a mode
/// word and bit 1 says that there is no cascade. Other commands leave mask,
/// offset and stage alone.
pub open spec fn after_command(state: PicState, value: u8) -> PicState {
    if value & 0x10 != 0 {
        PicState {
            mask: 0,
            offset: state.offset,
            stage: Stage::AwaitOffset,
            single: value & 0x02 != 0,
            with_mode: value & 0x01 != 0,
        }
    } else {
        state
    }
}

/// An 8259 after a write to its data port: the next word of the handshake
/// while one is running, the interrupt mask otherwise. Of the offset the chip
/// keeps the upper five bits.
pub open spec fn after_data(state: PicState, value: u8) -> PicState {
    match state.stage {
        Stage::Ready => PicState { mask: value, ..state },
        Stage::AwaitOffset => PicState {
            offset: value & 0xf8,
            stage: if state.single {
                stage_before_mode(state)
            } else {
                Stage::AwaitWiring
            },
            ..state
        },
        Stage::AwaitWiring => PicState { stage: stage_before_mode(state), ..state },
        Stage::AwaitMode => PicState { stage: Stage::Ready, ..state },
    }
}

/// The pair `p`, `s` after one port write. Writes to other ports change
/// nothing.
pub open spec fn after_write(pair: PairState, p: Pic, s: Pic, write: PortWrite) -> PairState {
    if write.port == p.command {
        PairState { primary: after_command(pair.primary, write.value), ..pair }
    } else if write.port == p.data {
        PairState { primary: after_data(pair.primary, write.value), ..pair }
    } else if write.port == s.command {
        PairState { secondary: after_command(pair.secondary, write.value), ..pair }
    } else if write.port == s.data {
        PairState { secondary: after_data(pair.secondary, write.value), ..pair }
    } else {
        pair
    }
}

/// The pair after the first `n` of `writes`, performed in order.
pub open spec fn after_writes(pair: PairState, p: Pic, s: Pic, writes: Seq<PortWrite>, n: nat) -> PairState
    decreases n,
{
    if n == 0 {
        pair
    } else {
        after_write(after_writes(pair, p, s, writes, (n - 1) as nat), p, s, writes[n - 1])
    }
}

/// The remap keeps the interrupt masks.
///
/// Take a pair in operation, read the two masks, and perform the writes that
/// `remap` plans for them. Afterwards both chips are in operation again,
/// each with the mask it had before and with its new offset.
pub proof fn lemma_remap_keeps_masks(before: PairState, pics: ChainedPics)
    requires
        before.primary.stage == Stage::Ready,
        before.secondary.stage == Stage::Ready,
        pics.spec_primary().command == PIC1_COMMAND,
        pics.spec_primary().data == PIC1_DATA,
        pics.spec_secondary().command == PIC2_COMMAND,
        pics.spec_secondary().data == PIC2_DATA,
    ensures
        ({
            let writes = pics.spec_remap(before.primary.mask, before.secondary.mask);
            let after = after_writes(
                before,
                pics.spec_primary(),
                pics.spec_secondary(),
                writes,
                writes.len(),
            );
            &&& after.primary.mask == before.primary.mask
            &&& after.secondary.mask == before.secondary.mask
            &&& after.primary.stage == Stage::Ready
            &&& after.secondary.stage == Stage::Ready
            &&& after.primary.offset == pics.spec_primary().offset & 0xf8
            &&& after.secondary.offset == pics.spec_secondary().offset & 0xf8
        }),
{
    assert(CMD_INIT & 0x10 != 0 && CMD_INIT & 0x02 == 0 && CMD_INIT & 0x01 != 0) by (bit_vector);
    reveal_with_fuel(after_writes, 19);
}

} // verus!
