//! Interrupt handling: the vector table, the dispatcher, the interrupt
//! controllers and the keyboard.
//!
//! The CPU delivers every exception and every device interrupt through one
//! table of 256 vectors. The table is filled once at boot: first a fallback on
//! every vector, then the handlers this kernel has. Only a table without an
//! empty slot can become a [`Dispatcher`], which says for each delivered vector
//! what is reported, what is acknowledged and whether the CPU resumes.

pub mod keyboard;
pub mod pic8259;

use pic8259::{eoi_writes, init_pic, remap_writes, send_eoi, standard_primary, standard_secondary, PortWrite};
use crate::gdt::DOUBLE_FAULT_IST_INDEX;
use vstd::prelude::*;

verus! {

/// Number of vectors.
pub const VECTORS: usize = 256;

/// The first vector that is not a CPU exception.
pub const FIRST_INTERRUPT: u8 = 32;

/// The vector of the breakpoint trap.
pub const BREAKPOINT_VECTOR: u8 = 3;

/// The vector of the double fault.
pub const DOUBLE_FAULT_VECTOR: u8 = 8;

/// The vector of the page fault.
pub const PAGE_FAULT_VECTOR: u8 = 14;

/// The vector of the timer interrupt: line 0 of the primary controller.
pub const TIMER_VECTOR: u8 = 0x20;

/// The vector of the keyboard interrupt: line 1 of the primary controller.
pub const KEYBOARD_VECTOR: u8 = 0x21;

/// Number of slots in the interrupt stack table.
pub const IST_SLOTS: u16 = 7;

/// The device interrupts this kernel handles.
#[derive(Clone, Copy, Debug, PartialEq, Eq, Structural)]
pub enum InterruptIndex {
    Timer,
    Keyboard,
}

impl InterruptIndex {
    /// The vector the interrupt is delivered on.
    pub fn vector(self) -> (v: u8)
        ensures
            v == match self {
                InterruptIndex::Timer => TIMER_VECTOR,
                InterruptIndex::Keyboard => KEYBOARD_VECTOR,
            },
    {
        match self {
            InterruptIndex::Timer => TIMER_VECTOR,
            InterruptIndex::Keyboard => KEYBOARD_VECTOR,
        }
    }
}

/// The exceptions the architecture defines.
#[derive(Clone, Copy, Debug, PartialEq, Eq, Structural)]
pub enum ExceptionVector {
    Division,
    Debug,
    NonMaskableInterrupt,
    Breakpoint,
    Overflow,
    BoundRange,
    InvalidOpcode,
    DeviceNotAvailable,
    Double,
    InvalidTss,
    SegmentNotPresent,
    Stack,
    GeneralProtection,
    Page,
    X87FloatingPoint,
    AlignmentCheck,
    MachineCheck,
    SimdFloatingPoint,
    Virtualization,
    ControlProtection,
    HypervisorInjection,
    VmmCommunication,
    Security,
}

impl ExceptionVector {
    /// The vector the architecture gives the exception.
    pub open spec fn number(self) -> u8 {
        match self {
            ExceptionVector::Division => 0x00,
            ExceptionVector::Debug => 0x01,
            ExceptionVector::NonMaskableInterrupt => 0x02,
            ExceptionVector::Breakpoint => 0x03,
            ExceptionVector::Overflow => 0x04,
            ExceptionVector::BoundRange => 0x05,
            ExceptionVector::InvalidOpcode => 0x06,
            ExceptionVector::DeviceNotAvailable => 0x07,
            ExceptionVector::Double => 0x08,
            ExceptionVector::InvalidTss => 0x0a,
            ExceptionVector::SegmentNotPresent => 0x0b,
            ExceptionVector::Stack => 0x0c,
            ExceptionVector::GeneralProtection => 0x0d,
            ExceptionVector::Page => 0x0e,
            ExceptionVector::X87FloatingPoint => 0x10,
            ExceptionVector::AlignmentCheck => 0x11,
            ExceptionVector::MachineCheck => 0x12,
            ExceptionVector::SimdFloatingPoint => 0x13,
            ExceptionVector::Virtualization => 0x14,
            ExceptionVector::ControlProtection => 0x15,
            ExceptionVector::HypervisorInjection => 0x1c,
            ExceptionVector::VmmCommunication => 0x1d,
            ExceptionVector::Security => 0x1e,
        }
    }
}

/// The exception with vector `code`, if the architecture defines one.
pub open spec fn exception_name(code: u8) -> Option<ExceptionVector> {
    if exists|e: ExceptionVector| e.number() == code {
        Some(choose|e: ExceptionVector| e.number() == code)
    } else {
        None
    }
}

/// Names the exception delivered on vector `code`. Vectors the architecture
/// reserves, and every vector from 32 on, have no name.
pub fn exception_get_name(code: u8) -> (name: Option<ExceptionVector>)
    ensures
        name == exception_name(code),
        name matches Some(e) ==> e.number() == code,
        name is None <==> forall|e: ExceptionVector| e.number() != code,
        code >= FIRST_INTERRUPT ==> name is None,
{
    let name = match code {
        0x00 => Some(ExceptionVector::Division),
        0x01 => Some(ExceptionVector::Debug),
        0x02 => Some(ExceptionVector::NonMaskableInterrupt),
        0x03 => Some(ExceptionVector::Breakpoint),
        0x04 => Some(ExceptionVector::Overflow),
        0x05 => Some(ExceptionVector::BoundRange),
        0x06 => Some(ExceptionVector::InvalidOpcode),
        0x07 => Some(ExceptionVector::DeviceNotAvailable),
        0x08 => Some(ExceptionVector::Double),
        0x0a => Some(ExceptionVector::InvalidTss),
        0x0b => Some(ExceptionVector::SegmentNotPresent),
        0x0c => Some(ExceptionVector::Stack),
        0x0d => Some(ExceptionVector::GeneralProtection),
        0x0e => Some(ExceptionVector::Page),
        0x10 => Some(ExceptionVector::X87FloatingPoint),
        0x11 => Some(ExceptionVector::AlignmentCheck),
        0x12 => Some(ExceptionVector::MachineCheck),
        0x13 => Some(ExceptionVector::SimdFloatingPoint),
        0x14 => Some(ExceptionVector::Virtualization),
        0x15 => Some(ExceptionVector::ControlProtection),
        0x1c => Some(ExceptionVector::HypervisorInjection),
        0x1d => Some(ExceptionVector::VmmCommunication),
        0x1e => Some(ExceptionVector::Security),
        _ => None,
    };
    proof {
        if let Some(e) = name {
            assert(e.number() == code);
            let c = choose|c: ExceptionVector| c.number() == code;
            assert(c.number() == e.number());
            assert(c == e);
        } else {
            assert forall|e: ExceptionVector| e.number() != code by {
                assert(e.number() <= 0x1e);
            }
        }
    }
    name
}

/// What runs when a vector is delivered.
#[derive(Clone, Copy, Debug, PartialEq, Eq, Structural)]
pub enum Handler {
    /// The fallback for exceptions: report and halt.
    GenericException,
    /// The fallback for device interrupts: acknowledge, warn and go on.
    GenericInterrupt,
    /// The breakpoint trap: report and go on.
    Breakpoint,
    /// The double fault: report and halt, on a stack of its own.
    DoubleFault,
    /// The page fault: report and halt.
    PageFault,
    /// The timer tick: acknowledge.
    Timer,
    /// The keyboard: the byte is read and decoded by
    /// [`keyboard::handler`], which also acknowledges.
    Keyboard,
}

/// The kind of a table slot.
#[derive(Clone, Copy, Debug, PartialEq, Eq, Structural)]
pub enum VectorClass {
    /// A slot with a handler, on a vector below 32.
    Exception,
    /// A slot with a handler, on a vector from 32 on.
    Interrupt,
    /// A slot without a handler.
    Unassigned,
}

/// One slot of the vector table.
#[derive(Clone, Copy, Debug, PartialEq, Eq)]
pub struct Entry {
    /// The handler, `None` while the slot is empty.
    pub handler: Option<Handler>,
    /// The slot of the interrupt stack table whose stack the handler runs
    /// on; `None` for the stack that was current when the vector arrived.
    pub stack_index: Option<u16>,
}

impl Entry {
    /// The kind of this slot where it stands at `vector`.
    pub open spec fn spec_class(self, vector: u8) -> VectorClass {
        if self.handler is None {
            VectorClass::Unassigned
        } else if vector < FIRST_INTERRUPT {
            VectorClass::Exception
        } else {
            VectorClass::Interrupt
        }
    }

    /// The kind of this slot where it stands at `vector`.
    pub fn class(&self, vector: u8) -> (class: VectorClass)
        ensures
            class == self.spec_class(vector),
    {
        if self.handler.is_none() {
            VectorClass::Unassigned
        } else if vector < FIRST_INTERRUPT {
            VectorClass::Exception
        } else {
            VectorClass::Interrupt
        }
    }
}

/// The empty slot.
pub open spec fn empty_entry() -> Entry {
    Entry { handler: None, stack_index: None }
}

/// The fallback handler of a vector.
pub open spec fn fallback(vector: int) -> Handler {
    if vector < FIRST_INTERRUPT {
        Handler::GenericException
    } else {
        Handler::GenericInterrupt
    }
}

/// The slot at `vector` in the table this kernel boots with.
pub open spec fn booted_entry(vector: int) -> Entry {
    if vector == BREAKPOINT_VECTOR {
        Entry { handler: Some(Handler::Breakpoint), stack_index: None }
    } else if vector == DOUBLE_FAULT_VECTOR {
        Entry { handler: Some(Handler::DoubleFault), stack_index: Some(DOUBLE_FAULT_IST_INDEX) }
    } else if vector == PAGE_FAULT_VECTOR {
        Entry { handler: Some(Handler::PageFault), stack_index: None }
    } else if vector == TIMER_VECTOR {
        Entry { handler: Some(Handler::Timer), stack_index: None }
    } else if vector == KEYBOARD_VECTOR {
        Entry { handler: Some(Handler::Keyboard), stack_index: None }
    } else {
        Entry { handler: Some(fallback(vector)), stack_index: None }
    }
}

/// The table this kernel boots with.
pub open spec fn booted_table() -> Seq<Entry> {
    Seq::new(VECTORS as nat, |vector: int| booted_entry(vector))
}

/// Whether no slot of a table is empty.
pub open spec fn complete(entries: Seq<Entry>) -> bool {
    forall|vector: int| 0 <= vector < entries.len() ==> (#[trigger] entries[vector]).handler is Some
}

/// No vector is ever without a handler once the fallbacks are in place: the
/// table this kernel boots with is complete, a table of fallbacks alone is
/// complete, and installing a handler on any vector of a complete table
/// leaves it complete.
pub proof fn lemma_table_stays_complete(entries: Seq<Entry>, vector: u8, handler: Handler)
    requires
        entries.len() == VECTORS,
        complete(entries),
    ensures
        complete(booted_table()),
        complete(
            Seq::new(
                VECTORS as nat,
                |v: int| Entry { handler: Some(fallback(v)), stack_index: None },
            ),
        ),
        complete(
            entries.update(
                vector as int,
                Entry { handler: Some(handler), stack_index: entries[vector as int].stack_index },
            ),
        ),
{
}

/// The vector table while it is being built. Its view is its 256 slots.
pub struct VectorTable {
    entries: [Entry; 256],
}

impl View for VectorTable {
    type V = Seq<Entry>;

    closed spec fn view(&self) -> Seq<Entry> {
        self.entries@
    }
}

impl VectorTable {
    /// A table of 256 empty slots.
    pub fn new() -> (table: VectorTable)
        ensures
            table@.len() == VECTORS,
            forall|vector: int| 0 <= vector < VECTORS ==> table@[vector] == empty_entry(),
    {
        VectorTable { entries: [Entry { handler: None, stack_index: None };256] }
    }

    /// The slot at `vector`.
    pub fn entry(&self, vector: u8) -> (entry: Entry)
        ensures
            self@.len() == VECTORS,
            entry == self@[vector as int],
    {
        self.entries[vector as usize]
    }

    /// Installs `handler` on every vector from `first` to `last`, both
    /// included. The stacks of the slots stay as they are.
    pub fn set_general_handler(&mut self, handler: Handler, first: u8, last: u8)
        ensures
            final(self)@.len() == VECTORS,
            forall|vector: int|
                0 <= vector < VECTORS ==> #[trigger] final(self)@[vector] == if first <= vector
                    <= last {
                    Entry { handler: Some(handler), stack_index: old(self)@[vector].stack_index }
                } else {
                    old(self)@[vector]
                },
    {
        let mut vector: usize = first as usize;
        while vector <= last as usize
            invariant
                first <= vector <= VECTORS,
                vector <= last + 1 || vector == first,
                self@.len() == VECTORS,
                forall|v: int|
                    0 <= v < VECTORS ==> #[trigger] self@[v] == if first <= v < vector {
                        Entry { handler: Some(handler), stack_index: old(self)@[v].stack_index }
                    } else {
                        old(self)@[v]
                    },
            decreases VECTORS - vector,
        {
            let stack_index = self.entries[vector].stack_index;
            self.entries[vector] = Entry { handler: Some(handler), stack_index };
            vector += 1;
        }
    }

    /// Installs `handler` on `vector`, in place of what was there. No other
    /// slot changes, and the slot keeps its stack.
    pub fn set_handler(&mut self, vector: u8, handler: Handler)
        ensures
            final(self)@ == old(self)@.update(
                vector as int,
                Entry { handler: Some(handler), stack_index: old(self)@[vector as int].stack_index },
            ),
    {
        let stack_index = self.entries[vector as usize].stack_index;
        self.entries[vector as usize] = Entry { handler: Some(handler), stack_index };
    }

    /// Lets the handler on `vector` run on the stack in slot `index` of the
    /// interrupt stack table. Does nothing and returns `false` where the
    /// table has no such slot or the vector has no handler.
    pub fn set_stack_index(&mut self, vector: u8, index: u16) -> (done: bool)
        ensures
            done == (index < IST_SLOTS && old(self)@[vector as int].handler is Some),
            done ==> final(self)@ == old(self)@.update(
                vector as int,
                Entry { handler: old(self)@[vector as int].handler, stack_index: Some(index) },
            ),
            !done ==> final(self)@ == old(self)@,
    {
        let handler = self.entries[vector as usize].handler;
        if index < IST_SLOTS && handler.is_some() {
            self.entries[vector as usize] = Entry { handler, stack_index: Some(index) };
            true
        } else {
            false
        }
    }

    /// The lowest vector whose slot is empty, `None` for a complete table.
    pub fn first_unassigned(&self) -> (missing: Option<u8>)
        ensures
            self@.len() == VECTORS,
            missing is None <==> complete(self@),
            missing matches Some(vector) ==> {
                &&& self@[vector as int].handler is None
                &&& forall|v: int| 0 <= v < vector ==> (#[trigger] self@[v]).handler is Some
            },
    {
        let mut vector: usize = 0;
        while vector < VECTORS
            invariant
                vector <= VECTORS,
                self@.len() == VECTORS,
                forall|v: int| 0 <= v < vector ==> (#[trigger] self@[v]).handler is Some,
            decreases VECTORS - vector,
        {
            if self.entries[vector].handler.is_none() {
                return Some(vector as u8);
            }
            vector += 1;
        }
        None
    }
}

/// Builds the table this kernel boots with: the interrupt fallback on every
/// vector, the exception fallback on vectors 0 to 31 over it, and then the
/// handlers for breakpoint, page fault, double fault (on its own stack),
/// timer and keyboard.
pub fn init_idt() -> (table: VectorTable)
    ensures
        table@ == booted_table(),
        complete(table@),
{
    let mut idt = VectorTable::new();
    idt.set_general_handler(Handler::GenericInterrupt, 0, 255);
    idt.set_general_handler(Handler::GenericException, 0, FIRST_INTERRUPT - 1);
    idt.set_handler(BREAKPOINT_VECTOR, Handler::Breakpoint);
    idt.set_handler(PAGE_FAULT_VECTOR, Handler::PageFault);
    idt.set_handler(DOUBLE_FAULT_VECTOR, Handler::DoubleFault);
    idt.set_stack_index(DOUBLE_FAULT_VECTOR, DOUBLE_FAULT_IST_INDEX);
    idt.set_handler(InterruptIndex::Timer.vector(), Handler::Timer);
    idt.set_handler(InterruptIndex::Keyboard.vector(), Handler::Keyboard);
    assert(idt@ =~= booted_table());
    idt
}

/// What the CPU saved when it delivered a vector.
#[derive(Clone, Copy, Debug, PartialEq, Eq)]
pub struct ExceptionContext {
    /// The vector delivered.
    pub vector: u8,
    /// The error code, for the exceptions that push one.
    pub error_code: Option<u64>,
    /// The instruction the CPU returns to.
    pub instruction_pointer: u64,
    /// The code segment selector at the time.
    pub code_segment: u64,
    /// The flags register at the time.
    pub cpu_flags: u64,
    /// The stack pointer at the time.
    pub stack_pointer: u64,
    /// The stack segment selector at the time.
    pub stack_segment: u64,
}

/// The tag a diagnostic line is printed under.
#[derive(Clone, Copy, Debug, PartialEq, Eq, Structural)]
pub enum Style {
    Warning,
    Exception,
    Panic,
}

/// A diagnostic for the console.
#[derive(Clone, Copy, Debug, PartialEq, Eq)]
pub struct Report {
    /// The tag to print it under.
    pub style: Style,
    /// The vector delivered.
    pub vector: u8,
    /// The name of the exception, where the vector has one.
    pub name: Option<ExceptionVector>,
    /// The error code, where the CPU pushed one.
    pub error_code: Option<u64>,
    /// Everything the CPU saved.
    pub context: ExceptionContext,
}

/// What the CPU does when a handler is done.
#[derive(Clone, Copy, Debug, PartialEq, Eq, Structural)]
pub enum Resumption {
    /// Return to the interrupted code.
    Resume,
    /// Stop for good.
    Halt,
}

/// What a handler does for one delivery.
#[derive(Debug)]
pub struct Outcome {
    /// The handler that ran.
    pub handler: Handler,
    /// What it reports, if anything.
    pub report: Option<Report>,
    /// The port writes that acknowledge the interrupt, in order; empty where
    /// the handler acknowledges nothing.
    pub eoi: Vec<PortWrite>,
    /// Whether the interrupted code goes on.
    pub resumption: Resumption,
}

/// The tag a handler reports under; `None` for the handlers that report
/// nothing.
pub open spec fn style_of(handler: Handler) -> Option<Style> {
    match handler {
        Handler::GenericException => Some(Style::Warning),
        Handler::GenericInterrupt => Some(Style::Warning),
        Handler::Breakpoint => Some(Style::Exception),
        Handler::DoubleFault => Some(Style::Panic),
        Handler::PageFault => Some(Style::Panic),
        Handler::Timer => None,
        Handler::Keyboard => None,
    }
}

/// What a handler reports for a delivery.
pub open spec fn report_of(handler: Handler, context: ExceptionContext) -> Option<Report> {
    match style_of(handler) {
        Some(style) => Some(
            Report {
                style,
                vector: context.vector,
                name: exception_name(context.vector),
                error_code: context.error_code,
                context,
            },
        ),
        None => None,
    }
}

/// The acknowledgment a handler issues itself. The interrupt fallback
/// acknowledges the vector it ran on unless that is an exception vector; the
/// timer acknowledges its own line. The keyboard's acknowledgment comes from
/// [`keyboard::handler`], and exceptions are never acknowledged.
pub open spec fn eoi_of(handler: Handler, vector: u8) -> Seq<PortWrite> {
    match handler {
        Handler::GenericInterrupt => if vector >= FIRST_INTERRUPT {
            eoi_writes(vector)
        } else {
            Seq::empty()
        },
        Handler::Timer => eoi_writes(TIMER_VECTOR),
        _ => Seq::empty(),
    }
}

/// Whether the interrupted code goes on after a handler. The exception
/// fallback, the double fault and the page fault are fatal.
pub open spec fn resumption_of(handler: Handler) -> Resumption {
    match handler {
        Handler::GenericException => Resumption::Halt,
        Handler::DoubleFault => Resumption::Halt,
        Handler::PageFault => Resumption::Halt,
        _ => Resumption::Resume,
    }
}

/// A complete vector table, ready for the CPU. Its view is its 256 slots,
/// none of them empty.
pub struct Dispatcher {
    table: VectorTable,
}

impl View for Dispatcher {
    type V = Seq<Entry>;

    closed spec fn view(&self) -> Seq<Entry> {
        self.table@
    }
}

impl Dispatcher {
    #[verifier::type_invariant]
    spec fn well_formed(self) -> bool {
        self.table@.len() == VECTORS && complete(self.table@)
    }

    /// Seals a table. A table with an empty slot is refused, with the lowest
    /// empty vector as the error.
    pub fn new(table: VectorTable) -> (sealed: Result<Dispatcher, u8>)
        ensures
            sealed is Ok <==> complete(table@),
            sealed matches Ok(dispatcher) ==> dispatcher@ == table@,
            sealed matches Err(vector) ==> {
                &&& table@[vector as int].handler is None
                &&& forall|v: int| 0 <= v < vector ==> (#[trigger] table@[v]).handler is Some
            },
    {
        match table.first_unassigned() {
            Some(vector) => Err(vector),
            None => Ok(Self::seal(table)),
        }
    }

    /// Seals a table that is known to be complete.
    fn seal(table: VectorTable) -> (dispatcher: Dispatcher)
        requires
            table@.len() == VECTORS,
            complete(table@),
        ensures
            dispatcher@ == table@,
    {
        Dispatcher { table }
    }

    /// The table. It has 256 slots and none is empty.
    pub fn table(&self) -> (table: &VectorTable)
        ensures
            table@ == self@,
            self@.len() == VECTORS,
            complete(self@),
    {
        proof {
            use_type_invariant(self);
        }
        &self.table
    }

    /// The handler on `vector`. Every vector has one.
    pub fn handler(&self, vector: u8) -> (handler: Handler)
        ensures
            self@[vector as int].handler == Some(handler),
    {
        proof {
            use_type_invariant(self);
        }
        self.table.entry(vector).handler.unwrap()
    }

    /// Runs the handler of the delivered vector, as far as it can run without
    /// touching the machine: says which handler it is, what it reports, which
    /// port writes acknowledge the interrupt and whether the interrupted code
    /// goes on.
    pub fn dispatch(&self, context: ExceptionContext) -> (outcome: Outcome)
        ensures
            self@[context.vector as int].handler == Some(outcome.handler),
            outcome.report == report_of(outcome.handler, context),
            outcome.eoi@ == eoi_of(outcome.handler, context.vector),
            outcome.resumption == resumption_of(outcome.handler),
    {
        let handler = self.handler(context.vector);
        match handler {
            Handler::GenericException => generic_exception_handler(context),
            Handler::GenericInterrupt => generic_interrupt_handler(context),
            Handler::Breakpoint => breakpoint_handler(context),
            Handler::DoubleFault => double_fault_handler(context),
            Handler::PageFault => page_fault_handler(context),
            Handler::Timer => timer(),
            Handler::Keyboard => Outcome {
                handler,
                report: None,
                eoi: Vec::new(),
                resumption: Resumption::Resume,
            },
        }
    }
}

/// The report of a handler with tag `style` for a delivery.
fn report(style: Style, context: ExceptionContext) -> (report: Report)
    ensures
        report == (Report {
            style,
            vector: context.vector,
            name: exception_name(context.vector),
            error_code: context.error_code,
            context,
        }),
{
    Report {
        style,
        vector: context.vector,
        name: exception_get_name(context.vector),
        error_code: context.error_code,
        context,
    }
}

/// The fallback for exceptions: reports the vector, its name, the error code
/// and the saved context, and halts.
pub fn generic_exception_handler(context: ExceptionContext) -> (outcome: Outcome)
    ensures
        outcome.handler == Handler::GenericException,
        outcome.report == report_of(Handler::GenericException, context),
        outcome.eoi@ == eoi_of(Handler::GenericException, context.vector),
        outcome.resumption == Resumption::Halt,
{
    Outcome {
        handler: Handler::GenericException,
        report: Some(report(Style::Warning, context)),
        eoi: Vec::new(),
        resumption: Resumption::Halt,
    }
}

/// The fallback for device interrupts: acknowledges the controllers so that
/// the device can interrupt again, warns, and goes on.
pub fn generic_interrupt_handler(context: ExceptionContext) -> (outcome: Outcome)
    ensures
        outcome.handler == Handler::GenericInterrupt,
        outcome.report == report_of(Handler::GenericInterrupt, context),
        outcome.eoi@ == eoi_of(Handler::GenericInterrupt, context.vector),
        outcome.resumption == Resumption::Resume,
{
    let eoi = if context.vector >= FIRST_INTERRUPT {
        send_eoi(context.vector)
    } else {
        Vec::new()
    };
    Outcome {
        handler: Handler::GenericInterrupt,
        report: Some(report(Style::Warning, context)),
        eoi,
        resumption: Resumption::Resume,
    }
}

/// The double fault handler: reports and halts. It never lets the
/// interrupted code go on.
pub fn double_fault_handler(context: ExceptionContext) -> (outcome: Outcome)
    ensures
        outcome.handler == Handler::DoubleFault,
        outcome.report == report_of(Handler::DoubleFault, context),
        outcome.eoi@ == eoi_of(Handler::DoubleFault, context.vector),
        outcome.resumption == Resumption::Halt,
{
    Outcome {
        handler: Handler::DoubleFault,
        report: Some(report(Style::Panic, context)),
        eoi: Vec::new(),
        resumption: Resumption::Halt,
    }
}

/// The breakpoint handler: reports, and the interrupted code goes on.
pub fn breakpoint_handler(context: ExceptionContext) -> (outcome: Outcome)
    ensures
        outcome.handler == Handler::Breakpoint,
        outcome.report == report_of(Handler::Breakpoint, context),
        outcome.eoi@ == eoi_of(Handler::Breakpoint, context.vector),
        outcome.resumption == Resumption::Resume,
{
    Outcome {
        handler: Handler::Breakpoint,
        report: Some(report(Style::Exception, context)),
        eoi: Vec::new(),
        resumption: Resumption::Resume,
    }
}

/// The page fault handler: reports and halts. Nothing is paged in.
pub fn page_fault_handler(context: ExceptionContext) -> (outcome: Outcome)
    ensures
        outcome.handler == Handler::PageFault,
        outcome.report == report_of(Handler::PageFault, context),
        outcome.eoi@ == eoi_of(Handler::PageFault, context.vector),
        outcome.resumption == Resumption::Halt,
{
    Outcome {
        handler: Handler::PageFault,
        report: Some(report(Style::Panic, context)),
        eoi: Vec::new(),
        resumption: Resumption::Halt,
    }
}

/// The timer handler: acknowledges the tick and nothing else.
pub fn timer() -> (outcome: Outcome)
    ensures
        outcome.handler == Handler::Timer,
        outcome.report is None,
        outcome.eoi@ == eoi_writes(TIMER_VECTOR),
        outcome.resumption == Resumption::Resume,
{
    Outcome {
        handler: Handler::Timer,
        report: None,
        eoi: send_eoi(InterruptIndex::Timer.vector()),
        resumption: Resumption::Resume,
    }
}

/// One step of bringing interrupt handling up.
#[derive(Clone, Copy, Debug, PartialEq, Eq, Structural)]
pub enum BootAction {
    /// Load the vector table into the CPU.
    LoadTable,
    /// Write a byte to a port of the interrupt controllers.
    Write(PortWrite),
    /// Let the CPU take interrupts.
    EnableInterrupts,
}

/// The steps that bring interrupt handling up, in order: the vector table is
/// loaded first, then the controllers are remapped, and interrupts are let
/// in last.
pub open spec fn boot_actions(pic1_mask: u8, pic2_mask: u8) -> Seq<BootAction> {
    let remap = remap_writes(standard_primary(), standard_secondary(), pic1_mask, pic2_mask);
    seq![BootAction::LoadTable] + Seq::new(remap.len(), |i: int| BootAction::Write(remap[i]))
        + seq![BootAction::EnableInterrupts]
}

/// What the boot code has to do to the machine.
pub struct Boot {
    /// The complete vector table.
    pub dispatcher: Dispatcher,
    /// The steps to perform, in order.
    pub actions: Vec<BootAction>,
}

/// Prepares interrupt handling: builds the vector table and plans the steps
/// that put it to work, given the two interrupt masks as read from the
/// controllers' data ports.
pub fn init(pic1_mask: u8, pic2_mask: u8) -> (boot: Boot)
    ensures
        boot.dispatcher@ == booted_table(),
        boot.actions@ == boot_actions(pic1_mask, pic2_mask),
{
    let dispatcher = Dispatcher::seal(init_idt());
    let remap = init_pic(pic1_mask, pic2_mask);
    let mut actions: Vec<BootAction> = Vec::new();
    actions.push(BootAction::LoadTable);
    let mut i: usize = 0;
    while i < remap.len()
        invariant
            i <= remap.len(),
            actions@ == seq![BootAction::LoadTable] + Seq::new(
                i as nat,
                |k: int| BootAction::Write(remap@[k]),
            ),
        decreases remap.len() - i,
    {
        actions.push(BootAction::Write(remap[i]));
        i += 1;
    }
    actions.push(BootAction::EnableInterrupts);
    Boot { dispatcher, actions }
}

} // verus!
