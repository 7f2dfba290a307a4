use runix::gdt::{double_fault_stack, DOUBLE_FAULT_IST_INDEX};
use runix::interrupts::pic8259::{init_pic, PortWrite};
use runix::interrupts::{
    exception_get_name, init, init_idt, BootAction, Dispatcher, Entry, ExceptionContext,
    ExceptionVector, Handler, InterruptIndex, Report, Resumption, Style, VectorClass, VectorTable,
};

fn context(vector: u8, error_code: Option<u64>, stack_pointer: u64) -> ExceptionContext {
    ExceptionContext {
        vector,
        error_code,
        instruction_pointer: 0x10_0000,
        code_segment: 8,
        cpu_flags: 0x202,
        stack_pointer,
        stack_segment: 0,
    }
}

fn booted() -> Dispatcher {
    init(0xff, 0xff).dispatcher
}

#[test]
fn every_vector_has_a_handler_after_init() {
    let dispatcher = booted();
    let table = dispatcher.table();
    assert_eq!(table.first_unassigned(), None);
    for vector in 0..=255u8 {
        assert!(table.entry(vector).handler.is_some());
        let expected = match vector {
            3 => Handler::Breakpoint,
            8 => Handler::DoubleFault,
            14 => Handler::PageFault,
            0x20 => Handler::Timer,
            0x21 => Handler::Keyboard,
            v if v < 32 => Handler::GenericException,
            _ => Handler::GenericInterrupt,
        };
        assert_eq!(dispatcher.handler(vector), expected);
        assert_eq!(dispatcher.dispatch(context(vector, None, 0)).handler, expected);
    }
}

#[test]
fn every_vector_has_a_handler_before_the_specific_ones() {
    let mut table = VectorTable::new();
    table.set_general_handler(Handler::GenericInterrupt, 0, 255);
    table.set_general_handler(Handler::GenericException, 0, 31);
    assert_eq!(table.first_unassigned(), None);
    let dispatcher = Dispatcher::new(table).ok().unwrap();
    for vector in 0..=255u8 {
        let expected = if vector < 32 {
            Handler::GenericException
        } else {
            Handler::GenericInterrupt
        };
        assert_eq!(dispatcher.handler(vector), expected);
    }
}

#[test]
fn a_table_with_an_empty_slot_is_not_sealed() {
    assert_eq!(Dispatcher::new(VectorTable::new()).err(), Some(0));
    let mut table = VectorTable::new();
    table.set_general_handler(Handler::GenericException, 0, 31);
    assert_eq!(table.first_unassigned(), Some(32));
    assert_eq!(Dispatcher::new(table).err(), Some(32));
    let mut table = VectorTable::new();
    table.set_general_handler(Handler::GenericInterrupt, 0, 254);
    assert_eq!(Dispatcher::new(table).err(), Some(255));
}

#[test]
fn a_specific_handler_replaces_the_fallback_of_its_vector_only() {
    let mut table = VectorTable::new();
    table.set_general_handler(Handler::GenericInterrupt, 0, 255);
    table.set_handler(0x21, Handler::Keyboard);
    for vector in 0..=255u8 {
        let expected = if vector == 0x21 {
            Handler::Keyboard
        } else {
            Handler::GenericInterrupt
        };
        assert_eq!(
            table.entry(vector),
            Entry { handler: Some(expected), stack_index: None }
        );
    }
}

#[test]
fn general_handler_on_an_empty_range_changes_nothing() {
    let mut table = VectorTable::new();
    table.set_general_handler(Handler::GenericInterrupt, 10, 9);
    assert_eq!(table.first_unassigned(), Some(0));
    for vector in 0..=255u8 {
        assert_eq!(table.entry(vector), Entry { handler: None, stack_index: None });
    }
    table.set_general_handler(Handler::Timer, 7, 7);
    assert_eq!(table.entry(6).handler, None);
    assert_eq!(table.entry(7).handler, Some(Handler::Timer));
    assert_eq!(table.entry(8).handler, None);
}

#[test]
fn stack_index_needs_a_handler_and_a_slot() {
    let mut table = VectorTable::new();
    assert!(!table.set_stack_index(8, 0));
    assert_eq!(table.entry(8), Entry { handler: None, stack_index: None });
    table.set_handler(8, Handler::DoubleFault);
    assert!(!table.set_stack_index(8, 7));
    assert_eq!(table.entry(8).stack_index, None);
    assert!(table.set_stack_index(8, 6));
    assert_eq!(
        table.entry(8),
        Entry { handler: Some(Handler::DoubleFault), stack_index: Some(6) }
    );
    table.set_handler(8, Handler::GenericException);
    assert_eq!(table.entry(8).stack_index, Some(6));
}

#[test]
fn classes_of_slots() {
    let table = init_idt();
    assert_eq!(table.entry(0).class(0), VectorClass::Exception);
    assert_eq!(table.entry(31).class(31), VectorClass::Exception);
    assert_eq!(table.entry(32).class(32), VectorClass::Interrupt);
    assert_eq!(table.entry(255).class(255), VectorClass::Interrupt);
    let empty = VectorTable::new();
    assert_eq!(empty.entry(0).class(0), VectorClass::Unassigned);
    assert_eq!(empty.entry(200).class(200), VectorClass::Unassigned);
}

#[test]
fn interrupt_vectors() {
    assert_eq!(InterruptIndex::Timer.vector(), 0x20);
    assert_eq!(InterruptIndex::Keyboard.vector(), 0x21);
}

#[test]
fn unassigned_device_vector_warns_acknowledges_and_resumes() {
    let dispatcher = booted();
    let ctx = context(200, None, 0x8000);
    let outcome = dispatcher.dispatch(ctx);
    assert_eq!(outcome.handler, Handler::GenericInterrupt);
    assert_eq!(
        outcome.report,
        Some(Report {
            style: Style::Warning,
            vector: 200,
            name: None,
            error_code: None,
            context: ctx,
        })
    );
    assert_eq!(outcome.eoi, vec![PortWrite { port: 0x20, value: 0x20 }]);
    assert_eq!(outcome.resumption, Resumption::Resume);
}

#[test]
fn unassigned_vector_of_the_secondary_acknowledges_both() {
    let outcome = booted().dispatch(context(0x2c, None, 0));
    assert_eq!(outcome.handler, Handler::GenericInterrupt);
    assert_eq!(
        outcome.eoi,
        vec![PortWrite { port: 0xa0, value: 0x20 }, PortWrite { port: 0x20, value: 0x20 }]
    );
    assert_eq!(outcome.resumption, Resumption::Resume);
}

#[test]
fn interrupt_fallback_on_an_exception_vector_acknowledges_nothing() {
    let mut table = VectorTable::new();
    table.set_general_handler(Handler::GenericInterrupt, 0, 255);
    let dispatcher = Dispatcher::new(table).ok().unwrap();
    let outcome = dispatcher.dispatch(context(31, None, 0));
    assert_eq!(outcome.handler, Handler::GenericInterrupt);
    assert!(outcome.eoi.is_empty());
    assert_eq!(outcome.resumption, Resumption::Resume);
    let outcome = dispatcher.dispatch(context(32, None, 0));
    assert_eq!(outcome.eoi, vec![PortWrite { port: 0x20, value: 0x20 }]);
}

#[test]
fn double_fault_runs_on_its_own_stack_and_halts() {
    let dispatcher = booted();
    let entry = dispatcher.table().entry(8);
    assert_eq!(entry.handler, Some(Handler::DoubleFault));
    assert_eq!(entry.stack_index, Some(DOUBLE_FAULT_IST_INDEX));
    let region = double_fault_stack(0x20_0000).unwrap();
    let ctx = context(8, Some(0), region.top - 40);
    let outcome = dispatcher.dispatch(ctx);
    assert_eq!(outcome.handler, Handler::DoubleFault);
    assert_eq!(outcome.resumption, Resumption::Halt);
    assert!(outcome.eoi.is_empty());
    let report = outcome.report.unwrap();
    assert_eq!(report.style, Style::Panic);
    assert_eq!(report.name, Some(ExceptionVector::Double));
    assert_eq!(report.error_code, Some(0));
    assert_eq!(report.context, ctx);
    assert!(region.contains(report.context.stack_pointer));
}

#[test]
fn breakpoint_reports_and_resumes() {
    let ctx = context(3, None, 0x9000);
    let outcome = booted().dispatch(ctx);
    assert_eq!(outcome.handler, Handler::Breakpoint);
    assert_eq!(
        outcome.report,
        Some(Report {
            style: Style::Exception,
            vector: 3,
            name: Some(ExceptionVector::Breakpoint),
            error_code: None,
            context: ctx,
        })
    );
    assert!(outcome.eoi.is_empty());
    assert_eq!(outcome.resumption, Resumption::Resume);
}

#[test]
fn page_fault_reports_and_halts() {
    let ctx = context(14, Some(2), 0x9000);
    let outcome = booted().dispatch(ctx);
    assert_eq!(outcome.handler, Handler::PageFault);
    assert_eq!(
        outcome.report,
        Some(Report {
            style: Style::Panic,
            vector: 14,
            name: Some(ExceptionVector::Page),
            error_code: Some(2),
            context: ctx,
        })
    );
    assert!(outcome.eoi.is_empty());
    assert_eq!(outcome.resumption, Resumption::Halt);
}

#[test]
fn other_exceptions_report_and_halt() {
    let ctx = context(13, Some(0x10), 0x9000);
    let outcome = booted().dispatch(ctx);
    assert_eq!(outcome.handler, Handler::GenericException);
    assert_eq!(
        outcome.report,
        Some(Report {
            style: Style::Warning,
            vector: 13,
            name: Some(ExceptionVector::GeneralProtection),
            error_code: Some(0x10),
            context: ctx,
        })
    );
    assert!(outcome.eoi.is_empty());
    assert_eq!(outcome.resumption, Resumption::Halt);
    let reserved = booted().dispatch(context(15, None, 0));
    assert_eq!(reserved.report.unwrap().name, None);
    assert_eq!(reserved.resumption, Resumption::Halt);
}

#[test]
fn timer_acknowledges_and_keyboard_leaves_it_to_its_handler() {
    let dispatcher = booted();
    let tick = dispatcher.dispatch(context(0x20, None, 0));
    assert_eq!(tick.handler, Handler::Timer);
    assert_eq!(tick.report, None);
    assert_eq!(tick.eoi, vec![PortWrite { port: 0x20, value: 0x20 }]);
    assert_eq!(tick.resumption, Resumption::Resume);
    let key = dispatcher.dispatch(context(0x21, None, 0));
    assert_eq!(key.handler, Handler::Keyboard);
    assert_eq!(key.report, None);
    assert!(key.eoi.is_empty());
    assert_eq!(key.resumption, Resumption::Resume);
}

#[test]
fn init_loads_the_table_then_remaps_then_enables() {
    let boot = init(0xfc, 0xff);
    let remap = init_pic(0xfc, 0xff);
    assert_eq!(boot.actions.len(), 20);
    assert_eq!(boot.actions[0], BootAction::LoadTable);
    for (n, write) in remap.iter().enumerate() {
        assert_eq!(boot.actions[n + 1], BootAction::Write(*write));
    }
    assert_eq!(boot.actions[17], BootAction::Write(PortWrite { port: 0x21, value: 0xfc }));
    assert_eq!(boot.actions[18], BootAction::Write(PortWrite { port: 0xa1, value: 0xff }));
    assert_eq!(boot.actions[19], BootAction::EnableInterrupts);
    let enables = boot.actions.iter().filter(|a| **a == BootAction::EnableInterrupts).count();
    assert_eq!(enables, 1);
}

#[test]
fn names_of_exceptions() {
    assert_eq!(exception_get_name(0), Some(ExceptionVector::Division));
    assert_eq!(exception_get_name(3), Some(ExceptionVector::Breakpoint));
    assert_eq!(exception_get_name(4), Some(ExceptionVector::Overflow));
    assert_eq!(exception_get_name(5), Some(ExceptionVector::BoundRange));
    assert_eq!(exception_get_name(8), Some(ExceptionVector::Double));
    assert_eq!(exception_get_name(9), None);
    assert_eq!(exception_get_name(14), Some(ExceptionVector::Page));
    assert_eq!(exception_get_name(15), None);
    assert_eq!(exception_get_name(0x15), Some(ExceptionVector::ControlProtection));
    assert_eq!(exception_get_name(0x16), None);
    assert_eq!(exception_get_name(0x1b), None);
    assert_eq!(exception_get_name(0x1c), Some(ExceptionVector::HypervisorInjection));
    assert_eq!(exception_get_name(0x1e), Some(ExceptionVector::Security));
    assert_eq!(exception_get_name(0x1f), None);
    for vector in 32..=255u8 {
        assert_eq!(exception_get_name(vector), None);
    }
    let named = (0..=255u8).filter(|v| exception_get_name(*v).is_some()).count();
    assert_eq!(named, 23);
}
