//! Tests for the descriptor tables, the dispatch table, the exception
//! handlers and the initialization sequencer.

use blog_os::gdt::{
    GlobalDescriptorTable, TaskStateSegment, DOUBLE_FAULT_IST_INDEX, KERNEL_CODE_DESCRIPTOR,
    STACK_SIZE,
};
use blog_os::interrupts::{
    breakpoint_handler, double_fault_handler, init_idt, page_fault_handler, AccessKind,
    Diagnostic, Disposition, Gate, HandlerKind, TrapFrame, BREAKPOINT_VECTOR,
    DOUBLE_FAULT_VECTOR, IDT_ENTRIES, PAGE_FAULT_VECTOR,
};
use blog_os::{init, setup_plan, SetupAction};

fn frame(instruction_pointer: u64) -> TrapFrame {
    TrapFrame {
        instruction_pointer,
        code_segment: 8,
        cpu_flags: 0x202,
        stack_pointer: 0x8000,
        stack_segment: 0,
    }
}

#[test]
fn gdt_starts_with_null_descriptor() {
    let gdt = GlobalDescriptorTable::new();
    assert_eq!(gdt.entries, vec![0]);
}

#[test]
fn gdt_append_returns_scaled_selectors() {
    let mut gdt = GlobalDescriptorTable::new();
    let code = gdt.append(KERNEL_CODE_DESCRIPTOR);
    let tss = gdt.append_tss(0x123456789a);
    assert_eq!(code, 8);
    assert_eq!(tss, 16);
    assert_eq!(
        gdt.entries,
        vec![0, KERNEL_CODE_DESCRIPTOR, 0x34008956789a0067, 0x12]
    );
}

#[test]
fn fresh_tss_has_no_stacks_assigned() {
    let tss = TaskStateSegment::new();
    assert_eq!(tss.privilege_stack_table, vec![0, 0, 0]);
    assert_eq!(tss.interrupt_stack_table, vec![0, 0, 0, 0, 0, 0, 0]);
}

#[test]
fn init_points_double_fault_stack_at_reserved_top() {
    let config = init(0x5000, 0x10000);
    assert_eq!(config.selectors.code_selector, 8);
    assert_eq!(config.selectors.tss_selector, 16);
    assert_eq!(config.gdt.entries[0], 0);
    assert_eq!(config.gdt.entries[1], KERNEL_CODE_DESCRIPTOR);
    assert_eq!(
        config.tss.interrupt_stack_table[DOUBLE_FAULT_IST_INDEX],
        0x15000
    );
    assert_eq!(0x10000 + STACK_SIZE, 0x15000);
    for (slot, top) in config.tss.interrupt_stack_table.iter().enumerate() {
        if slot != DOUBLE_FAULT_IST_INDEX {
            assert_eq!(*top, 0);
        }
    }
}

#[test]
fn idt_registers_the_three_vectors_only() {
    let idt = init_idt();
    assert_eq!(idt.entries.len(), IDT_ENTRIES);
    assert_eq!(
        idt.entries[BREAKPOINT_VECTOR],
        Some(Gate { handler: HandlerKind::Breakpoint, ist_index: None })
    );
    assert_eq!(
        idt.entries[DOUBLE_FAULT_VECTOR],
        Some(Gate {
            handler: HandlerKind::DoubleFault,
            ist_index: Some(DOUBLE_FAULT_IST_INDEX),
        })
    );
    assert_eq!(
        idt.entries[PAGE_FAULT_VECTOR],
        Some(Gate { handler: HandlerKind::PageFault, ist_index: None })
    );
    for (vector, gate) in idt.entries.iter().enumerate() {
        if vector != BREAKPOINT_VECTOR && vector != DOUBLE_FAULT_VECTOR
            && vector != PAGE_FAULT_VECTOR
        {
            assert_eq!(*gate, None);
        }
    }
}

#[test]
fn breakpoint_logs_once_and_resumes() {
    let response = breakpoint_handler(&frame(0x201234));
    assert_eq!(response.disposition, Disposition::Resume);
    assert_eq!(
        response.diagnostics,
        vec![Diagnostic::BreakpointHit { instruction_pointer: 0x201234 }]
    );
}

#[test]
fn double_fault_halts_for_good() {
    let response = double_fault_handler(&frame(0x20aa00), 0);
    assert_eq!(response.disposition, Disposition::Halt);
    assert_eq!(
        response.diagnostics,
        vec![Diagnostic::DoubleFault { instruction_pointer: 0x20aa00, error_code: 0 }]
    );
}

#[test]
fn page_fault_reports_read_and_write_distinctly() {
    let read = page_fault_handler(&frame(0x2031b2), 0xdeadbeef, 0);
    let write = page_fault_handler(&frame(0x2031b2), 0xdeadbeef, 0b11);
    assert_eq!(
        read.diagnostics,
        vec![Diagnostic::PageFault {
            accessed_address: 0xdeadbeef,
            access: AccessKind::Read,
            protection_violation: false,
            instruction_pointer: 0x2031b2,
        }]
    );
    assert_eq!(
        write.diagnostics,
        vec![Diagnostic::PageFault {
            accessed_address: 0xdeadbeef,
            access: AccessKind::Write,
            protection_violation: true,
            instruction_pointer: 0x2031b2,
        }]
    );
    assert_eq!(read.disposition, Disposition::Halt);
    assert_eq!(write.disposition, Disposition::Halt);
}

#[test]
fn sequencer_is_deterministic_and_repeatable() {
    let first = init(0x5000, 0x10000);
    let second = init(0x5000, 0x10000);
    assert_eq!(first.gdt.entries, second.gdt.entries);
    assert_eq!(
        first.tss.interrupt_stack_table,
        second.tss.interrupt_stack_table
    );
    assert_eq!(
        first.tss.privilege_stack_table,
        second.tss.privilege_stack_table
    );
    assert_eq!(first.idt.entries, second.idt.entries);
    assert_eq!(first.selectors.code_selector, second.selectors.code_selector);
    assert_eq!(first.selectors.tss_selector, second.selectors.tss_selector);
}

#[test]
fn table_pointers_carry_base_and_limit() {
    let mut gdt = GlobalDescriptorTable::new();
    gdt.append(KERNEL_CODE_DESCRIPTOR);
    gdt.append_tss(0x5000);
    let gdt_pointer = gdt.pointer(0x7000);
    assert_eq!(gdt_pointer.base, 0x7000);
    assert_eq!(gdt_pointer.limit, 4 * 8 - 1);

    let idt = init_idt();
    let idt_pointer = idt.pointer(0x9000);
    assert_eq!(idt_pointer.base, 0x9000);
    assert_eq!(idt_pointer.limit, 0xfff);
}

#[test]
fn setup_plan_loads_gdt_before_idt() {
    let plan = setup_plan();
    assert_eq!(
        plan,
        vec![
            SetupAction::LoadGdt,
            SetupAction::ReloadCodeSegment,
            SetupAction::LoadTss,
            SetupAction::LoadIdt,
        ]
    );
}
