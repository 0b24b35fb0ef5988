//! The interrupt dispatch table and the exception handlers.
//!
//! The dispatch table is the 256-entry vector table: each registered
//! vector records which handler routine serves it and, for the double
//! fault, which interrupt-stack-table slot supplies a replacement stack.
//! The handlers themselves decide, from the hardware-provided fault
//! information, what to report and whether the interrupted code resumes
//! or the processor halts for good.

use vstd::prelude::*;

use crate::gdt::DOUBLE_FAULT_IST_INDEX;
use crate::gdt::IST_SLOTS;
use crate::gdt::TaskStateSegment;

verus! {

/// Number of entries in the interrupt dispatch table.
pub const IDT_ENTRIES: usize = 256;

/// Vector number of the breakpoint trap.
pub const BREAKPOINT_VECTOR: usize = 3;

/// Vector number of the double fault.
pub const DOUBLE_FAULT_VECTOR: usize = 8;

/// Vector number of the page fault.
pub const PAGE_FAULT_VECTOR: usize = 14;

/// The handler routines this stage can bind to a vector.
#[derive(Debug, Clone, Copy, PartialEq, Eq, Structural)]
pub enum HandlerKind {
    Breakpoint,
    DoubleFault,
    PageFault,
}

/// One registered gate: the routine bound to the vector and, if set, the
/// interrupt-stack-table slot the processor must switch to first.
#[derive(Debug, Clone, Copy, PartialEq, Eq)]
pub struct Gate {
    pub handler: HandlerKind,
    pub ist_index: Option<usize>,
}

/// The interrupt dispatch table: one slot per vector; `None` keeps the
/// table's default unhandled-fault behaviour for that vector.
pub struct InterruptDescriptorTable {
    pub entries: Vec<Option<Gate>>,
}

impl InterruptDescriptorTable {
    /// Well-formedness: exactly one slot per vector number.
    pub open spec fn wf(&self) -> bool {
        self.entries@.len() == IDT_ENTRIES
    }

    /// A fresh table with every vector unregistered.
    pub fn new() -> (t: InterruptDescriptorTable)
        ensures
            t.wf(),
            forall|v: int| 0 <= v < IDT_ENTRIES ==> t.entries@[v] is None,
    {
        let mut entries: Vec<Option<Gate>> = Vec::new();
        let mut i: usize = 0;
        while i < IDT_ENTRIES
            invariant
                i <= IDT_ENTRIES,
                entries@.len() == i,
                forall|v: int| 0 <= v < i ==> entries@[v] is None,
            decreases IDT_ENTRIES - i,
        {
            entries.push(None);
            i = i + 1;
        }
        InterruptDescriptorTable { entries }
    }

    /// Binds `handler` to `vector`, on the interrupted code's own stack.
    pub fn set_handler(&mut self, vector: usize, handler: HandlerKind)
        requires
            old(self).wf(),
            vector < IDT_ENTRIES,
        ensures
            final(self).wf(),
            final(self).entries@ == old(self).entries@.update(
                vector as int,
                Some(Gate { handler, ist_index: None }),
            ),
    {
        self.entries.set(vector, Some(Gate { handler, ist_index: None }));
    }

    /// Binds `handler` to `vector` and makes the processor switch to
    /// interrupt-stack-table slot `ist_index` before running it.
    pub fn set_handler_with_stack(&mut self, vector: usize, handler: HandlerKind, ist_index: usize)
        requires
            old(self).wf(),
            vector < IDT_ENTRIES,
            ist_index < IST_SLOTS,
        ensures
            final(self).wf(),
            final(self).entries@ == old(self).entries@.update(
                vector as int,
                Some(Gate { handler, ist_index: Some(ist_index) }),
            ),
    {
        self.entries.set(vector, Some(Gate { handler, ist_index: Some(ist_index) }));
    }

    /// The load operand for this table once its gates are placed at
    /// `base`: one 16-byte gate per vector.
    pub fn pointer(&self, base: u64) -> (p: crate::gdt::DescriptorTablePointer)
        requires
            self.wf(),
        ensures
            p.base == base,
            p.limit == IDT_ENTRIES * 16 - 1,
    {
        crate::gdt::DescriptorTablePointer { base, limit: (IDT_ENTRIES * 16 - 1) as u16 }
    }
}

/// What `init_idt` builds: breakpoint and page fault on the running
/// stack, double fault forced onto the reserved interrupt stack, every
/// other vector left to the default unhandled-fault behaviour.
pub open spec fn idt_built(t: InterruptDescriptorTable) -> bool {
    &&& t.wf()
    &&& t.entries@[BREAKPOINT_VECTOR as int] == Some(
        Gate { handler: HandlerKind::Breakpoint, ist_index: None },
    )
    &&& t.entries@[DOUBLE_FAULT_VECTOR as int] == Some(
        Gate { handler: HandlerKind::DoubleFault, ist_index: Some(DOUBLE_FAULT_IST_INDEX) },
    )
    &&& t.entries@[PAGE_FAULT_VECTOR as int] == Some(
        Gate { handler: HandlerKind::PageFault, ist_index: None },
    )
    &&& forall|v: int|
        0 <= v < IDT_ENTRIES && v != BREAKPOINT_VECTOR && v != DOUBLE_FAULT_VECTOR && v
            != PAGE_FAULT_VECTOR ==> t.entries@[v] is None
}

/// Builds the dispatch table this stage runs with.
pub fn init_idt() -> (t: InterruptDescriptorTable)
    ensures
        idt_built(t),
{
    let mut t = InterruptDescriptorTable::new();
    t.set_handler(BREAKPOINT_VECTOR, HandlerKind::Breakpoint);
    t.set_handler_with_stack(DOUBLE_FAULT_VECTOR, HandlerKind::DoubleFault,
        DOUBLE_FAULT_IST_INDEX);
    t.set_handler(PAGE_FAULT_VECTOR, HandlerKind::PageFault);
    t
}

/// Whether the interrupted code continues after the handler, or control
/// never returns to it.
#[derive(Debug, Clone, Copy, PartialEq, Eq, Structural)]
pub enum Disposition {
    /// Return from the handler; the processor resumes the interrupted
    /// code at the saved instruction pointer.
    Resume,
    /// Never return: the handler parks the processor in a halt loop.
    Halt,
}

/// Whether the faulting memory access was a read or a write, as decoded
/// from the hardware's page-fault error code.
#[derive(Debug, Clone, Copy, PartialEq, Eq, Structural)]
pub enum AccessKind {
    Read,
    Write,
}

/// The stack frame the hardware hands a handler: for a breakpoint trap
/// the saved instruction pointer is already the instruction after the
/// trigger, so resuming continues right behind it.
#[derive(Debug, Clone, Copy, PartialEq, Eq, Structural)]
pub struct TrapFrame {
    pub instruction_pointer: u64,
    pub code_segment: u64,
    pub cpu_flags: u64,
    pub stack_pointer: u64,
    pub stack_segment: u64,
}

/// One diagnostic record a handler emits for the output sink.
#[derive(Debug, Clone, Copy, PartialEq, Eq)]
pub enum Diagnostic {
    BreakpointHit { instruction_pointer: u64 },
    DoubleFault { instruction_pointer: u64, error_code: u64 },
    PageFault {
        accessed_address: u64,
        access: AccessKind,
        protection_violation: bool,
        instruction_pointer: u64,
    },
}

/// What a handler decided: the diagnostics to emit and whether the
/// interrupted code resumes.
pub struct TrapResponse {
    pub diagnostics: Vec<Diagnostic>,
    pub disposition: Disposition,
}

/// The fixed disposition of each handler routine: only the breakpoint
/// trap is recoverable at this stage.
pub open spec fn handler_disposition(h: HandlerKind) -> Disposition {
    match h {
        HandlerKind::Breakpoint => Disposition::Resume,
        HandlerKind::DoubleFault => Disposition::Halt,
        HandlerKind::PageFault => Disposition::Halt,
    }
}

/// A recoverable handler is one after which the interrupted code goes on.
pub open spec fn recoverable(h: HandlerKind) -> bool {
    handler_disposition(h) == Disposition::Resume
}

/// Where execution continues when a handler resumes: exactly the saved
/// instruction pointer, which for a trap is the instruction after the
/// triggering one.
pub open spec fn resume_address(frame: TrapFrame) -> u64 {
    frame.instruction_pointer
}

/// The access kind encoded in a page-fault error code: bit 1 is set
/// exactly when the fault was caused by a write.
pub open spec fn spec_access_kind(error_code: u64) -> AccessKind {
    if error_code & 2 != 0 {
        AccessKind::Write
    } else {
        AccessKind::Read
    }
}

/// Breakpoint trap: log the triggering frame once and resume the
/// interrupted code at the instruction after the trigger.
pub fn breakpoint_handler(frame: &TrapFrame) -> (r: TrapResponse)
    ensures
        r.diagnostics@ == seq![
            (Diagnostic::BreakpointHit { instruction_pointer: frame.instruction_pointer }),
        ],
        r.disposition == Disposition::Resume,
        r.disposition == handler_disposition(HandlerKind::Breakpoint),
        resume_address(*frame) == frame.instruction_pointer,
{
    let mut diagnostics: Vec<Diagnostic> = Vec::new();
    diagnostics.push(Diagnostic::BreakpointHit {
        instruction_pointer: frame.instruction_pointer,
    });
    proof {
        assert(diagnostics@ =~= seq![
            (Diagnostic::BreakpointHit { instruction_pointer: frame.instruction_pointer }),
        ]);
    }
    TrapResponse { diagnostics, disposition: Disposition::Resume }
}

/// Double fault: log the frame and the error code once, then never
/// return — the original stack cannot be trusted, so the processor is
/// parked.
pub fn double_fault_handler(frame: &TrapFrame, error_code: u64) -> (r: TrapResponse)
    ensures
        r.diagnostics@ == seq![
            (Diagnostic::DoubleFault {
                instruction_pointer: frame.instruction_pointer,
                error_code,
            }),
        ],
        r.disposition == Disposition::Halt,
        r.disposition == handler_disposition(HandlerKind::DoubleFault),
{
    let mut diagnostics: Vec<Diagnostic> = Vec::new();
    diagnostics.push(Diagnostic::DoubleFault {
        instruction_pointer: frame.instruction_pointer,
        error_code,
    });
    proof {
        assert(diagnostics@ =~= seq![
            (Diagnostic::DoubleFault {
                instruction_pointer: frame.instruction_pointer,
                error_code,
            }),
        ]);
    }
    TrapResponse { diagnostics, disposition: Disposition::Halt }
}

/// Page fault: report the faulting address and whether the access was a
/// read or a write, then halt — no recovery exists at this stage.
///
/// `accessed_address` is the address the hardware latched for the fault;
/// `error_code` is the hardware error code, whose bit 0 distinguishes a
/// protection violation from a missing page and whose bit 1 marks a
/// write access.
pub fn page_fault_handler(frame: &TrapFrame, accessed_address: u64, error_code: u64) -> (r:
    TrapResponse)
    ensures
        r.diagnostics@ == seq![
            (Diagnostic::PageFault {
                accessed_address,
                access: spec_access_kind(error_code),
                protection_violation: error_code & 1 != 0,
                instruction_pointer: frame.instruction_pointer,
            }),
        ],
        r.disposition == Disposition::Halt,
        r.disposition == handler_disposition(HandlerKind::PageFault),
{
    let access = if error_code & 2 != 0 {
        AccessKind::Write
    } else {
        AccessKind::Read
    };
    let protection_violation = error_code & 1 != 0;
    let mut diagnostics: Vec<Diagnostic> = Vec::new();
    diagnostics.push(Diagnostic::PageFault {
        accessed_address,
        access,
        protection_violation,
        instruction_pointer: frame.instruction_pointer,
    });
    proof {
        assert(diagnostics@ =~= seq![
            (Diagnostic::PageFault {
                accessed_address,
                access: spec_access_kind(error_code),
                protection_violation: error_code & 1 != 0,
                instruction_pointer: frame.instruction_pointer,
            }),
        ]);
    }
    TrapResponse { diagnostics, disposition: Disposition::Halt }
}

/// In the built dispatch table, every registered recoverable vector is
/// the breakpoint trap, whose handler resumes the interrupted code —
/// and, by `breakpoint_handler`'s contract, emits its diagnostic exactly
/// once per occurrence.
pub proof fn lemma_recoverable_vectors_resume(t: InterruptDescriptorTable)
    requires
        idt_built(t),
    ensures
        forall|v: int|
            0 <= v < IDT_ENTRIES ==> (#[trigger] t.entries@[v] matches Some(g) ==> (recoverable(
                g.handler) ==> g.handler == HandlerKind::Breakpoint && handler_disposition(
                g.handler) == Disposition::Resume)),
{
    assert forall|v: int|
        0 <= v < IDT_ENTRIES implies (#[trigger] t.entries@[v] matches Some(g) ==> (recoverable(
        g.handler) ==> g.handler == HandlerKind::Breakpoint && handler_disposition(g.handler)
        == Disposition::Resume)) by {
        if v != BREAKPOINT_VECTOR && v != DOUBLE_FAULT_VECTOR && v != PAGE_FAULT_VECTOR {
            assert(t.entries@[v] is None);
        }
    }
}

/// A page fault caused by a read and one caused by a write can never be
/// confused: the reported access kinds differ whenever error-code bit 1
/// differs.
pub proof fn lemma_read_write_distinguished(read_code: u64, write_code: u64)
    requires
        read_code & 2 == 0,
        write_code & 2 != 0,
    ensures
        spec_access_kind(read_code) == AccessKind::Read,
        spec_access_kind(write_code) == AccessKind::Write,
        spec_access_kind(read_code) != spec_access_kind(write_code),
{
}

/// The stack pointer the processor ends up on when vector `vector` is
/// raised while the interrupted code runs on `interrupted_stack`: a gate
/// with an interrupt-stack-table slot forces the switch to that slot's
/// pointer, unconditionally; any other gate keeps the interrupted stack.
pub open spec fn fault_stack_pointer(
    t: InterruptDescriptorTable,
    tss: TaskStateSegment,
    vector: int,
    interrupted_stack: u64,
) -> u64 {
    if 0 <= vector < t.entries@.len() {
        match t.entries@[vector] {
            Some(g) => match g.ist_index {
                Some(i) => if i < IST_SLOTS {
                    tss.interrupt_stack_table@[i as int]
                } else {
                    interrupted_stack
                },
                None => interrupted_stack,
            },
            None => interrupted_stack,
        }
    } else {
        interrupted_stack
    }
}

} // verus!
