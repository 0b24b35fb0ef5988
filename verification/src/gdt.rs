//! Segment and task descriptor tables.
//!
//! The processor's segment machinery wants a Global Descriptor Table whose
//! first entry is the null descriptor, plus a Task State Segment whose
//! interrupt-stack-table slot for the double-fault vector points at the top
//! of a reserved emergency stack.  This module builds those tables as plain
//! data, with the 64-bit descriptor encodings stated bit by bit; loading
//! them into the processor is a privileged action that happens outside the
//! library.

use vstd::prelude::*;

verus! {

/// Size in bytes of the reserved double-fault emergency stack.
pub const STACK_SIZE: u64 = 4096 * 5;

/// The interrupt-stack-table slot reserved for the double-fault handler.
pub const DOUBLE_FAULT_IST_INDEX: usize = 0;

/// Number of interrupt-stack-table slots in a task state segment.
pub const IST_SLOTS: usize = 7;

/// Number of privilege-stack slots in a task state segment.
pub const PRIVILEGE_STACK_SLOTS: usize = 3;

/// The 64-bit kernel code-segment descriptor: present, executable,
/// ring 0, long mode.  (Limit and base are fixed flat-memory values.)
pub const KERNEL_CODE_DESCRIPTOR: u64 = 0x00af9b000000ffff;

/// The descriptor's present bit (bit 47).
pub open spec fn descriptor_present(d: u64) -> bool {
    (d >> 47) & 1 == 1
}

/// The descriptor's privilege level (bits 45..47); ring 0 is 0.
pub open spec fn descriptor_dpl(d: u64) -> u64 {
    (d >> 45) & 3
}

/// The descriptor-type bit (bit 44): set for code/data, clear for system
/// descriptors such as a TSS descriptor.
pub open spec fn descriptor_is_user_segment(d: u64) -> bool {
    (d >> 44) & 1 == 1
}

/// The executable bit (bit 43) of a code/data descriptor.
pub open spec fn descriptor_executable(d: u64) -> bool {
    (d >> 43) & 1 == 1
}

/// The long-mode bit (bit 53) of a code descriptor.
pub open spec fn descriptor_long_mode(d: u64) -> bool {
    (d >> 53) & 1 == 1
}

/// The type nibble (bits 40..44) of a system descriptor; an available
/// 64-bit TSS has type 9.
pub open spec fn system_descriptor_type(d: u64) -> u64 {
    (d >> 40) & 0xf
}

/// The low 16 limit bits of a descriptor.
pub open spec fn descriptor_limit_low(d: u64) -> u64 {
    d & 0xffff
}

/// Low quadword of the 16-byte TSS descriptor for a TSS at `base`:
/// limit 0x67 (the TSS size less one), base bits scattered into their
/// fields, type 9, present, ring 0.
pub open spec fn tss_descriptor_low(base: u64) -> u64 {
    0x67u64 | ((base & 0xffffff) << 16) | (0x89u64 << 40) | (((base >> 24) & 0xff) << 56)
}

/// High quadword of the 16-byte TSS descriptor: the upper 32 base bits.
pub open spec fn tss_descriptor_high(base: u64) -> u64 {
    base >> 32
}

/// The base address a processor would read back out of a TSS descriptor.
pub open spec fn tss_descriptor_base(low: u64, high: u64) -> u64 {
    ((low >> 16) & 0xffffff) | (((low >> 56) & 0xff) << 24) | ((high & 0xffffffff) << 32)
}

/// The kernel code-segment descriptor constant really has the fields its
/// name promises.
pub proof fn lemma_kernel_code_descriptor_fields()
    ensures
        descriptor_present(KERNEL_CODE_DESCRIPTOR),
        descriptor_dpl(KERNEL_CODE_DESCRIPTOR) == 0,
        descriptor_is_user_segment(KERNEL_CODE_DESCRIPTOR),
        descriptor_executable(KERNEL_CODE_DESCRIPTOR),
        descriptor_long_mode(KERNEL_CODE_DESCRIPTOR),
{
    assert((0x00af9b000000ffffu64 >> 47) & 1 == 1) by (bit_vector);
    assert((0x00af9b000000ffffu64 >> 45) & 3 == 0) by (bit_vector);
    assert((0x00af9b000000ffffu64 >> 44) & 1 == 1) by (bit_vector);
    assert((0x00af9b000000ffffu64 >> 43) & 1 == 1) by (bit_vector);
    assert((0x00af9b000000ffffu64 >> 53) & 1 == 1) by (bit_vector);
}

/// The TSS descriptor for any base decodes back to that base and carries
/// the fixed fields: present, system descriptor of type 9, ring 0, and
/// the 0x67 limit.
pub proof fn lemma_tss_descriptor_fields(base: u64)
    ensures
        tss_descriptor_base(tss_descriptor_low(base), tss_descriptor_high(base)) == base,
        descriptor_present(tss_descriptor_low(base)),
        descriptor_dpl(tss_descriptor_low(base)) == 0,
        !descriptor_is_user_segment(tss_descriptor_low(base)),
        system_descriptor_type(tss_descriptor_low(base)) == 9,
        descriptor_limit_low(tss_descriptor_low(base)) == 0x67,
{
    let low = tss_descriptor_low(base);
    let high = tss_descriptor_high(base);
    assert(low == 0x67u64 | ((base & 0xffffff) << 16) | (0x89u64 << 40) | (((base >> 24) & 0xff)
        << 56));
    assert(high == base >> 32);
    assert((((0x67u64 | ((base & 0xffffff) << 16) | (0x89u64 << 40) | (((base >> 24) & 0xff)
        << 56)) >> 16) & 0xffffff) | ((((0x67u64 | ((base & 0xffffff) << 16) | (0x89u64 << 40) | ((
    (base >> 24) & 0xff) << 56)) >> 56) & 0xff) << 24) | (((base >> 32) & 0xffffffff) << 32)
        == base) by (bit_vector);
    assert(((0x67u64 | ((base & 0xffffff) << 16) | (0x89u64 << 40) | (((base >> 24) & 0xff) << 56))
        >> 47) & 1 == 1) by (bit_vector);
    assert(((0x67u64 | ((base & 0xffffff) << 16) | (0x89u64 << 40) | (((base >> 24) & 0xff) << 56))
        >> 45) & 3 == 0) by (bit_vector);
    assert(((0x67u64 | ((base & 0xffffff) << 16) | (0x89u64 << 40) | (((base >> 24) & 0xff) << 56))
        >> 44) & 1 == 0) by (bit_vector);
    assert(((0x67u64 | ((base & 0xffffff) << 16) | (0x89u64 << 40) | (((base >> 24) & 0xff) << 56))
        >> 40) & 0xf == 9) by (bit_vector);
    assert((0x67u64 | ((base & 0xffffff) << 16) | (0x89u64 << 40) | (((base >> 24) & 0xff) << 56))
        & 0xffff == 0x67) by (bit_vector);
}

/// A Global Descriptor Table under construction: an ordered sequence of
/// 64-bit descriptor entries whose entry 0 is always the null descriptor.
pub struct GlobalDescriptorTable {
    pub entries: Vec<u64>,
}

impl GlobalDescriptorTable {
    /// Well-formedness: the null descriptor leads, and the table stays
    /// within the eight entries this stage ever needs.
    pub open spec fn wf(&self) -> bool {
        &&& 1 <= self.entries@.len() <= 8
        &&& self.entries@[0] == 0
    }

    /// A fresh table holding only the null descriptor.
    pub fn new() -> (g: GlobalDescriptorTable)
        ensures
            g.entries@ == seq![0u64],
            g.wf(),
    {
        let mut entries: Vec<u64> = Vec::new();
        entries.push(0);
        proof {
            assert(entries@ =~= seq![0u64]);
        }
        GlobalDescriptorTable { entries }
    }

    /// Appends one descriptor and returns the segment selector that will
    /// refer to it once the table is loaded (index scaled by entry size,
    /// table indicator 0, requested privilege 0).
    pub fn append(&mut self, descriptor: u64) -> (selector: u16)
        requires
            old(self).wf(),
            old(self).entries@.len() < 8,
        ensures
            final(self).entries@ == old(self).entries@.push(descriptor),
            final(self).wf(),
            selector == old(self).entries@.len() * 8,
    {
        let selector: u16 = (self.entries.len() * 8) as u16;
        self.entries.push(descriptor);
        selector
    }

    /// Appends the two-quadword TSS descriptor for a TSS at `tss_base`
    /// and returns its selector.
    pub fn append_tss(&mut self, tss_base: u64) -> (selector: u16)
        requires
            old(self).wf(),
            old(self).entries@.len() + 2 <= 8,
        ensures
            final(self).entries@ == old(self).entries@.push(tss_descriptor_low(tss_base)).push(
                tss_descriptor_high(tss_base)),
            final(self).wf(),
            selector == old(self).entries@.len() * 8,
    {
        let selector: u16 = (self.entries.len() * 8) as u16;
        let low: u64 = 0x67u64 | ((tss_base & 0xffffff) << 16) | (0x89u64 << 40) | (((tss_base
            >> 24) & 0xff) << 56);
        let high: u64 = tss_base >> 32;
        self.entries.push(low);
        self.entries.push(high);
        selector
    }

    /// The load operand for this table once its entries are placed at
    /// `base`: one 8-byte slot per entry.
    pub fn pointer(&self, base: u64) -> (p: DescriptorTablePointer)
        requires
            self.wf(),
        ensures
            p.base == base,
            p.limit == self.entries@.len() * 8 - 1,
    {
        DescriptorTablePointer { base, limit: (self.entries.len() * 8 - 1) as u16 }
    }
}

/// The operand of a descriptor-table load: a table's base address
/// paired with its limit, the table's size in bytes less one.  The
/// storage behind `base` must outlive the processor's reference to it —
/// it is written once at boot and never mutated after the load.
#[derive(Debug, Clone, Copy, PartialEq, Eq, Structural)]
pub struct DescriptorTablePointer {
    pub base: u64,
    pub limit: u16,
}


/// A Task State Segment: the privilege-stack pointers and the
/// interrupt-stack-table pointers, as plain values.
pub struct TaskStateSegment {
    pub privilege_stack_table: Vec<u64>,
    pub interrupt_stack_table: Vec<u64>,
}

impl TaskStateSegment {
    /// Well-formedness: both tables have their architectural lengths.
    pub open spec fn wf(&self) -> bool {
        &&& self.privilege_stack_table@.len() == PRIVILEGE_STACK_SLOTS
        &&& self.interrupt_stack_table@.len() == IST_SLOTS
    }

    /// A fresh TSS with every stack pointer zero (no stack assigned).
    pub fn new() -> (t: TaskStateSegment)
        ensures
            t.wf(),
            t.privilege_stack_table@ == seq![0u64, 0u64, 0u64],
            t.interrupt_stack_table@ == seq![0u64, 0u64, 0u64, 0u64, 0u64, 0u64, 0u64],
    {
        let mut privilege_stack_table: Vec<u64> = Vec::new();
        let mut interrupt_stack_table: Vec<u64> = Vec::new();
        let mut i: usize = 0;
        while i < PRIVILEGE_STACK_SLOTS
            invariant
                i <= PRIVILEGE_STACK_SLOTS,
                privilege_stack_table@.len() == i,
                forall|k: int| 0 <= k < i ==> privilege_stack_table@[k] == 0,
            decreases PRIVILEGE_STACK_SLOTS - i,
        {
            privilege_stack_table.push(0);
            i = i + 1;
        }
        let mut j: usize = 0;
        while j < IST_SLOTS
            invariant
                j <= IST_SLOTS,
                interrupt_stack_table@.len() == j,
                forall|k: int| 0 <= k < j ==> interrupt_stack_table@[k] == 0,
            decreases IST_SLOTS - j,
        {
            interrupt_stack_table.push(0);
            j = j + 1;
        }
        proof {
            assert(privilege_stack_table@ =~= seq![0u64, 0u64, 0u64]);
            assert(interrupt_stack_table@ =~= seq![0u64, 0u64, 0u64, 0u64, 0u64, 0u64, 0u64]);
        }
        TaskStateSegment { privilege_stack_table, interrupt_stack_table }
    }

    /// Points interrupt-stack-table slot `index` at `stack_top`.
    pub fn set_interrupt_stack(&mut self, index: usize, stack_top: u64)
        requires
            old(self).wf(),
            index < IST_SLOTS,
        ensures
            final(self).wf(),
            final(self).interrupt_stack_table@ == old(self).interrupt_stack_table@.update(
                index as int, stack_top),
            final(self).privilege_stack_table@ == old(self).privilege_stack_table@,
    {
        self.interrupt_stack_table.set(index, stack_top);
    }
}

/// The selectors a loaded GDT hands back: one for the kernel code
/// segment, one for the task state segment.
pub struct Selectors {
    pub code_selector: u16,
    pub tss_selector: u16,
}

/// The finished segment-level configuration: the GDT, the TSS it
/// describes, and the selectors to load.
pub struct GdtSetup {
    pub gdt: GlobalDescriptorTable,
    pub tss: TaskStateSegment,
    pub selectors: Selectors,
}

/// What `init` builds, spelled out entry by entry: null descriptor,
/// kernel code descriptor, the two TSS descriptor quadwords; a TSS whose
/// double-fault stack slot holds the top of the reserved stack and whose
/// other slots are unassigned; and the two selectors in table order.
pub open spec fn gdt_setup_built(s: GdtSetup, tss_base: u64, fault_stack_base: u64) -> bool {
    &&& s.gdt.entries@ == seq![
        0u64,
        KERNEL_CODE_DESCRIPTOR,
        tss_descriptor_low(tss_base),
        tss_descriptor_high(tss_base),
    ]
    &&& s.gdt.wf()
    &&& s.tss.wf()
    &&& s.tss.interrupt_stack_table@[DOUBLE_FAULT_IST_INDEX as int] == fault_stack_base
        + STACK_SIZE
    &&& forall|k: int|
        0 <= k < IST_SLOTS && k != DOUBLE_FAULT_IST_INDEX ==> s.tss.interrupt_stack_table@[k] == 0
    &&& s.tss.privilege_stack_table@ == seq![0u64, 0u64, 0u64]
    &&& s.selectors.code_selector == 8
    &&& s.selectors.tss_selector == 16
}

/// Builds the segment-level tables: a GDT holding the kernel code
/// descriptor and the TSS descriptor, and a TSS whose double-fault
/// interrupt stack is the top of the reserved emergency stack.
///
/// `tss_base` is the address at which the caller keeps the TSS itself;
/// `fault_stack_base` is the bottom of the reserved stack region, which
/// must be 16-byte aligned and must leave the stack top addressable.
pub fn init(tss_base: u64, fault_stack_base: u64) -> (s: GdtSetup)
    requires
        fault_stack_base % 16 == 0,
        fault_stack_base + STACK_SIZE <= u64::MAX,
    ensures
        gdt_setup_built(s, tss_base, fault_stack_base),
{
    let mut tss = TaskStateSegment::new();
    tss.set_interrupt_stack(DOUBLE_FAULT_IST_INDEX, fault_stack_base + STACK_SIZE);
    let mut gdt = GlobalDescriptorTable::new();
    let code_selector = gdt.append(KERNEL_CODE_DESCRIPTOR);
    let tss_selector = gdt.append_tss(tss_base);
    proof {
        assert(gdt.entries@ =~= seq![
            0u64,
            KERNEL_CODE_DESCRIPTOR,
            tss_descriptor_low(tss_base),
            tss_descriptor_high(tss_base),
        ]);
    }
    GdtSetup { gdt, tss, selectors: Selectors { code_selector, tss_selector } }
}

} // verus!
