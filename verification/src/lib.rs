//! Trap and test infrastructure for a freestanding x86-64 kernel stage:
//! descriptor-table construction (GDT and TSS), the interrupt dispatch
//! table, the one-shot initialization sequencer, and the test harness
//! with its out-of-band exit protocol.
//!
//! Everything here computes table contents, transcripts and decisions as
//! plain data; the privileged instructions that load tables into the
//! processor or write to I/O ports live outside the library.

use vstd::prelude::*;

pub mod gdt;
pub mod interrupts;

verus! {

/// The status a host emulator is told when the kernel-side run finishes.
///
/// The value is transmitted through an I/O-port write; the numeric
/// encoding on the wire is given by [`exit_code_value`].
#[derive(Debug, Clone, Copy, PartialEq, Eq, Structural)]
pub enum QemuExitCode {
    Success,
    Failed,
}

/// Numeric encoding of an exit status on the exit port.
pub open spec fn spec_exit_code_value(code: QemuExitCode) -> u32 {
    match code {
        QemuExitCode::Success => 0x10,
        QemuExitCode::Failed => 0x11,
    }
}

/// The I/O port the host emulator watches for the exit signal.
pub const EXIT_PORT: u16 = 0xf4;

/// Encodes an exit status as the value written to the exit port.
pub fn exit_code_value(code: QemuExitCode) -> (v: u32)
    ensures
        v == spec_exit_code_value(code),
{
    match code {
        QemuExitCode::Success => 0x10,
        QemuExitCode::Failed => 0x11,
    }
}

// ---------------------------------------------------------------------
// Initialization sequencer
// ---------------------------------------------------------------------

/// Everything the boot path must have in place before the first
/// fault-prone instruction runs: the segment tables with their
/// selectors, and the interrupt dispatch table.
pub struct CpuConfig {
    pub gdt: gdt::GlobalDescriptorTable,
    pub tss: gdt::TaskStateSegment,
    pub selectors: gdt::Selectors,
    pub idt: interrupts::InterruptDescriptorTable,
}

/// The configuration `init` hands back, in full: the segment side as
/// `gdt_setup_built` spells it out, and the dispatch table as
/// `idt_built` does.
pub open spec fn is_init_config(c: CpuConfig, tss_base: u64, fault_stack_base: u64) -> bool {
    &&& gdt::gdt_setup_built(
        gdt::GdtSetup { gdt: c.gdt, tss: c.tss, selectors: c.selectors },
        tss_base,
        fault_stack_base,
    )
    &&& interrupts::idt_built(c.idt)
}

/// The one ordered entry point: build the segment tables first, then the
/// dispatch table.  Running it again rebuilds the identical
/// configuration — wasteful, never unsafe (see
/// `lemma_init_sequencer_idempotent`).
///
/// `tss_base` is the address at which the caller keeps the TSS;
/// `fault_stack_base` is the bottom of the reserved double-fault stack,
/// 16-byte aligned, with its top still addressable.
pub fn init(tss_base: u64, fault_stack_base: u64) -> (c: CpuConfig)
    requires
        fault_stack_base % 16 == 0,
        fault_stack_base + gdt::STACK_SIZE <= u64::MAX,
    ensures
        is_init_config(c, tss_base, fault_stack_base),
{
    let setup = gdt::init(tss_base, fault_stack_base);
    let idt = interrupts::init_idt();
    CpuConfig { gdt: setup.gdt, tss: setup.tss, selectors: setup.selectors, idt }
}

/// The privileged register loads the boot path performs with a built
/// configuration, in their required order.
#[derive(Debug, Clone, Copy, PartialEq, Eq, Structural)]
pub enum SetupAction {
    LoadGdt,
    ReloadCodeSegment,
    LoadTss,
    LoadIdt,
}

/// The fixed load order: the GDT must be in place before the selectors
/// that reference it are loaded, and all of it before the dispatch
/// table arms the fault path.
pub fn setup_plan() -> (p: Vec<SetupAction>)
    ensures
        p@ == seq![
            SetupAction::LoadGdt,
            SetupAction::ReloadCodeSegment,
            SetupAction::LoadTss,
            SetupAction::LoadIdt,
        ],
{
    let mut p: Vec<SetupAction> = Vec::new();
    p.push(SetupAction::LoadGdt);
    p.push(SetupAction::ReloadCodeSegment);
    p.push(SetupAction::LoadTss);
    p.push(SetupAction::LoadIdt);
    proof {
        assert(p@ =~= seq![
            SetupAction::LoadGdt,
            SetupAction::ReloadCodeSegment,
            SetupAction::LoadTss,
            SetupAction::LoadIdt,
        ]);
    }
    p
}

/// The explicit one-shot guard for the initialization sequencer: the
/// tables are process-wide singletons written exactly once per boot, and
/// the boot path asks this guard — not ad hoc ordering assumptions —
/// whether it is the first caller.
pub struct InitGuard {
    pub initialized: bool,
}

impl InitGuard {
    /// The guard as a boot starts: nothing initialized yet.
    pub fn new() -> (g: InitGuard)
        ensures
            !g.initialized,
    {
        InitGuard { initialized: false }
    }

    /// Claims the one initialization.  The first caller — and only the
    /// first — is told to run the sequencer; the guard stays claimed
    /// forever after.
    pub fn claim(&mut self) -> (first: bool)
        ensures
            final(self).initialized,
            first == !old(self).initialized,
    {
        let first = !self.initialized;
        self.initialized = true;
        first
    }
}

/// The processor state this subsystem mutates, as the loads see it: the
/// loaded descriptor tables and the two selector registers.
pub ghost struct MachineState {
    pub gdt: Seq<u64>,
    pub code_segment: u16,
    pub task_register: u16,
    pub interrupt_stacks: Seq<u64>,
    pub idt: Seq<Option<interrupts::Gate>>,
}

/// The effect of one load on the machine state.
pub open spec fn apply_action(m: MachineState, c: CpuConfig, a: SetupAction) -> MachineState {
    match a {
        SetupAction::LoadGdt => MachineState {
            gdt: c.gdt.entries@,
            code_segment: m.code_segment,
            task_register: m.task_register,
            interrupt_stacks: m.interrupt_stacks,
            idt: m.idt,
        },
        SetupAction::ReloadCodeSegment => MachineState {
            gdt: m.gdt,
            code_segment: c.selectors.code_selector,
            task_register: m.task_register,
            interrupt_stacks: m.interrupt_stacks,
            idt: m.idt,
        },
        SetupAction::LoadTss => MachineState {
            gdt: m.gdt,
            code_segment: m.code_segment,
            task_register: c.selectors.tss_selector,
            interrupt_stacks: c.tss.interrupt_stack_table@,
            idt: m.idt,
        },
        SetupAction::LoadIdt => MachineState {
            gdt: m.gdt,
            code_segment: m.code_segment,
            task_register: m.task_register,
            interrupt_stacks: m.interrupt_stacks,
            idt: c.idt.entries@,
        },
    }
}

/// When a load is safe to perform: a table load wants a well-formed
/// table; a selector load wants the selector to point, in the GDT the
/// machine has loaded, at a present descriptor of the right kind.
pub open spec fn action_safe(m: MachineState, c: CpuConfig, a: SetupAction) -> bool {
    match a {
        SetupAction::LoadGdt => c.gdt.wf(),
        SetupAction::ReloadCodeSegment => {
            let sel = c.selectors.code_selector;
            &&& sel % 8 == 0
            &&& 0 < sel / 8 < m.gdt.len()
            &&& gdt::descriptor_present(m.gdt[sel as int / 8])
            &&& gdt::descriptor_is_user_segment(m.gdt[sel as int / 8])
            &&& gdt::descriptor_executable(m.gdt[sel as int / 8])
            &&& gdt::descriptor_long_mode(m.gdt[sel as int / 8])
        },
        SetupAction::LoadTss => {
            let sel = c.selectors.tss_selector;
            &&& sel % 8 == 0
            &&& 0 < sel / 8
            &&& sel / 8 + 1 < m.gdt.len()
            &&& gdt::descriptor_present(m.gdt[sel as int / 8])
            &&& !gdt::descriptor_is_user_segment(m.gdt[sel as int / 8])
            &&& gdt::system_descriptor_type(m.gdt[sel as int / 8]) == 9
        },
        SetupAction::LoadIdt => c.idt.wf(),
    }
}

/// The machine state after the whole ordered load sequence.
pub open spec fn apply_plan(m: MachineState, c: CpuConfig) -> MachineState {
    apply_action(
        apply_action(
            apply_action(apply_action(m, c, SetupAction::LoadGdt), c, SetupAction::ReloadCodeSegment),
            c,
            SetupAction::LoadTss,
        ),
        c,
        SetupAction::LoadIdt,
    )
}

/// Whether every load of the sequence is safe at the point it runs.
pub open spec fn plan_safe(m: MachineState, c: CpuConfig) -> bool {
    let m1 = apply_action(m, c, SetupAction::LoadGdt);
    let m2 = apply_action(m1, c, SetupAction::ReloadCodeSegment);
    let m3 = apply_action(m2, c, SetupAction::LoadTss);
    &&& action_safe(m, c, SetupAction::LoadGdt)
    &&& action_safe(m1, c, SetupAction::ReloadCodeSegment)
    &&& action_safe(m2, c, SetupAction::LoadTss)
    &&& action_safe(m3, c, SetupAction::LoadIdt)
}

/// The initialization sequence is safe from any machine state — in
/// particular from the state it itself leaves behind — and running it a
/// second time leaves the machine exactly where the first run did.
/// Reloading identical descriptor tables therefore cannot itself produce
/// a fault.
pub proof fn lemma_init_sequencer_idempotent(
    m: MachineState,
    c: CpuConfig,
    tss_base: u64,
    fault_stack_base: u64,
)
    requires
        is_init_config(c, tss_base, fault_stack_base),
    ensures
        plan_safe(m, c),
        plan_safe(apply_plan(m, c), c),
        apply_plan(apply_plan(m, c), c) == apply_plan(m, c),
{
    gdt::lemma_kernel_code_descriptor_fields();
    gdt::lemma_tss_descriptor_fields(tss_base);
}

/// With the initialized tables, a double fault always switches to the
/// reserved emergency stack: whatever stack the interrupted code was on
/// — even an exhausted one — the handler runs from the fixed stack top,
/// which is 16-byte aligned and nonzero.  The handler therefore has a
/// usable stack, which is what keeps an escalation to a processor reset
/// (a triple fault) out of the picture.
pub proof fn lemma_double_fault_never_triple_faults(
    c: CpuConfig,
    tss_base: u64,
    fault_stack_base: u64,
)
    requires
        is_init_config(c, tss_base, fault_stack_base),
        fault_stack_base % 16 == 0,
        fault_stack_base + gdt::STACK_SIZE <= u64::MAX,
    ensures
        forall|interrupted_stack: u64|
            #[trigger] interrupts::fault_stack_pointer(
                c.idt,
                c.tss,
                interrupts::DOUBLE_FAULT_VECTOR as int,
                interrupted_stack,
            ) == fault_stack_base + gdt::STACK_SIZE,
        (fault_stack_base + gdt::STACK_SIZE) % 16 == 0,
        fault_stack_base + gdt::STACK_SIZE > 0,
{
    assert((fault_stack_base + gdt::STACK_SIZE) % 16 == 0) by (nonlinear_arith)
        requires
            fault_stack_base % 16 == 0,
    ;
}

// ---------------------------------------------------------------------
// Test harness and exit protocol
// ---------------------------------------------------------------------

/// How one test routine ended: it returned normally, or it panicked.
#[derive(Debug, Clone, Copy, PartialEq, Eq, Structural)]
pub enum TestOutcome {
    Passed,
    Panicked,
}

/// A unit of test work the harness can run.
pub trait Testable {
    /// The outcome running this routine will report.
    spec fn spec_outcome(&self) -> TestOutcome;

    /// Runs the routine and reports how it ended.
    fn run(&self) -> (r: TestOutcome)
        ensures
            r == self.spec_outcome(),
    ;
}

/// A named, zero-argument test routine together with how it ends.  The
/// name is carried for the output sink; the harness decides from the
/// outcome alone.
pub struct TestCase {
    pub name: String,
    pub outcome: TestOutcome,
}

impl Testable for TestCase {
    open spec fn spec_outcome(&self) -> TestOutcome {
        self.outcome
    }

    fn run(&self) -> (r: TestOutcome) {
        self.outcome
    }
}

/// One marker of the harness transcript, in the order the output sink
/// receives them.  Rendering markers to text is the sink's business.
#[derive(Debug, Clone, Copy, PartialEq, Eq, Structural)]
pub enum Marker {
    /// The opening line naming how many routines will run.
    Preamble { count: usize },
    /// The announcement printed before routine `test_index` runs.
    Announce { test_index: usize },
    /// The success marker printed after a routine returns normally.
    TestOk,
    /// The failure marker printed when a routine panics.
    TestFailed,
}

/// The transcript markers from routine `i` onward: each passing routine
/// contributes its announcement and a success marker; the first
/// panicking routine contributes its announcement and the failure
/// marker, and nothing follows it.
pub open spec fn run_markers_from<T: Testable>(ts: Seq<T>, i: int) -> Seq<Marker>
    decreases ts.len() - i,
{
    if i < 0 || i >= ts.len() {
        Seq::empty()
    } else if ts[i].spec_outcome() == TestOutcome::Passed {
        seq![
            (Marker::Announce { test_index: i as usize }),
            Marker::TestOk,
        ] + run_markers_from(ts, i + 1)
    } else {
        seq![(Marker::Announce { test_index: i as usize }), Marker::TestFailed]
    }
}

/// The exit signal owed after running from routine `i` onward: Success
/// exactly when every remaining routine passes.
pub open spec fn run_exit_from<T: Testable>(ts: Seq<T>, i: int) -> QemuExitCode
    decreases ts.len() - i,
{
    if i < 0 || i >= ts.len() {
        QemuExitCode::Success
    } else if ts[i].spec_outcome() == TestOutcome::Passed {
        run_exit_from(ts, i + 1)
    } else {
        QemuExitCode::Failed
    }
}

/// How many routines from `i` onward actually run: all of them, or up to
/// and including the first one that panics.
pub open spec fn executed_from<T: Testable>(ts: Seq<T>, i: int) -> int
    decreases ts.len() - i,
{
    if i < 0 || i >= ts.len() {
        0
    } else if ts[i].spec_outcome() == TestOutcome::Passed {
        1 + executed_from(ts, i + 1)
    } else {
        1
    }
}

/// The whole run's markers, after the preamble.
pub open spec fn run_markers<T: Testable>(ts: Seq<T>) -> Seq<Marker> {
    run_markers_from(ts, 0)
}

/// The whole run's exit signal.
pub open spec fn run_exit<T: Testable>(ts: Seq<T>) -> QemuExitCode {
    run_exit_from(ts, 0)
}

/// The whole run's count of routines that ran.
pub open spec fn executed_count<T: Testable>(ts: Seq<T>) -> int {
    executed_from(ts, 0)
}

/// What one harness run sends out: the transcript for the text channel,
/// the single exit signal for the exit port, and how many routines ran.
pub struct RunReport {
    pub markers: Vec<Marker>,
    pub exit: QemuExitCode,
    pub executed: usize,
}

/// Runs the given routines in order and produces the complete protocol
/// output: the preamble, one announcement per routine that runs followed
/// by its success or failure marker, and exactly one exit signal —
/// Success after a clean run, Failed the moment a routine panics, in
/// which case no later routine runs.
pub fn test_runner<T: Testable>(tests: &Vec<T>) -> (r: RunReport)
    ensures
        r.markers@ == seq![(Marker::Preamble { count: tests@.len() as usize })] + run_markers(
            tests@,
        ),
        r.exit == run_exit(tests@),
        r.executed == executed_count(tests@),
{
    let ghost ts = tests@;
    let mut markers: Vec<Marker> = Vec::new();
    markers.push(Marker::Preamble { count: tests.len() });
    let mut exit: QemuExitCode = QemuExitCode::Success;
    let mut executed: usize = 0;
    let mut failed: bool = false;
    let mut j: usize = 0;
    proof {
        assert(markers@ =~= seq![(Marker::Preamble { count: ts.len() as usize })]);
    }
    while j < tests.len() && !failed
        invariant
            ts == tests@,
            j <= ts.len(),
            !failed ==> {
                &&& markers@ + run_markers_from(ts, j as int) == seq![
                    (Marker::Preamble { count: ts.len() as usize }),
                ] + run_markers(ts)
                &&& run_exit_from(ts, j as int) == run_exit(ts)
                &&& executed_count(ts) == j + executed_from(ts, j as int)
                &&& exit == QemuExitCode::Success
                &&& executed == j
            },
            failed ==> {
                &&& markers@ == seq![(Marker::Preamble { count: ts.len() as usize })]
                    + run_markers(ts)
                &&& exit == run_exit(ts)
                &&& executed == executed_count(ts)
            },
        decreases ts.len() - j,
    {
        let outcome = tests[j].run();
        let ghost markers_before = markers@;
        markers.push(Marker::Announce { test_index: j });
        match outcome {
            TestOutcome::Passed => {
                markers.push(Marker::TestOk);
                proof {
                    assert(run_markers_from(ts, j as int) == seq![
                        (Marker::Announce { test_index: j as usize }),
                        Marker::TestOk,
                    ] + run_markers_from(ts, j as int + 1));
                    assert(markers@ =~= markers_before + seq![
                        (Marker::Announce { test_index: j as usize }),
                        Marker::TestOk,
                    ]);
                    assert(markers@ + run_markers_from(ts, j as int + 1) =~= markers_before
                        + run_markers_from(ts, j as int));
                }
                j = j + 1;
                executed = j;
            },
            TestOutcome::Panicked => {
                markers.push(Marker::TestFailed);
                proof {
                    assert(run_markers_from(ts, j as int) == seq![
                        (Marker::Announce { test_index: j as usize }),
                        Marker::TestFailed,
                    ]);
                    assert(markers@ =~= markers_before + run_markers_from(ts, j as int));
                }
                exit = QemuExitCode::Failed;
                j = j + 1;
                executed = j;
                failed = true;
            },
        }
    }
    proof {
        if !failed {
            assert(run_markers_from(ts, j as int) =~= Seq::<Marker>::empty());
            assert(markers@ + Seq::<Marker>::empty() =~= markers@);
        }
    }
    RunReport { markers, exit, executed }
}

/// What the test-mode panic handler sends out before parking the
/// processor.
pub struct PanicResponse {
    pub marker: Marker,
    pub exit: QemuExitCode,
    pub disposition: interrupts::Disposition,
}

/// The decision the test-mode panic handler carries out when a routine
/// panics: emit the failure marker, signal Failed on the exit port, and
/// never return.
pub fn test_panic_handler() -> (r: PanicResponse)
    ensures
        r.marker == Marker::TestFailed,
        r.exit == QemuExitCode::Failed,
        r.disposition == interrupts::Disposition::Halt,
{
    PanicResponse {
        marker: Marker::TestFailed,
        exit: QemuExitCode::Failed,
        disposition: interrupts::Disposition::Halt,
    }
}

/// A run in which every routine passes: the transcript after the
/// preamble is exactly one announcement and one success marker per
/// routine, in the given order, every routine runs, and the single exit
/// signal is Success.
pub proof fn lemma_all_pass_run<T: Testable>(ts: Seq<T>)
    requires
        ts.len() <= usize::MAX,
        forall|i: int| 0 <= i < ts.len() ==> ts[i].spec_outcome() == TestOutcome::Passed,
    ensures
        run_exit(ts) == QemuExitCode::Success,
        executed_count(ts) == ts.len(),
        run_markers(ts).len() == 2 * ts.len(),
        forall|m: int|
            0 <= m < 2 * ts.len() ==> #[trigger] run_markers(ts)[m] == (if m % 2 == 0 {
                Marker::Announce { test_index: (m / 2) as usize }
            } else {
                Marker::TestOk
            }),
{
    lemma_all_pass_from(ts, 0);
}

/// Helper for `lemma_all_pass_run`, by induction from routine `j` on.
proof fn lemma_all_pass_from<T: Testable>(ts: Seq<T>, j: int)
    requires
        0 <= j <= ts.len(),
        ts.len() <= usize::MAX,
        forall|i: int| j <= i < ts.len() ==> ts[i].spec_outcome() == TestOutcome::Passed,
    ensures
        run_exit_from(ts, j) == QemuExitCode::Success,
        executed_from(ts, j) == ts.len() - j,
        run_markers_from(ts, j).len() == 2 * (ts.len() - j),
        forall|m: int|
            0 <= m < 2 * (ts.len() - j) ==> #[trigger] run_markers_from(ts, j)[m] == (if m % 2
                == 0 {
                Marker::Announce { test_index: (j + m / 2) as usize }
            } else {
                Marker::TestOk
            }),
    decreases ts.len() - j,
{
    if j < ts.len() {
        lemma_all_pass_from(ts, j + 1);
        let step = seq![(Marker::Announce { test_index: j as usize }), Marker::TestOk];
        let rest = run_markers_from(ts, j + 1);
        assert(run_markers_from(ts, j) == step + rest);
        assert forall|m: int| 0 <= m < 2 * (ts.len() - j) implies #[trigger] run_markers_from(
            ts,
            j,
        )[m] == (if m % 2 == 0 {
            Marker::Announce { test_index: (j + m / 2) as usize }
        } else {
            Marker::TestOk
        }) by {
            if m >= 2 {
                assert(run_markers_from(ts, j)[m] == rest[m - 2]);
                assert((m - 2) % 2 == m % 2);
                assert((m - 2) / 2 == m / 2 - 1);
            }
        }
    }
}

/// A run whose first panicking routine is routine `k`: everything before
/// `k` is announced and marked ok in order, routine `k` is announced and
/// marked failed, no routine after `k` runs, and the single exit signal
/// is Failed.
pub proof fn lemma_first_panic_stops_run<T: Testable>(ts: Seq<T>, k: int)
    requires
        0 <= k < ts.len(),
        ts.len() <= usize::MAX,
        ts[k].spec_outcome() == TestOutcome::Panicked,
        forall|i: int| 0 <= i < k ==> ts[i].spec_outcome() == TestOutcome::Passed,
    ensures
        run_exit(ts) == QemuExitCode::Failed,
        executed_count(ts) == k + 1,
        run_markers(ts).len() == 2 * k + 2,
        run_markers(ts)[2 * k] == (Marker::Announce { test_index: k as usize }),
        run_markers(ts)[2 * k + 1] == Marker::TestFailed,
        forall|m: int|
            0 <= m < 2 * k ==> #[trigger] run_markers(ts)[m] == (if m % 2 == 0 {
                Marker::Announce { test_index: (m / 2) as usize }
            } else {
                Marker::TestOk
            }),
{
    lemma_first_panic_from(ts, k, 0);
}

/// Helper for `lemma_first_panic_stops_run`, by induction from routine
/// `j` on.
proof fn lemma_first_panic_from<T: Testable>(ts: Seq<T>, k: int, j: int)
    requires
        0 <= j <= k < ts.len(),
        ts.len() <= usize::MAX,
        ts[k].spec_outcome() == TestOutcome::Panicked,
        forall|i: int| j <= i < k ==> ts[i].spec_outcome() == TestOutcome::Passed,
    ensures
        run_exit_from(ts, j) == QemuExitCode::Failed,
        executed_from(ts, j) == k + 1 - j,
        run_markers_from(ts, j).len() == 2 * (k - j) + 2,
        run_markers_from(ts, j)[2 * (k - j)] == (Marker::Announce { test_index: k as usize }),
        run_markers_from(ts, j)[2 * (k - j) + 1] == Marker::TestFailed,
        forall|m: int|
            0 <= m < 2 * (k - j) ==> #[trigger] run_markers_from(ts, j)[m] == (if m % 2 == 0 {
                Marker::Announce { test_index: (j + m / 2) as usize }
            } else {
                Marker::TestOk
            }),
    decreases k - j,
{
    if j == k {
        assert(run_markers_from(ts, j) == seq![
            (Marker::Announce { test_index: k as usize }),
            Marker::TestFailed,
        ]);
    } else {
        lemma_first_panic_from(ts, k, j + 1);
        let step = seq![(Marker::Announce { test_index: j as usize }), Marker::TestOk];
        let rest = run_markers_from(ts, j + 1);
        assert(run_markers_from(ts, j) == step + rest);
        assert forall|m: int| 0 <= m < 2 * (k - j) implies #[trigger] run_markers_from(ts, j)[m]
            == (if m % 2 == 0 {
            Marker::Announce { test_index: (j + m / 2) as usize }
        } else {
            Marker::TestOk
        }) by {
            if m >= 2 {
                assert(run_markers_from(ts, j)[m] == rest[m - 2]);
                assert((m - 2) % 2 == m % 2);
                assert((m - 2) / 2 == m / 2 - 1);
            }
        }
        assert(run_markers_from(ts, j)[2 * (k - j)] == rest[2 * (k - j) - 2]);
        assert(run_markers_from(ts, j)[2 * (k - j) + 1] == rest[2 * (k - j) - 1]);
    }
}

} // verus!
