//! Decisions of the kernel test harness and of the abnormal-termination
//! path: what to send on which sink, when to run the next test, and which
//! exit status to signal to the host emulator.
use vstd::prelude::*;

verus! {

/// The I/O port of the emulator's exit device.
pub const ISA_DEBUG_EXIT_PORT: u16 = 0xf4;

/// The base I/O port of the first serial interface.
pub const SERIAL_PORT_BASE: u16 = 0x3f8;

/// Exit status that a test run signals to the host emulator.
#[derive(Debug, Clone, Copy, PartialEq, Eq, Structural)]
pub enum QemuExitCode {
    Success,
    Failed,
}

impl QemuExitCode {
    /// The 32-bit value written to the exit device.
    pub open spec fn spec_code(self) -> u32 {
        match self {
            QemuExitCode::Success => 0x10,
            QemuExitCode::Failed => 0x11,
        }
    }

    /// The 32-bit value written to the exit device.
    #[verifier::when_used_as_spec(spec_code)]
    pub fn code(self) -> (r: u32)
        ensures
            r == self.spec_code(),
    {
        match self {
            QemuExitCode::Success => 0x10,
            QemuExitCode::Failed => 0x11,
        }
    }
}

/// Build-time choice between a normal boot and an automated test run.
#[derive(Debug, Clone, Copy, PartialEq, Eq, Structural)]
pub enum Mode {
    Normal,
    TestRun,
}

/// How one invocation of a test ended: it returned normally, or it failed
/// with a description.
#[derive(Debug, PartialEq, Eq)]
pub enum TestOutcome {
    Passed,
    Failed(Vec<u8>),
}

/// The mathematical content of a `TestOutcome`.
pub enum Verdict {
    Passed,
    Failed(Seq<u8>),
}

impl View for TestOutcome {
    type V = Verdict;

    open spec fn view(&self) -> Verdict {
        match self {
            TestOutcome::Passed => Verdict::Passed,
            TestOutcome::Failed(d) => Verdict::Failed(d@),
        }
    }
}

/// A named, self-contained test routine.
pub trait Testable {
    /// The name reported before the test runs.
    fn name(&self) -> Vec<u8>;

    /// Runs the test's assertions.
    fn run(&self) -> TestOutcome;
}

/// One thing for the caller to do.
#[derive(Debug, PartialEq, Eq)]
pub enum Directive {
    /// Send the bytes on the serial channel.
    Serial(Vec<u8>),
    /// Write the bytes on the console.
    Console(Vec<u8>),
    /// Signal the host emulator to exit with the status.
    Exit(QemuExitCode),
    /// Stop this execution context for good.
    Halt,
}

/// The mathematical content of a `Directive`.
pub enum Output {
    Serial(Seq<u8>),
    Console(Seq<u8>),
    Exit(QemuExitCode),
    Halt,
}

impl View for Directive {
    type V = Output;

    open spec fn view(&self) -> Output {
        match self {
            Directive::Serial(b) => Output::Serial(b@),
            Directive::Console(b) => Output::Console(b@),
            Directive::Exit(c) => Output::Exit(*c),
            Directive::Halt => Output::Halt,
        }
    }
}

/// The contents of a list of directives.
pub open spec fn outputs(ds: Seq<Directive>) -> Seq<Output> {
    ds.map_values(|d: Directive| d@)
}

/// ASCII decimal digits of `n`, most significant first, no leading zeros.
pub open spec fn decimal(n: nat) -> Seq<u8>
    decreases n,
{
    if n < 10 {
        seq![(0x30 + n) as u8]
    } else {
        decimal(n / 10).push((0x30 + n % 10) as u8)
    }
}

/// `"Running "`.
pub open spec fn running_prefix() -> Seq<u8> {
    seq![0x52, 0x75, 0x6e, 0x6e, 0x69, 0x6e, 0x67, 0x20]
}

/// `" tests"` and a newline.
pub open spec fn tests_suffix() -> Seq<u8> {
    seq![0x20, 0x74, 0x65, 0x73, 0x74, 0x73, 0x0a]
}

/// `"..."` and a tab.
pub open spec fn announce_suffix() -> Seq<u8> {
    seq![0x2e, 0x2e, 0x2e, 0x09]
}

/// `"[ok]"` and a newline.
pub open spec fn ok_line() -> Seq<u8> {
    seq![0x5b, 0x6f, 0x6b, 0x5d, 0x0a]
}

/// `"[failed]"` and two newlines.
pub open spec fn failed_line() -> Seq<u8> {
    seq![0x5b, 0x66, 0x61, 0x69, 0x6c, 0x65, 0x64, 0x5d, 0x0a, 0x0a]
}

/// `"Error: "`.
pub open spec fn error_prefix() -> Seq<u8> {
    seq![0x45, 0x72, 0x72, 0x6f, 0x72, 0x3a, 0x20]
}

/// The header of a run of `n` tests: `"Running <n> tests"` and a newline.
pub open spec fn header_line(n: nat) -> Seq<u8> {
    running_prefix() + decimal(n) + tests_suffix()
}

/// The line that names a test before it runs: the name, `"..."`, a tab.
pub open spec fn announce_line(name: Seq<u8>) -> Seq<u8> {
    name + announce_suffix()
}

/// What the abnormal-termination path does in a test run: the failure
/// marker and the description on the serial channel, the "failed" signal to
/// the host, then a halt in case the host ignores it.
pub open spec fn failure_report(description: Seq<u8>) -> Seq<Output> {
    seq![
        Output::Serial(failed_line()),
        Output::Serial(error_prefix() + description + seq![0x0a, 0x0a]),
        Output::Exit(QemuExitCode::Failed),
        Output::Halt,
    ]
}

/// What the abnormal-termination path does in each mode: on a normal boot
/// the description goes to the console and the context halts; in a test run
/// it is the failure report.
pub open spec fn panic_report(mode: Mode, description: Seq<u8>) -> Seq<Output> {
    match mode {
        Mode::Normal => seq![Output::Console(description.push(0x0a)), Output::Halt],
        Mode::TestRun => failure_report(description),
    }
}

/// The abstract state of a test run.
pub struct RunState {
    /// The names of the registered tests, in registration order.
    pub names: Seq<Seq<u8>>,
    /// The index of the test announced last.
    pub next: nat,
    /// Whether the run waits for the outcome of test `next`.
    pub awaiting: bool,
}

/// What follows once test `i` is due: its announcement, or, past the last
/// test, the "success" signal to the host and a halt.
pub open spec fn continuation(names: Seq<Seq<u8>>, i: nat) -> Seq<Output> {
    if i < names.len() {
        seq![Output::Serial(announce_line(names[i as int]))]
    } else {
        seq![Output::Exit(QemuExitCode::Success), Output::Halt]
    }
}

impl RunState {
    /// The state once the outcome of the awaited test is known.
    pub open spec fn after(self, v: Verdict) -> RunState {
        if !self.awaiting {
            self
        } else {
            match v {
                Verdict::Passed => RunState {
                    next: self.next + 1,
                    awaiting: self.next + 1 < self.names.len(),
                    ..self
                },
                Verdict::Failed(_) => RunState { awaiting: false, ..self },
            }
        }
    }

    /// What is to be done once the outcome of the awaited test is known:
    /// `[ok]` and the next test's announcement (or the success signal), or
    /// the failure report; nothing when no test is awaited.
    pub open spec fn report(self, v: Verdict) -> Seq<Output> {
        if !self.awaiting {
            seq![]
        } else {
            match v {
                Verdict::Passed => seq![Output::Serial(ok_line())] + continuation(
                    self.names,
                    self.next + 1,
                ),
                Verdict::Failed(d) => failure_report(d),
            }
        }
    }
}

/// Appends the decimal digits of `n`.
fn push_decimal(out: &mut Vec<u8>, n: usize)
    ensures
        final(out)@ == old(out)@ + decimal(n as nat),
    decreases n,
{
    if n >= 10 {
        push_decimal(out, n / 10);
    }
    out.push((0x30 + n % 10) as u8);
    assert(final(out)@ =~= old(out)@ + decimal(n as nat));
}

/// The header line of a run of `n` tests.
fn header(n: usize) -> (r: Vec<u8>)
    ensures
        r@ == header_line(n as nat),
{
    let mut out: Vec<u8> = vec![0x52, 0x75, 0x6e, 0x6e, 0x69, 0x6e, 0x67, 0x20];
    assert(out@ =~= running_prefix());
    push_decimal(&mut out, n);
    let mut suffix: Vec<u8> = vec![0x20, 0x74, 0x65, 0x73, 0x74, 0x73, 0x0a];
    assert(suffix@ =~= tests_suffix());
    out.append(&mut suffix);
    out
}

/// The announcement line of the test named `name`.
fn announce(name: &Vec<u8>) -> (r: Vec<u8>)
    ensures
        r@ == announce_line(name@),
{
    let mut out = name.clone();
    assert(out@ =~= name@);
    let mut suffix: Vec<u8> = vec![0x2e, 0x2e, 0x2e, 0x09];
    assert(suffix@ =~= announce_suffix());
    out.append(&mut suffix);
    out
}

/// The directives of the failure report for `description`.
fn failure_directives(description: Vec<u8>) -> (r: Vec<Directive>)
    ensures
        outputs(r@) == failure_report(description@),
{
    let failed: Vec<u8> = vec![0x5b, 0x66, 0x61, 0x69, 0x6c, 0x65, 0x64, 0x5d, 0x0a, 0x0a];
    assert(failed@ =~= failed_line());
    let mut error: Vec<u8> = vec![0x45, 0x72, 0x72, 0x6f, 0x72, 0x3a, 0x20];
    assert(error@ =~= error_prefix());
    let mut d = description;
    error.append(&mut d);
    let mut tail: Vec<u8> = vec![0x0a, 0x0a];
    error.append(&mut tail);
    let r = vec![
        Directive::Serial(failed),
        Directive::Serial(error),
        Directive::Exit(QemuExitCode::Failed),
        Directive::Halt,
    ];
    assert(outputs(r@) =~= failure_report(description@));
    r
}

/// What the abnormal-termination handler does with a failure description in
/// the given mode.
pub fn panic_directives(mode: Mode, description: Vec<u8>) -> (r: Vec<Directive>)
    ensures
        outputs(r@) == panic_report(mode, description@),
{
    match mode {
        Mode::Normal => {
            let mut line = description;
            line.push(0x0a);
            let r = vec![Directive::Console(line), Directive::Halt];
            assert(outputs(r@) =~= panic_report(mode, description@));
            r
        },
        Mode::TestRun => failure_directives(description),
    }
}

/// A test run in progress over a registry of tests.
pub struct TestRunner {
    names: Vec<Vec<u8>>,
    next: usize,
    awaiting: bool,
}

impl View for TestRunner {
    type V = RunState;

    closed spec fn view(&self) -> RunState {
        RunState {
            names: self.names@.map_values(|n: Vec<u8>| n@),
            next: self.next as nat,
            awaiting: self.awaiting,
        }
    }
}

impl TestRunner {
    #[verifier::type_invariant]
    spec fn awaits_registered_test(&self) -> bool {
        self.awaiting ==> self.next < self.names.len()
    }

    /// Whether the run waits for the outcome of a test.
    pub fn is_awaiting(&self) -> (r: bool)
        ensures
            r == self@.awaiting,
    {
        self.awaiting
    }

    /// The index of the test announced last.
    pub fn next(&self) -> (r: usize)
        ensures
            r == self@.next,
    {
        self.next
    }

    /// What follows once test `i` is due.
    fn continue_at(&self, i: usize) -> (r: Vec<Directive>)
        ensures
            outputs(r@) == continuation(self@.names, i as nat),
    {
        if i < self.names.len() {
            let line = announce(&self.names[i]);
            let r = vec![Directive::Serial(line)];
            assert(outputs(r@) =~= continuation(self@.names, i as nat));
            r
        } else {
            let r = vec![Directive::Exit(QemuExitCode::Success), Directive::Halt];
            assert(outputs(r@) =~= continuation(self@.names, i as nat));
            r
        }
    }

    /// Takes the outcome of the awaited test: on success reports `[ok]` and
    /// announces the next test or, after the last one, signals success; on
    /// failure issues the failure report and ends the run.
    pub fn on_outcome(&mut self, outcome: TestOutcome) -> (r: Vec<Directive>)
        ensures
            final(self)@ == old(self)@.after(outcome@),
            outputs(r@) == old(self)@.report(outcome@),
    {
        proof {
            use_type_invariant(&*self);
        }
        if !self.awaiting {
            let r: Vec<Directive> = Vec::new();
            assert(outputs(r@) =~= old(self)@.report(outcome@));
            return r;
        }
        match outcome {
            TestOutcome::Passed => {
                let mut r: Vec<Directive> = vec![Directive::Serial(vec![0x5b, 0x6f, 0x6b, 0x5d, 0x0a])];
                let next = self.next + 1;
                let mut rest = self.continue_at(next);
                r.append(&mut rest);
                self.awaiting = next < self.names.len();
                self.next = next;
                assert(outputs(r@) =~= old(self)@.report(outcome@));
                assert(final(self)@.names =~= old(self)@.names);
                r
            },
            TestOutcome::Failed(description) => {
                self.awaiting = false;
                failure_directives(description)
            },
        }
    }

    /// Runs the awaited test of `tests` and reports its outcome as
    /// `on_outcome` does; does nothing when no test is awaited or the
    /// registry has no test at that index.
    pub fn run_current<T: Testable>(&mut self, tests: &[T]) -> (r: Vec<Directive>)
        ensures
            !old(self)@.awaiting || old(self)@.next >= tests@.len() ==> r@.len() == 0
                && final(self)@ == old(self)@,
            old(self)@.awaiting && old(self)@.next < tests@.len() ==> exists|v: Verdict|
                final(self)@ == old(self)@.after(v) && outputs(r@) == old(self)@.report(v),
    {
        if !self.awaiting || self.next >= tests.len() {
            return Vec::new();
        }
        let outcome = tests[self.next].run();
        let ghost v = outcome@;
        let r = self.on_outcome(outcome);
        assert(final(self)@ == old(self)@.after(v) && outputs(r@) == old(self)@.report(v));
        r
    }
}

/// Starts a run over a registry whose tests have the given names, in
/// registration order: returns the run with what is to be done first, the
/// header line and the first test's announcement (or, with no test, the
/// success signal).
pub fn test_runner(names: Vec<Vec<u8>>) -> (r: (TestRunner, Vec<Directive>))
    ensures
        r.0@.names == names@.map_values(|n: Vec<u8>| n@),
        r.0@.next == 0,
        r.0@.awaiting == (names@.len() > 0),
        outputs(r.1@) == seq![Output::Serial(header_line(names@.len() as nat))] + continuation(
            r.0@.names,
            0,
        ),
{
    let count = names.len();
    let runner = TestRunner { names, next: 0, awaiting: count > 0 };
    let mut r: Vec<Directive> = vec![Directive::Serial(header(count))];
    let mut rest = runner.continue_at(0);
    r.append(&mut rest);
    assert(outputs(r@) =~= seq![Output::Serial(header_line(count as nat))] + continuation(
        runner@.names,
        0,
    ));
    (runner, r)
}

/// A test that checks one trivial equality.
pub fn trivial_assertion() -> (r: TestOutcome)
    ensures
        r@ == Verdict::Passed,
{
    let one: u32 = 1;
    if one == 1 {
        TestOutcome::Passed
    } else {
        TestOutcome::Failed(vec![0x61, 0x73, 0x73, 0x65, 0x72, 0x74, 0x69, 0x6f, 0x6e])
    }
}

} // verus!
