use vstd::prelude::*;

verus! {

/// Snapshot of the machine registers captured when a hard fault is entered:
/// the maximal context available for the terminal diagnostic.
#[derive(Clone, Copy, PartialEq, Eq, Structural, Debug)]
pub struct FaultFrame {
    pub r0: u32,
    pub r1: u32,
    pub r2: u32,
    pub r3: u32,
    pub r12: u32,
    pub lr: u32,
    pub pc: u32,
    pub xpsr: u32,
}

/// The two terminal fault classes: a detected hardware fault with its
/// execution-frame snapshot, and any unhandled interrupt or exception with
/// its numeric identifier.
#[derive(Clone, Copy, PartialEq, Eq, Structural, Debug)]
pub enum FaultKind {
    HardFault { frame: FaultFrame },
    UnhandledException { irqn: i16 },
}

/// Whether the process is still running or has halted on a fault.
#[derive(Clone, Copy, PartialEq, Eq, Structural, Debug)]
pub enum Health {
    Running,
    Halted,
}

/// The fault escalation state of the whole process. Escalation is terminal:
/// once halted, the machine state is no longer trusted and nothing resumes.
pub struct FaultLog {
    pub health: Health,
    /// How many terminal diagnostics were emitted.
    pub reports: u64,
    /// The fault that halted the process, if any.
    pub last: Option<FaultKind>,
}

impl FaultLog {
    /// A running process has reported nothing; a halted one has reported its
    /// fault exactly once.
    pub open spec fn wf(self) -> bool {
        &&& (self.health is Running ==> self.reports == 0 && self.last is None)
        &&& (self.health is Halted ==> self.reports == 1 && self.last is Some)
    }

    /// Escalation may only happen while the process still runs; a halted
    /// process executes nothing further.
    pub open spec fn escalation_enabled(self) -> bool {
        self.health is Running
    }

    /// The state a fault escalates to: halted, with the one diagnostic
    /// recorded.
    pub open spec fn escalate_spec(self, kind: FaultKind) -> FaultLog {
        FaultLog { health: Health::Halted, reports: 1, last: Some(kind) }
    }

    /// The healthy state the process boots into.
    pub fn new() -> (log: Self)
        ensures
            log.wf(),
            log.health is Running,
            log.reports == 0,
            log.last is None,
    {
        FaultLog { health: Health::Running, reports: 0, last: None }
    }

    /// Terminal fault escalation: record the diagnostic and halt. There is
    /// no recovery path, so this demands a still-running process and leaves
    /// one that can never escalate again.
    pub fn escalate(&mut self, kind: FaultKind)
        requires
            old(self).wf(),
            old(self).escalation_enabled(),
        ensures
            *final(self) == old(self).escalate_spec(kind),
            final(self).wf(),
            final(self).health is Halted,
            final(self).reports == 1,
            final(self).last == Some(kind),
            !final(self).escalation_enabled(),
    {
        self.health = Health::Halted;
        self.reports = 1;
        self.last = Some(kind);
    }
}

/// Whether the boot sequence may continue after a peripheral construction
/// step.
#[derive(Clone, Copy, PartialEq, Eq, Structural, Debug)]
pub enum BootStatus {
    /// The step succeeded: bring-up continues.
    Operational,
    /// The step failed: fatal at boot, the process reports and halts.
    /// There is no partial-service mode before the device is operational.
    FatalAtBoot,
}

/// Bring-up failure policy: any peripheral construction failure is fatal at
/// boot. Succeeds exactly when the construction result is `Ok`.
pub fn boot_status<T, E>(r: &Result<T, E>) -> (s: BootStatus)
    ensures
        (s == BootStatus::Operational) <==> r is Ok,
{
    match r {
        Ok(_) => BootStatus::Operational,
        Err(_) => BootStatus::FatalAtBoot,
    }
}

/// Law: fault escalation is terminal and reported exactly once. A fault in
/// a running process halts it, emits exactly one diagnostic recording that
/// fault, and leaves a state from which no further escalation — and no
/// resumption — is possible.
pub proof fn lemma_fatal_isolation(log: FaultLog, kind: FaultKind)
    requires
        log.wf(),
        log.escalation_enabled(),
    ensures
        log.escalate_spec(kind).health is Halted,
        log.escalate_spec(kind).reports == 1,
        log.escalate_spec(kind).last == Some(kind),
        !log.escalate_spec(kind).escalation_enabled(),
        log.escalate_spec(kind).wf(),
{
}

} // verus!
