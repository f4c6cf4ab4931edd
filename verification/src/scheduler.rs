use vstd::prelude::*;
use crate::config::CYCLE_DELAY_MS;
use crate::report::{report_of, InputReport, report_for};
use crate::script::{motion_script, script_spec, MotionVector, SCRIPT_LEN};

verus! {

/// What one delivery attempt of an input report came back with.
#[derive(Clone, Copy, PartialEq, Eq, Structural, Debug)]
pub enum PushOutcome {
    /// The class accepted the report.
    Accepted,
    /// Transient backpressure: the class's buffer still holds the previous
    /// report, or enumeration is not complete. Retry the same vector.
    WouldBlock,
    /// Any other, non-transient error: abandon this one report and advance,
    /// trading one motion step for forward progress of the script.
    Failed,
}

/// A delivery outcome on which the producer moves to the next vector;
/// only transient backpressure keeps it on the same one.
pub open spec fn advances(o: PushOutcome) -> bool {
    o != PushOutcome::WouldBlock
}

/// Where the foreground loop stands: emitting the script, or pausing
/// between cycles.
#[derive(Clone, Copy, PartialEq, Eq, Structural, Debug)]
pub enum Phase {
    Idle,
    Emitting,
}

/// The report scheduler: the foreground loop's position within the motion
/// script, and the state of the cycle indicator line.
///
/// The surrounding program drives it: it asks for the current report,
/// attempts delivery through the HID class, and hands the outcome back to
/// `on_push_outcome`; between cycles it performs the fixed pause that
/// `end_cycle` returns.
pub struct Scheduler {
    pub script: Vec<MotionVector>,
    pub phase: Phase,
    /// Next vector to deliver; equals `SCRIPT_LEN` once the cycle is done.
    pub index: usize,
    /// The indicator line: on ("active") exactly while a cycle is emitting.
    pub indicator_active: bool,
}

impl Scheduler {
    /// The scheduler holds the fixed script, the indicator brackets
    /// emission, and the position never leaves the script.
    pub open spec fn wf(self) -> bool {
        &&& self.script@ == script_spec()
        &&& self.indicator_active == (self.phase is Emitting)
        &&& self.index <= SCRIPT_LEN
        &&& (self.phase is Idle ==> self.index == 0)
    }

    /// Starting a cycle: indicator on, position at the first vector.
    pub open spec fn begin_cycle_spec(self) -> Scheduler {
        Scheduler { phase: Phase::Emitting, index: 0, indicator_active: true, ..self }
    }

    /// One delivery outcome moves the position forward unless it was
    /// transient backpressure; nothing else changes.
    pub open spec fn step_outcome(self, o: PushOutcome) -> Scheduler {
        if advances(o) {
            Scheduler { index: (self.index + 1) as usize, ..self }
        } else {
            self
        }
    }

    /// A whole run of delivery outcomes, applied in order.
    pub open spec fn run_outcomes(self, os: Seq<PushOutcome>) -> Scheduler
        decreases os.len(),
    {
        if os.len() == 0 {
            self
        } else {
            self.step_outcome(os[0]).run_outcomes(os.drop_first())
        }
    }

    /// All vectors of the script have been delivered or abandoned.
    pub open spec fn cycle_complete_spec(self) -> bool {
        self.index == SCRIPT_LEN
    }

    /// Ending a cycle: indicator off, position reset for the next cycle.
    pub open spec fn end_cycle_spec(self) -> Scheduler {
        Scheduler { phase: Phase::Idle, index: 0, indicator_active: false, ..self }
    }

    /// The scheduler as it stands after bring-up, before the first cycle.
    pub fn new() -> (s: Scheduler)
        ensures
            s.wf(),
            s.phase is Idle,
            s.index == 0,
            !s.indicator_active,
    {
        let script = motion_script();
        Scheduler { script, phase: Phase::Idle, index: 0, indicator_active: false }
    }

    /// Begin a cycle: turn the indicator on and return to the start of the
    /// script. Only an idle scheduler may begin one, so cycles never
    /// overlap.
    pub fn begin_cycle(&mut self)
        requires
            old(self).wf(),
            old(self).phase is Idle,
        ensures
            *final(self) == old(self).begin_cycle_spec(),
            final(self).wf(),
    {
        self.phase = Phase::Emitting;
        self.index = 0;
        self.indicator_active = true;
    }

    /// The report to deliver for the current vector.
    pub fn current_report(&self) -> (r: InputReport)
        requires
            self.wf(),
            self.phase is Emitting,
            self.index < SCRIPT_LEN,
        ensures
            r == report_of(script_spec()[self.index as int]),
    {
        let v = self.script[self.index];
        report_for(v)
    }

    /// Record one delivery outcome. Transient backpressure leaves the
    /// scheduler exactly as it was, to retry the same vector; acceptance or
    /// a non-transient error advances to the next vector within the same
    /// cycle. Returns whether it advanced.
    pub fn on_push_outcome(&mut self, o: PushOutcome) -> (advanced: bool)
        requires
            old(self).wf(),
            old(self).phase is Emitting,
            old(self).index < SCRIPT_LEN,
        ensures
            *final(self) == old(self).step_outcome(o),
            advanced == advances(o),
            final(self).wf(),
    {
        match o {
            PushOutcome::WouldBlock => false,
            _ => {
                self.index = self.index + 1;
                true
            },
        }
    }

    /// Whether the current cycle has worked through the whole script.
    pub fn cycle_complete(&self) -> (done: bool)
        requires
            self.wf(),
            self.phase is Emitting,
        ensures
            done == self.cycle_complete_spec(),
    {
        self.index == SCRIPT_LEN
    }

    /// End the cycle: turn the indicator off and return the fixed pause, in
    /// milliseconds, that the foreground context suspends for before the
    /// next cycle begins.
    pub fn end_cycle(&mut self) -> (delay_ms: u16)
        requires
            old(self).wf(),
            old(self).phase is Emitting,
            old(self).cycle_complete_spec(),
        ensures
            *final(self) == old(self).end_cycle_spec(),
            final(self).wf(),
            delay_ms == CYCLE_DELAY_MS,
    {
        self.phase = Phase::Idle;
        self.index = 0;
        self.indicator_active = false;
        CYCLE_DELAY_MS
    }

    /// The indicator line as the outside world sees it.
    pub fn indicator(&self) -> (on: bool)
        ensures
            on == self.indicator_active,
    {
        self.indicator_active
    }
}

/// Number of outcomes in `os` on which the producer advances to the next
/// vector.
pub open spec fn advance_count(os: Seq<PushOutcome>) -> nat
    decreases os.len(),
{
    if os.len() == 0 {
        0
    } else {
        (if advances(os[0]) {
            1nat
        } else {
            0nat
        }) + advance_count(os.drop_first())
    }
}

/// A run of delivery outcomes only moves the position: phase, indicator and
/// script are exactly what they were.
pub proof fn lemma_run_preserves_mode(s: Scheduler, os: Seq<PushOutcome>)
    ensures
        s.run_outcomes(os).phase == s.phase,
        s.run_outcomes(os).indicator_active == s.indicator_active,
        s.run_outcomes(os).script == s.script,
    decreases os.len(),
{
    if os.len() > 0 {
        lemma_run_preserves_mode(s.step_outcome(os[0]), os.drop_first());
    }
}

/// A run of delivery outcomes advances the position by exactly the number
/// of advancing outcomes, as long as that stays within the script.
pub proof fn lemma_run_index(s: Scheduler, os: Seq<PushOutcome>)
    requires
        s.index + advance_count(os) <= SCRIPT_LEN,
    ensures
        s.run_outcomes(os).index == s.index + advance_count(os),
    decreases os.len(),
{
    if os.len() > 0 {
        lemma_run_index(s.step_outcome(os[0]), os.drop_first());
    }
}

/// Appending one more outcome to a run is one more step after it.
proof fn lemma_run_push(s: Scheduler, os: Seq<PushOutcome>, o: PushOutcome)
    ensures
        s.run_outcomes(os.push(o)) == s.run_outcomes(os).step_outcome(o),
    decreases os.len(),
{
    let full = os.push(o);
    if os.len() == 0 {
        assert(full[0] == o);
        assert(full.drop_first() =~= Seq::<PushOutcome>::empty());
        assert(s.step_outcome(o).run_outcomes(Seq::<PushOutcome>::empty())
            == s.step_outcome(o));
        assert(s.run_outcomes(full) == s.step_outcome(o));
    } else {
        assert(full[0] == os[0]);
        assert(full.drop_first() =~= os.drop_first().push(o));
        lemma_run_push(s.step_outcome(os[0]), os.drop_first(), o);
        assert(s.run_outcomes(full) == s.step_outcome(os[0]).run_outcomes(
            os.drop_first().push(o),
        ));
    }
}

/// A run of nothing but transient backpressure leaves the scheduler exactly
/// where it was.
proof fn lemma_run_would_block(s: Scheduler, n: nat)
    ensures
        s.run_outcomes(Seq::new(n, |i: int| PushOutcome::WouldBlock)) == s,
    decreases n,
{
    let os = Seq::new(n, |i: int| PushOutcome::WouldBlock);
    if n > 0 {
        assert(os.drop_first() =~= Seq::new((n - 1) as nat, |i: int| PushOutcome::WouldBlock));
        lemma_run_would_block(s, (n - 1) as nat);
    }
}

/// The outcome sequence of a delivery that reports transient backpressure
/// exactly `k` times and then acceptance.
pub open spec fn retry_outcomes(k: nat) -> Seq<PushOutcome> {
    Seq::new(k, |i: int| PushOutcome::WouldBlock).push(PushOutcome::Accepted)
}

/// Law: retry convergence. If delivery of one vector reports transient
/// backpressure exactly `k` times and then succeeds, the producer makes
/// exactly `k + 1` delivery attempts — one per outcome — staying on the
/// same vector through all `k` retries, and then advances by exactly one,
/// still within the same cycle.
pub proof fn lemma_retry_convergence(s: Scheduler, k: nat)
    requires
        s.wf(),
        s.phase is Emitting,
        s.index < SCRIPT_LEN,
    ensures
        retry_outcomes(k).len() == k + 1,
        forall|i: int|
            0 <= i <= k ==> s.run_outcomes(retry_outcomes(k).take(i)).index == s.index,
        s.run_outcomes(retry_outcomes(k)).index == s.index + 1,
        s.run_outcomes(retry_outcomes(k)).phase is Emitting,
        s.run_outcomes(retry_outcomes(k)).wf(),
{
    let wbs = Seq::new(k, |i: int| PushOutcome::WouldBlock);
    let os = retry_outcomes(k);
    lemma_run_push(s, wbs, PushOutcome::Accepted);
    lemma_run_would_block(s, k);
    assert forall|i: int|
        0 <= i <= k implies s.run_outcomes(os.take(i)).index == s.index by {
        assert(os.take(i) =~= Seq::new(i as nat, |j: int| PushOutcome::WouldBlock));
        lemma_run_would_block(s, i as nat);
    }
}

/// Law: a non-transient delivery error does not stall the script. It
/// abandons only the one report: the producer advances to the next vector
/// within the same cycle, with the indicator still active and no cycle
/// restart.
pub proof fn lemma_nontransient_error_advances(s: Scheduler)
    requires
        s.wf(),
        s.phase is Emitting,
        s.index < SCRIPT_LEN,
    ensures
        s.step_outcome(PushOutcome::Failed).index == s.index + 1,
        s.step_outcome(PushOutcome::Failed).phase is Emitting,
        s.step_outcome(PushOutcome::Failed).indicator_active,
        s.step_outcome(PushOutcome::Failed).wf(),
{
}

/// Law: monotonic cycle pacing. Over any cycle — begun from idle, and
/// running until its delivery outcomes have advanced through the whole
/// script — the indicator is active from the moment the cycle begins
/// through every delivery attempt; the cycle is complete exactly then, and
/// ending it switches the indicator off into the idle state, the only state
/// from which the next cycle may begin, so cycles never overlap. The idle
/// pause between two cycles is the fixed delay that `end_cycle` returns.
pub proof fn lemma_cycle_pacing(s: Scheduler, os: Seq<PushOutcome>)
    requires
        s.wf(),
        s.phase is Idle,
        advance_count(os) == SCRIPT_LEN,
    ensures
        s.begin_cycle_spec().indicator_active,
        forall|i: int|
            0 <= i <= os.len()
                ==> s.begin_cycle_spec().run_outcomes(os.take(i)).indicator_active,
        s.begin_cycle_spec().run_outcomes(os).cycle_complete_spec(),
        !s.begin_cycle_spec().run_outcomes(os).end_cycle_spec().indicator_active,
        s.begin_cycle_spec().run_outcomes(os).end_cycle_spec().phase is Idle,
        s.begin_cycle_spec().run_outcomes(os).end_cycle_spec().wf(),
{
    let e = s.begin_cycle_spec();
    assert forall|i: int|
        0 <= i <= os.len() implies e.run_outcomes(os.take(i)).indicator_active by {
        lemma_run_preserves_mode(e, os.take(i));
    }
    lemma_run_index(e, os);
    lemma_run_preserves_mode(e, os);
}

} // verus!
