use crate::slot::{spec_start_time, Slot, GENESIS_SLOT_TIME, SLOT_PERIOD_SECONDS};
use vstd::arithmetic::div_mod::lemma_fundamental_div_mod;
use vstd::prelude::*;

verus! {

/// At most this many attestation attempts may run at the same time. Slots
/// arrive every 12 seconds and an attempt may take at most 24, so with
/// prompt timeout handling no more than two are ever outstanding.
pub const MAX_CONCURRENT_SLOTS: u64 = 2;

/// Wall-clock budget of a single attempt, in seconds.
pub const ATTESTATION_TIMEOUT: u64 = 24;

/// An attempt that would begin more than this many milliseconds after its
/// slot's nominal start is skipped instead of started.
pub const DELAYED_START_LIMIT_MILLIS: u64 = 1000;

/// Where the scheduler stands in its life cycle.
#[derive(Clone, Copy, Debug, PartialEq, Eq, Structural)]
pub enum SchedulerPhase {
    /// Constructed; waiting for the next slot boundary before ticking.
    Aligning,
    /// Ticking once per slot period.
    Running,
    /// Terminal: the slot-count budget is exhausted.
    Stopped,
}

/// What becomes of a tick that has passed the budget gate and asks to
/// start an attempt.
#[derive(Clone, Copy, Debug, PartialEq, Eq, Structural)]
pub enum StartDecision {
    /// The concurrency pool is full; the tick must wait for a seat.
    Saturated,
    /// The tick is too late into its slot; it is skipped outright and the
    /// sampler is never invoked for it.
    SkippedLate,
    /// An attempt has been started and now occupies a seat.
    Started,
}

/// How one attempt ended. Every variant frees the attempt's seat; none
/// stops the scheduler.
#[derive(Clone, Copy, Debug, PartialEq, Eq, Structural)]
pub enum AttemptOutcome {
    /// The bundle was delivered to the sink.
    Delivered,
    /// The value sampler failed.
    SampleFailed,
    /// Bundle generation failed (signing or identity retrieval).
    GenerationFailed,
    /// The delivery sink rejected the bundle.
    DeliveryFailed,
    /// The attempt did not return within the fixed timeout and was
    /// abandoned; no bundle was delivered for it.
    TimedOut,
}

/// One thing that can happen to a running scheduler.
#[derive(Clone, Copy, Debug, PartialEq, Eq, Structural)]
pub enum SchedulerEvent {
    /// The initial wait for a slot boundary finished.
    AlignmentDone,
    /// The periodic tick fired and faces the budget gate.
    Tick,
    /// An admitted tick asks to start its attempt; `late` says whether its
    /// slot's nominal start lies more than the grace window in the past.
    AttemptStart { late: bool },
    /// A running attempt ended.
    AttemptEnd { outcome: AttemptOutcome },
}

/// The scheduler's decision state: everything its admission, lateness and
/// concurrency decisions read or write. The I/O around it (the tick
/// stream, the sleeps, the attempts themselves) lives outside the library
/// and drives this machine.
pub struct SchedulerState {
    /// Life-cycle phase.
    pub phase: SchedulerPhase,
    /// How many more ticks the budget admits; `None` means unbounded.
    pub slots_to_run: Option<u64>,
    /// Attempts currently occupying a concurrency seat.
    pub running_attempts: u64,
    /// Ticks admitted through the budget gate so far.
    pub admitted: u64,
    /// Attempts that ended with a delivered bundle.
    pub delivered: u64,
}

/// The scheduler's invariant: it never holds more concurrent attempts
/// than the bound allows.
pub open spec fn spec_scheduler_wf(s: SchedulerState) -> bool {
    s.running_attempts <= MAX_CONCURRENT_SLOTS
}

/// The state a freshly constructed scheduler starts in.
pub open spec fn spec_initial_state(slots_to_run: Option<u64>) -> SchedulerState {
    SchedulerState {
        phase: SchedulerPhase::Aligning,
        slots_to_run,
        running_attempts: 0,
        admitted: 0,
        delivered: 0,
    }
}

/// The budget gate: an unbounded scheduler admits every tick; a budgeted
/// one admits and decrements while the budget lasts, and stops at zero.
pub open spec fn spec_admit_tick(s: SchedulerState) -> (SchedulerState, bool) {
    match s.slots_to_run {
        Option::None => (
            SchedulerState {
                phase: s.phase,
                slots_to_run: s.slots_to_run,
                running_attempts: s.running_attempts,
                admitted: (s.admitted + 1) as u64,
                delivered: s.delivered,
            },
            true,
        ),
        Option::Some(k) => if k > 0 {
            (
                SchedulerState {
                    phase: s.phase,
                    slots_to_run: Option::Some((k - 1) as u64),
                    running_attempts: s.running_attempts,
                    admitted: (s.admitted + 1) as u64,
                    delivered: s.delivered,
                },
                true,
            )
        } else {
            (
                SchedulerState {
                    phase: SchedulerPhase::Stopped,
                    slots_to_run: s.slots_to_run,
                    running_attempts: s.running_attempts,
                    admitted: s.admitted,
                    delivered: s.delivered,
                },
                false,
            )
        },
    }
}

/// The start gate: a full pool makes the tick wait, a late tick is
/// skipped, otherwise an attempt starts and takes a seat.
pub open spec fn spec_begin_attempt(s: SchedulerState, late: bool) -> (
    SchedulerState,
    StartDecision,
) {
    if s.running_attempts >= MAX_CONCURRENT_SLOTS {
        (s, StartDecision::Saturated)
    } else if late {
        (s, StartDecision::SkippedLate)
    } else {
        (
            SchedulerState {
                phase: s.phase,
                slots_to_run: s.slots_to_run,
                running_attempts: (s.running_attempts + 1) as u64,
                admitted: s.admitted,
                delivered: s.delivered,
            },
            StartDecision::Started,
        )
    }
}

/// The end of an attempt: its seat is freed, a delivered bundle is
/// counted, and nothing else changes — in particular the phase and the
/// budget stay as they are, whatever the outcome was.
pub open spec fn spec_finish_attempt(s: SchedulerState, outcome: AttemptOutcome) -> SchedulerState {
    SchedulerState {
        phase: s.phase,
        slots_to_run: s.slots_to_run,
        running_attempts: (s.running_attempts - 1) as u64,
        admitted: s.admitted,
        delivered: if outcome is Delivered {
            (s.delivered + 1) as u64
        } else {
            s.delivered
        },
    }
}

/// One step of the machine: events that do not apply in the current state
/// leave it unchanged.
pub open spec fn spec_step(s: SchedulerState, e: SchedulerEvent) -> SchedulerState {
    match e {
        SchedulerEvent::AlignmentDone => if s.phase is Aligning {
            SchedulerState {
                phase: SchedulerPhase::Running,
                slots_to_run: s.slots_to_run,
                running_attempts: s.running_attempts,
                admitted: s.admitted,
                delivered: s.delivered,
            }
        } else {
            s
        },
        SchedulerEvent::Tick => if s.phase is Running {
            spec_admit_tick(s).0
        } else {
            s
        },
        SchedulerEvent::AttemptStart { late } => if s.phase is Running {
            spec_begin_attempt(s, late).0
        } else {
            s
        },
        SchedulerEvent::AttemptEnd { outcome } => if s.running_attempts >= 1 {
            spec_finish_attempt(s, outcome)
        } else {
            s
        },
    }
}

/// The machine after a whole sequence of events.
pub open spec fn spec_run(s: SchedulerState, events: Seq<SchedulerEvent>) -> SchedulerState
    decreases events.len(),
{
    if events.len() == 0 {
        s
    } else {
        spec_step(spec_run(s, events.drop_last()), events.last())
    }
}

impl SchedulerState {
    /// A scheduler that has not started ticking yet, with an optional
    /// slot-count budget for bounded runs.
    pub fn new(slots_to_run: Option<u64>) -> (s: SchedulerState)
        ensures
            s == spec_initial_state(slots_to_run),
    {
        SchedulerState {
            phase: SchedulerPhase::Aligning,
            slots_to_run,
            running_attempts: 0,
            admitted: 0,
            delivered: 0,
        }
    }

    /// The initial wait for a slot boundary is over: begin ticking.
    pub fn start_running(&mut self)
        requires
            old(self).phase is Aligning,
        ensures
            *final(self) == spec_step(*old(self), SchedulerEvent::AlignmentDone),
    {
        self.phase = SchedulerPhase::Running;
    }

    /// Evaluate the budget gate for one tick. Returns whether the tick may
    /// proceed towards an attempt; on an exhausted budget the scheduler
    /// stops instead.
    pub fn admit_tick(&mut self) -> (proceed: bool)
        requires
            old(self).phase is Running,
            old(self).admitted < u64::MAX,
        ensures
            *final(self) == spec_step(*old(self), SchedulerEvent::Tick),
            proceed == spec_admit_tick(*old(self)).1,
            proceed == !(final(self).phase is Stopped),
    {
        match self.slots_to_run {
            None => {
                self.admitted = self.admitted + 1;
                true
            },
            Some(k) => {
                if k > 0 {
                    self.slots_to_run = Some(k - 1);
                    self.admitted = self.admitted + 1;
                    true
                } else {
                    self.phase = SchedulerPhase::Stopped;
                    false
                }
            },
        }
    }

    /// Whether an attempt for `slot` beginning at `now_millis` (unix
    /// milliseconds) would start more than the grace window after the
    /// slot's nominal start.
    pub fn is_late_start(slot: &Slot, now_millis: u64) -> (late: bool)
        requires
            spec_start_time(slot.number as int) * 1000 + DELAYED_START_LIMIT_MILLIS <= u64::MAX,
        ensures
            late == spec_is_late(slot.number, now_millis),
    {
        let start_millis = slot.start_timestamp() * 1000;
        now_millis > start_millis + DELAYED_START_LIMIT_MILLIS
    }

    /// Evaluate the start gate for an admitted tick: wait when the pool is
    /// saturated, skip a late tick without invoking the sampler, or start
    /// the attempt and take a seat.
    pub fn begin_attempt(&mut self, slot: &Slot, now_millis: u64) -> (d: StartDecision)
        requires
            old(self).phase is Running,
            spec_start_time(slot.number as int) * 1000 + DELAYED_START_LIMIT_MILLIS <= u64::MAX,
        ensures
            *final(self) == spec_step(
                *old(self),
                SchedulerEvent::AttemptStart { late: spec_is_late(slot.number, now_millis) },
            ),
            d == spec_begin_attempt(*old(self), spec_is_late(slot.number, now_millis)).1,
    {
        if self.running_attempts >= MAX_CONCURRENT_SLOTS {
            StartDecision::Saturated
        } else if Self::is_late_start(slot, now_millis) {
            StartDecision::SkippedLate
        } else {
            self.running_attempts = self.running_attempts + 1;
            StartDecision::Started
        }
    }

    /// Record the end of a running attempt, whatever its outcome: the seat
    /// is freed, a delivered bundle is counted, and neither the phase nor
    /// the budget changes — a failure or timeout never stops the
    /// scheduler.
    pub fn finish_attempt(&mut self, outcome: AttemptOutcome)
        requires
            old(self).running_attempts >= 1,
            old(self).delivered < u64::MAX,
        ensures
            *final(self) == spec_step(*old(self), SchedulerEvent::AttemptEnd { outcome }),
    {
        self.running_attempts = self.running_attempts - 1;
        if matches!(outcome, AttemptOutcome::Delivered) {
            self.delivered = self.delivered + 1;
        }
    }
}

/// Whether `now_millis` lies more than the grace window after the nominal
/// start of `slot_number`.
pub open spec fn spec_is_late(slot_number: u64, now_millis: u64) -> bool {
    now_millis > spec_start_time(slot_number as int) * 1000 + DELAYED_START_LIMIT_MILLIS
}

/// The slot index whose window contains the instant `ms`, given in unix
/// milliseconds at or after genesis.
pub open spec fn spec_slot_of_millis(ms: u64) -> int {
    (ms - GENESIS_SLOT_TIME * 1000) / (SLOT_PERIOD_SECONDS * 1000) as int
}

/// How long to sleep from `now_millis` so that waking lands exactly on
/// the start of the next slot.
pub fn millis_until_next_slot(now_millis: u64) -> (r: u64)
    requires
        now_millis >= GENESIS_SLOT_TIME * 1000,
        now_millis + SLOT_PERIOD_SECONDS * 1000 <= u64::MAX,
    ensures
        0 < r <= SLOT_PERIOD_SECONDS * 1000,
        now_millis + r == spec_start_time(spec_slot_of_millis(now_millis) + 1) * 1000,
{
    let period_millis = SLOT_PERIOD_SECONDS * 1000;
    let elapsed = now_millis - GENESIS_SLOT_TIME * 1000;
    let r = period_millis - elapsed % period_millis;
    proof {
        let e = elapsed as int;
        let q = e / 12000;
        lemma_fundamental_div_mod(e, 12000);
        assert(now_millis + r == GENESIS_SLOT_TIME * 1000 + (q + 1) * 12000);
        assert((GENESIS_SLOT_TIME + (q + 1) * SLOT_PERIOD_SECONDS) * 1000 == GENESIS_SLOT_TIME
            * 1000 + (q + 1) * 12000) by (nonlinear_arith);
    }
    r
}

/// Law: every single step keeps the scheduler within its concurrency
/// bound.
pub proof fn lemma_step_preserves_wf(s: SchedulerState, e: SchedulerEvent)
    requires
        spec_scheduler_wf(s),
    ensures
        spec_scheduler_wf(spec_step(s, e)),
{
}

/// Law: at no point of any run do more than `MAX_CONCURRENT_SLOTS`
/// attempts hold a seat at the same time: a scheduler that starts within
/// the concurrency bound stays within it through every sequence of
/// events.
pub proof fn lemma_run_preserves_wf(s: SchedulerState, events: Seq<SchedulerEvent>)
    requires
        spec_scheduler_wf(s),
    ensures
        spec_scheduler_wf(spec_run(s, events)),
    decreases events.len(),
{
    if events.len() > 0 {
        lemma_run_preserves_wf(s, events.drop_last());
        lemma_step_preserves_wf(spec_run(s, events.drop_last()), events.last());
    }
}

/// The inductive shape of a budgeted run: the admitted count and the
/// remaining budget always sum to the initial budget, and a stopped
/// scheduler has no budget left.
pub open spec fn spec_budget_invariant(s: SchedulerState, n: u64) -> bool {
    &&& s.slots_to_run matches Option::Some(k)
    &&& s.slots_to_run matches Option::Some(k) ==> s.admitted + k == n
    &&& s.phase is Stopped ==> s.slots_to_run == Option::Some(0u64)
}

/// Law: with a slot-count budget of `n`, no run ever admits more than `n`
/// ticks, and by the time the scheduler stops, exactly `n` were admitted.
pub proof fn lemma_budget_admits_exactly(
    s0: SchedulerState,
    events: Seq<SchedulerEvent>,
    n: u64,
)
    requires
        s0.slots_to_run == Option::Some(n),
        s0.admitted == 0,
        !(s0.phase is Stopped),
    ensures
        spec_run(s0, events).admitted <= n,
        spec_run(s0, events).phase is Stopped ==> spec_run(s0, events).admitted == n,
    decreases events.len(),
{
    lemma_budget_invariant_holds(s0, events, n);
}

/// The budget invariant holds after every prefix of a budgeted run.
proof fn lemma_budget_invariant_holds(s0: SchedulerState, events: Seq<SchedulerEvent>, n: u64)
    requires
        s0.slots_to_run == Option::Some(n),
        s0.admitted == 0,
        !(s0.phase is Stopped),
    ensures
        spec_budget_invariant(spec_run(s0, events), n),
    decreases events.len(),
{
    if events.len() > 0 {
        lemma_budget_invariant_holds(s0, events.drop_last(), n);
    }
}

/// A run of `k` bare ticks.
pub open spec fn spec_ticks(k: nat) -> Seq<SchedulerEvent> {
    Seq::new(k, |i: int| SchedulerEvent::Tick)
}

/// After `k` ticks of a budget of `n`, with `k <= n`, the scheduler is
/// still running, has admitted `k` of them, and has `n - k` left.
proof fn lemma_ticks_partial_drain(s0: SchedulerState, n: u64, k: nat)
    requires
        s0.phase is Running,
        s0.slots_to_run == Option::Some(n),
        s0.admitted == 0,
        k <= n,
    ensures
        spec_run(s0, spec_ticks(k)).phase is Running,
        spec_run(s0, spec_ticks(k)).admitted == k,
        spec_run(s0, spec_ticks(k)).slots_to_run == Option::Some((n - k) as u64),
    decreases k,
{
    if k > 0 {
        lemma_ticks_partial_drain(s0, n, (k - 1) as nat);
        assert(spec_ticks(k).drop_last() =~= spec_ticks((k - 1) as nat));
        assert(spec_ticks(k).last() == SchedulerEvent::Tick);
    } else {
        assert(spec_ticks(0) =~= Seq::<SchedulerEvent>::empty());
    }
}

/// Law: a running scheduler with a slot-count budget of `n` admits the
/// next `n` ticks and reaches the Stopped state on the tick after them,
/// with exactly `n` ticks admitted in all.
pub proof fn lemma_budget_reaches_stopped(s0: SchedulerState, n: u64)
    requires
        s0.phase is Running,
        s0.slots_to_run == Option::Some(n),
        s0.admitted == 0,
        n < u64::MAX,
    ensures
        spec_run(s0, spec_ticks(n as nat + 1)).phase is Stopped,
        spec_run(s0, spec_ticks(n as nat + 1)).admitted == n,
{
    lemma_ticks_partial_drain(s0, n, n as nat);
    assert(spec_ticks(n as nat + 1).drop_last() =~= spec_ticks(n as nat));
    assert(spec_ticks(n as nat + 1).last() == SchedulerEvent::Tick);
}

/// Law: a stopped scheduler admits nothing further: whatever events still
/// arrive, it stays stopped and its admitted count never changes.
pub proof fn lemma_stopped_admits_nothing(s: SchedulerState, events: Seq<SchedulerEvent>)
    requires
        s.phase is Stopped,
    ensures
        spec_run(s, events).phase is Stopped,
        spec_run(s, events).admitted == s.admitted,
        spec_run(s, events).slots_to_run == s.slots_to_run,
    decreases events.len(),
{
    if events.len() > 0 {
        lemma_stopped_admits_nothing(s, events.drop_last());
    }
}

/// Law: an attempt that hits its timeout is abandoned exactly like a
/// failed one: its seat is freed, no bundle is counted as delivered, and
/// the scheduler's phase and budget are untouched, so ticking continues.
pub proof fn lemma_timeout_abandons_attempt(s: SchedulerState)
    requires
        s.running_attempts >= 1,
    ensures
        ({
            let s2 = spec_finish_attempt(s, AttemptOutcome::TimedOut);
            &&& s2.delivered == s.delivered
            &&& s2.phase == s.phase
            &&& s2.slots_to_run == s.slots_to_run
            &&& s2.admitted == s.admitted
            &&& s2.running_attempts == s.running_attempts - 1
        }),
{
}

/// Law: a tick whose slot began more than the grace window ago is skipped
/// outright whenever a seat would have been free: the machine is left
/// unchanged and no attempt starts, so the sampler is never invoked for
/// that slot.
pub proof fn lemma_late_tick_skipped(s: SchedulerState, late: bool)
    requires
        late,
        s.running_attempts < MAX_CONCURRENT_SLOTS,
    ensures
        spec_begin_attempt(s, late).0 == s,
        spec_begin_attempt(s, late).1 == StartDecision::SkippedLate,
{
}

} // verus!
