//! The coordinator of a run of two processes, the emulator and the
//! debugger: it takes their outcomes in the order in which they arrive, and
//! resolves the run with the first failure, or with success once both have
//! ended successfully.

use vstd::prelude::*;
use crate::outcome::{Failure, Process, Resolution, RunOutcome};

verus! {

/// Where a run stands.
#[derive(Clone, Copy, Debug, PartialEq, Eq)]
pub enum RunState {
    /// No run is under way.
    Idle,
    /// The processes run; each flag says whether that process's outcome is
    /// still awaited.
    Running { emulator_pending: bool, debugger_pending: bool },
    /// The run is over.
    Resolved(Resolution),
}

impl RunState {
    /// Whether the outcome of `process` is awaited.
    pub open spec fn awaits(self, process: Process) -> bool {
        match self {
            RunState::Running { emulator_pending, debugger_pending } => match process {
                Process::Emulator => emulator_pending,
                Process::Debugger => debugger_pending,
            },
            _ => false,
        }
    }

    /// A running state awaits at least one outcome.
    pub open spec fn well_formed(self) -> bool {
        self matches RunState::Running { emulator_pending, debugger_pending } ==> emulator_pending
            || debugger_pending
    }

    /// The state of a run that has just started: both outcomes awaited.
    pub open spec fn started() -> RunState {
        RunState::Running { emulator_pending: true, debugger_pending: true }
    }

    /// The state after the outcome of `process` has arrived.
    ///
    /// An awaited failure resolves the run at once. An awaited success
    /// resolves it where no other outcome is awaited, and else leaves the
    /// other process awaited. An outcome that is not awaited is discarded:
    /// that of a process whose outcome has arrived before, and any outcome
    /// outside a run or after the run is resolved.
    pub open spec fn step(self, process: Process, outcome: RunOutcome) -> RunState {
        if !self.awaits(process) {
            self
        } else {
            match outcome {
                RunOutcome::Failure(cause) => RunState::Resolved(
                    Resolution::Failed { process, cause },
                ),
                RunOutcome::Success => match self {
                    RunState::Running { emulator_pending, debugger_pending } => {
                        let emulator_pending = emulator_pending && process != Process::Emulator;
                        let debugger_pending = debugger_pending && process != Process::Debugger;
                        if emulator_pending || debugger_pending {
                            RunState::Running { emulator_pending, debugger_pending }
                        } else {
                            RunState::Resolved(Resolution::Success)
                        }
                    },
                    _ => self,
                },
            }
        }
    }

    /// How the run ended, if it has.
    pub open spec fn resolution(self) -> Option<Resolution> {
        match self {
            RunState::Resolved(resolution) => Some(resolution),
            _ => None,
        }
    }
}

/// The state of a started run after the outcomes in `arrivals` have
/// arrived, in order.
pub open spec fn state_after(arrivals: Seq<(Process, RunOutcome)>) -> RunState
    decreases arrivals.len(),
{
    if arrivals.len() == 0 {
        RunState::started()
    } else {
        state_after(arrivals.drop_last()).step(arrivals.last().0, arrivals.last().1)
    }
}

/// The coordinator of one run at a time.
#[derive(Debug)]
pub struct DualRunCoordinator {
    state: RunState,
}

impl View for DualRunCoordinator {
    type V = RunState;

    /// Where the run stands.
    closed spec fn view(&self) -> RunState {
        self.state
    }
}

impl DualRunCoordinator {
    /// States that a running coordinator always awaits an outcome.
    #[verifier::type_invariant]
    spec fn awaits_while_running(self) -> bool {
        self.state.well_formed()
    }

    /// A coordinator with no run under way.
    pub fn new() -> (coordinator: DualRunCoordinator)
        ensures
            coordinator@ == RunState::Idle,
    {
        DualRunCoordinator { state: RunState::Idle }
    }

    /// Where the run stands.
    pub fn state(&self) -> (state: RunState)
        ensures
            state == self@,
            state.well_formed(),
    {
        proof {
            use_type_invariant(self);
        }
        self.state
    }

    /// Starts a run if none is under way, and says whether it did.
    pub fn start(&mut self) -> (started: bool)
        ensures
            started == (old(self)@ == RunState::Idle),
            final(self)@ == if started {
                RunState::started()
            } else {
                old(self)@
            },
    {
        proof {
            use_type_invariant(&*self);
        }
        match self.state {
            RunState::Idle => {
                self.state =
                RunState::Running { emulator_pending: true, debugger_pending: true };
                true
            },
            _ => false,
        }
    }

    /// Takes the outcome of `process`.
    pub fn deliver(&mut self, process: Process, outcome: RunOutcome)
        ensures
            final(self)@ == old(self)@.step(process, outcome),
    {
        proof {
            use_type_invariant(&*self);
        }
        let awaited = match self.state {
            RunState::Running { emulator_pending, debugger_pending } => match process {
                Process::Emulator => emulator_pending,
                Process::Debugger => debugger_pending,
            },
            _ => false,
        };
        if !awaited {
            return;
        }
        match outcome {
            RunOutcome::Failure(cause) => {
                self.state = RunState::Resolved(Resolution::Failed { process, cause });
            },
            RunOutcome::Success => {
                if let RunState::Running { emulator_pending, debugger_pending } = self.state {
                    let (emulator_pending, debugger_pending) = match process {
                        Process::Emulator => (false, debugger_pending),
                        Process::Debugger => (emulator_pending, false),
                    };
                    if emulator_pending || debugger_pending {
                        self.state = RunState::Running { emulator_pending, debugger_pending };
                    } else {
                        self.state = RunState::Resolved(Resolution::Success);
                    }
                }
            },
        }
    }

    /// How the run ended, if it has.
    pub fn resolution(&self) -> (resolution: Option<Resolution>)
        ensures
            resolution == self@.resolution(),
    {
        match self.state {
            RunState::Resolved(resolution) => Some(resolution),
            _ => None,
        }
    }

    /// Closes a resolved run: hands out how it ended and goes back to idle.
    /// Any other state stays as it is.
    pub fn finish(&mut self) -> (resolution: Option<Resolution>)
        ensures
            resolution == old(self)@.resolution(),
            final(self)@ == if resolution is Some {
                RunState::Idle
            } else {
                old(self)@
            },
    {
        proof {
            use_type_invariant(&*self);
        }
        match self.state {
            RunState::Resolved(resolution) => {
                self.state = RunState::Idle;
                Some(resolution)
            },
            _ => None,
        }
    }
}

/// Resolves a run from the outcomes that arrived, in order: `None` while
/// an outcome is still awaited.
pub fn resolve(arrivals: &Vec<(Process, RunOutcome)>) -> (resolution: Option<Resolution>)
    ensures
        resolution == state_after(arrivals@).resolution(),
{
    let mut coordinator = DualRunCoordinator::new();
    coordinator.start();
    let mut i: usize = 0;
    assert(arrivals@.take(0) =~= Seq::empty());
    while i < arrivals.len()
        invariant
            i <= arrivals.len(),
            coordinator@ == state_after(arrivals@.take(i as int)),
        decreases arrivals.len() - i,
    {
        let (process, outcome) = arrivals[i];
        coordinator.deliver(process, outcome);
        proof {
            assert(arrivals@.take(i + 1).drop_last() =~= arrivals@.take(i as int));
            assert(arrivals@.take(i + 1).last() == arrivals@[i as int]);
        }
        i += 1;
    }
    assert(arrivals@.take(arrivals.len() as int) =~= arrivals@);
    coordinator.resolution()
}

/// One more arrival takes the run one step further.
pub proof fn lemma_one_more(
    arrivals: Seq<(Process, RunOutcome)>,
    process: Process,
    outcome: RunOutcome,
)
    ensures
        state_after(arrivals.push((process, outcome))) == state_after(arrivals).step(
            process,
            outcome,
        ),
        state_after(Seq::empty()) == RunState::started(),
{
    assert(arrivals.push((process, outcome)).drop_last() =~= arrivals);
}

/// A resolved run stays as it is resolved, whatever arrives later.
pub proof fn lemma_resolved_is_final(
    arrivals: Seq<(Process, RunOutcome)>,
    later: Seq<(Process, RunOutcome)>,
)
    requires
        state_after(arrivals).resolution() is Some,
    ensures
        state_after(arrivals + later) == state_after(arrivals),
    decreases later.len(),
{
    if later.len() == 0 {
        assert(arrivals + later =~= arrivals);
    } else {
        lemma_resolved_is_final(arrivals, later.drop_last());
        assert((arrivals + later).drop_last() =~= arrivals + later.drop_last());
        assert((arrivals + later).last() == later.last());
    }
}

/// A failure that arrives first resolves the run, whatever the other
/// process does later.
pub proof fn lemma_first_failure_resolves(
    process: Process,
    cause: Failure,
    later: Seq<(Process, RunOutcome)>,
)
    ensures
        state_after(seq![(process, RunOutcome::Failure(cause))] + later) == RunState::Resolved(
            Resolution::Failed { process, cause },
        ),
{
    let first = seq![(process, RunOutcome::Failure(cause))];
    lemma_one_more(Seq::empty(), process, RunOutcome::Failure(cause));
    assert(Seq::empty().push((process, RunOutcome::Failure(cause))) =~= first);
    lemma_resolved_is_final(first, later);
}

/// A failure of one process that arrives after the success of the other
/// resolves the run with that failure.
pub proof fn lemma_failure_after_success_resolves(
    process: Process,
    cause: Failure,
    other: Process,
    later: Seq<(Process, RunOutcome)>,
)
    requires
        other != process,
    ensures
        state_after(
            seq![(other, RunOutcome::Success), (process, RunOutcome::Failure(cause))] + later,
        ) == RunState::Resolved(Resolution::Failed { process, cause }),
{
    let one = seq![(other, RunOutcome::Success)];
    let both = seq![(other, RunOutcome::Success), (process, RunOutcome::Failure(cause))];
    lemma_one_more(Seq::empty(), other, RunOutcome::Success);
    assert(Seq::empty().push((other, RunOutcome::Success)) =~= one);
    lemma_one_more(one, process, RunOutcome::Failure(cause));
    assert(one.push((process, RunOutcome::Failure(cause))) =~= both);
    lemma_resolved_is_final(both, later);
}

/// The successes of both processes, in either order, resolve the run with
/// success, and one success alone does not resolve it.
pub proof fn lemma_both_successes_resolve(first: Process, second: Process)
    requires
        first != second,
    ensures
        state_after(seq![(first, RunOutcome::Success)]).resolution() is None,
        state_after(seq![(first, RunOutcome::Success), (second, RunOutcome::Success)])
            == RunState::Resolved(Resolution::Success),
{
    let one = seq![(first, RunOutcome::Success)];
    let both = seq![(first, RunOutcome::Success), (second, RunOutcome::Success)];
    lemma_one_more(Seq::empty(), first, RunOutcome::Success);
    assert(Seq::empty().push((first, RunOutcome::Success)) =~= one);
    lemma_one_more(one, second, RunOutcome::Success);
    assert(one.push((second, RunOutcome::Success)) =~= both);
}

} // verus!
