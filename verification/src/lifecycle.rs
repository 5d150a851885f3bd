//! The lifecycle orchestrator: the order of the five steps, and what a
//! failure of each means for the rest of the run.
//!
//! The steps run strictly one after the other: allocate, format, mount,
//! transfer, unmount. A failure to allocate, format or mount ends the run at
//! once, with nothing to clean up since nothing is mounted. A failure to
//! transfer is reported and the run goes on to unmount, so that the mount is
//! not left behind. A failure to unmount is reported and the run ends.
//! Nothing is tried twice and nothing is undone.

use crate::allocator::AllocError;
use crate::formatter::FormatError;
use crate::mount::MountError;
use crate::transfer::TransferError;
use vstd::prelude::*;

verus! {

/// The exit status of a run in which no fatal step failed.
pub const EXIT_SUCCESS: i32 = 0;

/// The exit status of a run that a failed step ended early.
pub const EXIT_FAILURE: i32 = 1;

/// One step of a run.
#[derive(Clone, Copy, Debug, PartialEq, Eq)]
pub enum Step {
    Allocate,
    Format,
    Mount,
    Transfer,
    Unmount,
}

/// The error of a failed step.
#[derive(Clone, Copy, Debug, PartialEq, Eq)]
pub enum StepError {
    Alloc(AllocError),
    Format(FormatError),
    Mount(MountError),
    Transfer(TransferError),
}

/// Where a run stands: a step is due, or the run is over.
#[derive(Clone, Copy, Debug, PartialEq, Eq)]
pub enum Phase {
    Pending(Step),
    Finished,
}

/// What the caller is to do next.
#[derive(Clone, Copy, Debug, PartialEq, Eq)]
pub enum Directive {
    /// Perform this step and report its result.
    Run(Step),
    /// End the process with this exit status.
    Exit(i32),
}

/// What a step's result means for the run.
#[derive(Clone, Copy, Debug, PartialEq, Eq)]
pub enum Severity {
    /// The step succeeded.
    Passed,
    /// The step failed and the run goes on.
    Degraded,
    /// The step failed and the run ends here.
    Fatal,
}

/// What there is to tell the operator about a step that was performed.
#[derive(Clone, Copy, Debug, PartialEq, Eq)]
pub struct Report {
    pub step: Step,
    pub result: Result<(), StepError>,
    pub severity: Severity,
}

impl Step {
    /// A failure of this step ends the run.
    pub open spec fn is_fatal(self) -> bool {
        self is Allocate || self is Format || self is Mount
    }
}

/// What a failure or success of `step` means for the run.
pub open spec fn severity_of(step: Step, succeeded: bool) -> Severity {
    if succeeded {
        Severity::Passed
    } else if step.is_fatal() {
        Severity::Fatal
    } else {
        Severity::Degraded
    }
}

/// What a [`Lifecycle`] is: the phase of the run and what the run has
/// achieved so far.
pub struct LifecycleView {
    pub phase: Phase,
    /// The allocation was reported successful.
    pub allocated: bool,
    /// The formatting was reported successful.
    pub formatted: bool,
    /// The mount was reported successful, and no unmount since.
    pub mounted: bool,
    /// The transfer was reported successful.
    pub copied: bool,
    /// A fatal step failed.
    pub aborted: bool,
}

impl LifecycleView {
    /// The state every run starts in.
    pub open spec fn start() -> LifecycleView {
        LifecycleView {
            phase: Phase::Pending(Step::Allocate),
            allocated: false,
            formatted: false,
            mounted: false,
            copied: false,
            aborted: false,
        }
    }

    /// What the phase says of what has been achieved: each step is due only
    /// when the steps before it have succeeded, the image is mounted exactly
    /// while a transfer or an unmount is due, and after a run that was cut
    /// short nothing is mounted.
    pub open spec fn well_formed(self) -> bool {
        match self.phase {
            Phase::Pending(Step::Allocate) => !self.allocated && !self.formatted && !self.mounted
                && !self.copied && !self.aborted,
            Phase::Pending(Step::Format) => self.allocated && !self.formatted && !self.mounted
                && !self.copied && !self.aborted,
            Phase::Pending(Step::Mount) => self.allocated && self.formatted && !self.mounted
                && !self.copied && !self.aborted,
            Phase::Pending(Step::Transfer) => self.allocated && self.formatted && self.mounted
                && !self.copied && !self.aborted,
            Phase::Pending(Step::Unmount) => self.allocated && self.formatted && self.mounted
                && !self.aborted,
            Phase::Finished => {
                &&& self.formatted ==> self.allocated
                &&& self.mounted || self.copied ==> self.formatted && !self.aborted
            },
        }
    }

    /// What the caller is to do in this state. A finished run exits with
    /// failure exactly if a fatal step failed.
    pub open spec fn directive(self) -> Directive {
        match self.phase {
            Phase::Pending(step) => Directive::Run(step),
            Phase::Finished => Directive::Exit(
                if self.aborted {
                    EXIT_FAILURE
                } else {
                    EXIT_SUCCESS
                },
            ),
        }
    }

    /// The state after the step that was due succeeded or failed. A finished
    /// run stays as it is.
    pub open spec fn after(self, succeeded: bool) -> LifecycleView {
        match self.phase {
            Phase::Pending(Step::Allocate) => if succeeded {
                LifecycleView { phase: Phase::Pending(Step::Format), allocated: true, ..self }
            } else {
                LifecycleView { phase: Phase::Finished, aborted: true, ..self }
            },
            Phase::Pending(Step::Format) => if succeeded {
                LifecycleView { phase: Phase::Pending(Step::Mount), formatted: true, ..self }
            } else {
                LifecycleView { phase: Phase::Finished, aborted: true, ..self }
            },
            Phase::Pending(Step::Mount) => if succeeded {
                LifecycleView { phase: Phase::Pending(Step::Transfer), mounted: true, ..self }
            } else {
                LifecycleView { phase: Phase::Finished, aborted: true, ..self }
            },
            Phase::Pending(Step::Transfer) => LifecycleView {
                phase: Phase::Pending(Step::Unmount),
                copied: succeeded,
                ..self
            },
            Phase::Pending(Step::Unmount) => LifecycleView {
                phase: Phase::Finished,
                mounted: !succeeded,
                ..self
            },
            Phase::Finished => self,
        }
    }

    /// The state after a whole run of step results, oldest first, `true` for
    /// a success.
    pub open spec fn after_all(self, outcomes: Seq<bool>) -> LifecycleView
        decreases outcomes.len(),
    {
        if outcomes.len() == 0 {
            self
        } else {
            self.after_all(outcomes.drop_last()).after(outcomes.last())
        }
    }
}

/// Decides, step by step, how a run proceeds.
pub struct Lifecycle {
    phase: Phase,
    allocated: bool,
    formatted: bool,
    mounted: bool,
    copied: bool,
    aborted: bool,
}

impl View for Lifecycle {
    type V = LifecycleView;

    closed spec fn view(&self) -> LifecycleView {
        LifecycleView {
            phase: self.phase,
            allocated: self.allocated,
            formatted: self.formatted,
            mounted: self.mounted,
            copied: self.copied,
            aborted: self.aborted,
        }
    }
}

impl Lifecycle {
    #[verifier::type_invariant]
    spec fn inv(self) -> bool {
        self@.well_formed()
    }

    /// A run with every step still to do.
    pub fn new() -> (lifecycle: Lifecycle)
        ensures
            lifecycle@ == LifecycleView::start(),
    {
        Lifecycle {
            phase: Phase::Pending(Step::Allocate),
            allocated: false,
            formatted: false,
            mounted: false,
            copied: false,
            aborted: false,
        }
    }

    /// Where the run stands.
    pub fn phase(&self) -> (phase: Phase)
        ensures
            phase == self@.phase,
            self@.well_formed(),
    {
        proof {
            use_type_invariant(self);
        }
        self.phase
    }

    /// Whether the image is mounted, as far as the results reported say.
    pub fn mounted(&self) -> (mounted: bool)
        ensures
            mounted == self@.mounted,
    {
        self.mounted
    }

    /// Whether the file was copied into the image.
    pub fn copied(&self) -> (copied: bool)
        ensures
            copied == self@.copied,
    {
        self.copied
    }

    /// What to do next. Formatting is called for only once the image is
    /// allocated and while it is not mounted, mounting only once it is
    /// formatted, and a transfer or an unmount only while it is mounted.
    pub fn directive(&self) -> (directive: Directive)
        ensures
            directive == self@.directive(),
            directive == Directive::Run(Step::Format) ==> self@.allocated && !self@.mounted,
            directive == Directive::Run(Step::Mount) ==> self@.formatted && !self@.mounted,
            directive == Directive::Run(Step::Transfer) ==> self@.mounted,
            directive == Directive::Run(Step::Unmount) ==> self@.mounted,
            directive == Directive::Exit(EXIT_FAILURE) ==> !self@.mounted,
    {
        proof {
            use_type_invariant(self);
        }
        match self.phase {
            Phase::Pending(step) => Directive::Run(step),
            Phase::Finished => {
                if self.aborted {
                    Directive::Exit(EXIT_FAILURE)
                } else {
                    Directive::Exit(EXIT_SUCCESS)
                }
            },
        }
    }

    /// Records the result of the step that was due, and says what to tell
    /// the operator about it. Once the run is over nothing is recorded and
    /// there is nothing to tell.
    pub fn record(&mut self, result: Result<(), StepError>) -> (report: Option<Report>)
        ensures
            final(self)@ == old(self)@.after(result is Ok),
            match old(self)@.phase {
                Phase::Pending(step) => report == Some(
                    Report { step, result, severity: severity_of(step, result is Ok) },
                ),
                Phase::Finished => report is None,
            },
    {
        proof {
            use_type_invariant(&*self);
        }
        let succeeded = result.is_ok();
        match self.phase {
            Phase::Finished => None,
            Phase::Pending(step) => {
                let fatal = match step {
                    Step::Allocate | Step::Format | Step::Mount => true,
                    Step::Transfer | Step::Unmount => false,
                };
                let severity = if succeeded {
                    Severity::Passed
                } else if fatal {
                    Severity::Fatal
                } else {
                    Severity::Degraded
                };
                let (phase, aborted) = if fatal && !succeeded {
                    (Phase::Finished, true)
                } else {
                    match step {
                        Step::Allocate => (Phase::Pending(Step::Format), false),
                        Step::Format => (Phase::Pending(Step::Mount), false),
                        Step::Mount => (Phase::Pending(Step::Transfer), false),
                        Step::Transfer => (Phase::Pending(Step::Unmount), false),
                        Step::Unmount => (Phase::Finished, false),
                    }
                };
                *self = Lifecycle {
                    phase,
                    allocated: match step {
                        Step::Allocate => succeeded,
                        _ => self.allocated,
                    },
                    formatted: match step {
                        Step::Format => succeeded,
                        _ => self.formatted,
                    },
                    mounted: match step {
                        Step::Mount => succeeded,
                        Step::Unmount => !succeeded,
                        _ => self.mounted,
                    },
                    copied: match step {
                        Step::Transfer => succeeded,
                        _ => self.copied,
                    },
                    aborted,
                };
                Some(Report { step, result, severity })
            },
        }
    }
}

/// The state of a run written out by the results reported so far: the run
/// is over at the first failure among the first three steps, and after five
/// results.
spec fn outlined(outcomes: Seq<bool>) -> LifecycleView {
    let n = outcomes.len();
    let start = LifecycleView::start();
    if n == 0 {
        start
    } else if !outcomes[0] {
        LifecycleView { phase: Phase::Finished, aborted: true, ..start }
    } else if n == 1 {
        LifecycleView { phase: Phase::Pending(Step::Format), allocated: true, ..start }
    } else if !outcomes[1] {
        LifecycleView { phase: Phase::Finished, allocated: true, aborted: true, ..start }
    } else if n == 2 {
        LifecycleView {
            phase: Phase::Pending(Step::Mount),
            allocated: true,
            formatted: true,
            ..start
        }
    } else if !outcomes[2] {
        LifecycleView {
            phase: Phase::Finished,
            allocated: true,
            formatted: true,
            aborted: true,
            ..start
        }
    } else if n == 3 {
        LifecycleView {
            phase: Phase::Pending(Step::Transfer),
            allocated: true,
            formatted: true,
            mounted: true,
            ..start
        }
    } else if n == 4 {
        LifecycleView {
            phase: Phase::Pending(Step::Unmount),
            allocated: true,
            formatted: true,
            mounted: true,
            copied: outcomes[3],
            ..start
        }
    } else {
        LifecycleView {
            phase: Phase::Finished,
            allocated: true,
            formatted: true,
            mounted: !outcomes[4],
            copied: outcomes[3],
            aborted: false,
        }
    }
}

proof fn lemma_run_is_outlined(outcomes: Seq<bool>)
    ensures
        LifecycleView::start().after_all(outcomes) == outlined(outcomes),
    decreases outcomes.len(),
{
    if outcomes.len() > 0 {
        lemma_run_is_outlined(outcomes.drop_last());
    }
}

/// Whatever results are reported, the run is in a state in which each step
/// that is due has its predecessors' successes behind it.
pub proof fn lemma_every_run_is_well_formed(outcomes: Seq<bool>)
    ensures
        LifecycleView::start().after_all(outcomes).well_formed(),
{
    lemma_run_is_outlined(outcomes);
}

/// Formatting is called for at one point only: when the allocation, and
/// nothing else, has been reported, and it succeeded.
pub proof fn lemma_format_follows_allocation(outcomes: Seq<bool>)
    ensures
        LifecycleView::start().after_all(outcomes).directive() == Directive::Run(Step::Format)
            <==> outcomes =~= seq![true],
{
    lemma_run_is_outlined(outcomes);
}

/// Mounting is called for at one point only: when the allocation and the
/// formatting, and nothing else, have been reported, and both succeeded.
pub proof fn lemma_mount_follows_format(outcomes: Seq<bool>)
    ensures
        LifecycleView::start().after_all(outcomes).directive() == Directive::Run(Step::Mount)
            <==> outcomes =~= seq![true, true],
{
    lemma_run_is_outlined(outcomes);
}

/// A transfer is called for exactly when the first three steps have
/// succeeded, and whatever becomes of the transfer, the unmount is called
/// for next: an unmount is due exactly when the mount succeeded and the
/// transfer has been reported, as a success or as a failure.
pub proof fn lemma_unmount_follows_transfer(outcomes: Seq<bool>)
    ensures
        LifecycleView::start().after_all(outcomes).directive() == Directive::Run(Step::Transfer)
            <==> outcomes =~= seq![true, true, true],
        LifecycleView::start().after_all(outcomes).directive() == Directive::Run(Step::Unmount)
            <==> (outcomes =~= seq![true, true, true, true]
            || outcomes =~= seq![true, true, true, false]),
{
    lemma_run_is_outlined(outcomes);
}

/// A run ends with an exit status exactly when one of the first three steps
/// has failed or all five have been reported. The status is a failure in the
/// first case and a success in the second, whatever became of the transfer
/// and the unmount. After a failure nothing is mounted; after a success the
/// image is still mounted only if the unmount failed.
pub proof fn lemma_exit_status(outcomes: Seq<bool>)
    ensures
        ({
            let end = LifecycleView::start().after_all(outcomes);
            let n = outcomes.len();
            let cut_short = (n >= 1 && !outcomes[0]) || (n >= 2 && !outcomes[1]) || (n >= 3
                && !outcomes[2]);
            &&& end.directive() == Directive::Exit(EXIT_FAILURE) <==> cut_short
            &&& end.directive() == Directive::Exit(EXIT_SUCCESS) <==> !cut_short && n >= 5
            &&& end.directive() is Exit && end.mounted ==> !cut_short && !outcomes[4]
        }),
{
    lemma_run_is_outlined(outcomes);
}

} // verus!
