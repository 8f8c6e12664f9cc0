//! The foreground bring-up sequence.
//!
//! Bring-up is a fixed list of hardware operations, each started only when
//! the one before it has completed. `begin` names the first operation and
//! `advance` the one that follows an outcome; the caller performs it and
//! reports how it went. A failure of any operation is fatal: one diagnostic
//! line, then nothing more. When the list is done the foreground idles.

use vstd::prelude::*;
use vstd::string::*;
use crate::lines::text;

verus! {

/// Target frequency of the CPU clock, in MHz.
pub const CPU_CLOCK_MHZ: u32 = 240;

/// Clock rate of the SPI transport to the panel, in MHz.
pub const SPI_CLOCK_MHZ: u32 = 60;

/// Clock rate of the I2C transport to the touch controller, in kHz.
pub const I2C_CLOCK_KHZ: u32 = 100;

/// How long the panel settles after power-up before it is initialized, and
/// how long the foreground pauses before it probes the touch controller, in
/// milliseconds.
pub const SETTLE_MS: u32 = 500;

/// Width of the panel in pixels.
pub const PANEL_WIDTH: u16 = 320;

/// Height of the panel in pixels.
pub const PANEL_HEIGHT: u16 = 240;

/// Priority at which the touch interrupt is unmasked.
pub const INTERRUPT_PRIORITY: u8 = 1;

/// One hardware operation of the bring-up, in the order of the list.
#[derive(Clone, Copy, Debug, PartialEq, Eq, Structural)]
pub enum BringUpStep {
    ConfigureClocks,
    ClaimPins,
    BuildSpi,
    BuildI2c,
    Settle,
    InitDisplay,
    FillPanel,
    EnableBacklight,
    Pause,
    InitTouch,
    InstallHandle,
    UnmaskInterrupt,
}

/// Where the bring-up stands.
#[derive(Clone, Copy, Debug, PartialEq, Eq, Structural)]
pub enum BringUpState {
    /// The named operation has been started and its outcome is awaited.
    Running(BringUpStep),
    /// Every operation has completed; the foreground does no further work.
    Idle,
    /// The named operation failed; the system has stopped.
    Halted(BringUpStep),
}

/// How an operation went.
#[derive(Debug, PartialEq, Eq)]
pub enum StepOutcome {
    Completed,
    /// The operation failed; the text describes why.
    Failed(String),
}

/// What the foreground does next.
#[derive(Debug, PartialEq, Eq)]
pub enum BringUpAction {
    /// Start this operation.
    Perform(BringUpStep),
    /// Loop forever without further work.
    Idle,
    /// Print these lines, possibly none, and stop.
    Halt(Vec<String>),
}

/// An outcome with its text as a sequence of characters.
pub enum StepOutcomeView {
    Completed,
    Failed(Seq<char>),
}

/// An action with its lines as sequences of characters.
pub enum BringUpActionView {
    Perform(BringUpStep),
    Idle,
    Halt(Seq<Seq<char>>),
}

impl View for StepOutcome {
    type V = StepOutcomeView;

    open spec fn view(&self) -> StepOutcomeView {
        match *self {
            StepOutcome::Completed => StepOutcomeView::Completed,
            StepOutcome::Failed(diagnostic) => StepOutcomeView::Failed(diagnostic@),
        }
    }
}

impl View for BringUpAction {
    type V = BringUpActionView;

    open spec fn view(&self) -> BringUpActionView {
        match *self {
            BringUpAction::Perform(step) => BringUpActionView::Perform(step),
            BringUpAction::Idle => BringUpActionView::Idle,
            BringUpAction::Halt(lines) => BringUpActionView::Halt(text(lines@)),
        }
    }
}

impl BringUpStep {
    /// The place of the operation in the list, counted from zero.
    pub open spec fn position(self) -> nat {
        match self {
            BringUpStep::ConfigureClocks => 0,
            BringUpStep::ClaimPins => 1,
            BringUpStep::BuildSpi => 2,
            BringUpStep::BuildI2c => 3,
            BringUpStep::Settle => 4,
            BringUpStep::InitDisplay => 5,
            BringUpStep::FillPanel => 6,
            BringUpStep::EnableBacklight => 7,
            BringUpStep::Pause => 8,
            BringUpStep::InitTouch => 9,
            BringUpStep::InstallHandle => 10,
            BringUpStep::UnmaskInterrupt => 11,
        }
    }

    /// The operation that follows this one, or `None` after the last.
    pub open spec fn spec_successor(self) -> Option<BringUpStep> {
        match self {
            BringUpStep::ConfigureClocks => Some(BringUpStep::ClaimPins),
            BringUpStep::ClaimPins => Some(BringUpStep::BuildSpi),
            BringUpStep::BuildSpi => Some(BringUpStep::BuildI2c),
            BringUpStep::BuildI2c => Some(BringUpStep::Settle),
            BringUpStep::Settle => Some(BringUpStep::InitDisplay),
            BringUpStep::InitDisplay => Some(BringUpStep::FillPanel),
            BringUpStep::FillPanel => Some(BringUpStep::EnableBacklight),
            BringUpStep::EnableBacklight => Some(BringUpStep::Pause),
            BringUpStep::Pause => Some(BringUpStep::InitTouch),
            BringUpStep::InitTouch => Some(BringUpStep::InstallHandle),
            BringUpStep::InstallHandle => Some(BringUpStep::UnmaskInterrupt),
            BringUpStep::UnmaskInterrupt => None,
        }
    }

    /// What went wrong when this operation fails, as the start of its
    /// diagnostic line.
    pub open spec fn failure_label(self) -> Seq<char> {
        match self {
            BringUpStep::ConfigureClocks => "Clock configuration failed"@,
            BringUpStep::ClaimPins => "Pin claim failed"@,
            BringUpStep::BuildSpi => "SPI transport construction failed"@,
            BringUpStep::BuildI2c => "I2C transport construction failed"@,
            BringUpStep::Settle => "Settle delay failed"@,
            BringUpStep::InitDisplay => "Display initialization failed"@,
            BringUpStep::FillPanel => "Panel fill failed"@,
            BringUpStep::EnableBacklight => "Backlight enable failed"@,
            BringUpStep::Pause => "Pause failed"@,
            BringUpStep::InitTouch => "Failed to initialize touch controller"@,
            BringUpStep::InstallHandle => "Handle installation failed"@,
            BringUpStep::UnmaskInterrupt => "Invalid Interrupt Priority Error"@,
        }
    }

    /// The diagnostic line of a failure of this operation:
    /// `"{label}: {diagnostic}"`.
    pub open spec fn failure_line(self, diagnostic: Seq<char>) -> Seq<char> {
        self.failure_label() + ": "@ + diagnostic
    }

    #[verifier::when_used_as_spec(spec_successor)]
    pub fn successor(self) -> (following: Option<BringUpStep>)
        ensures
            following == self.spec_successor(),
            following matches Some(s) ==> s.position() == self.position() + 1,
            following is None <==> self == BringUpStep::UnmaskInterrupt,
    {
        match self {
            BringUpStep::ConfigureClocks => Some(BringUpStep::ClaimPins),
            BringUpStep::ClaimPins => Some(BringUpStep::BuildSpi),
            BringUpStep::BuildSpi => Some(BringUpStep::BuildI2c),
            BringUpStep::BuildI2c => Some(BringUpStep::Settle),
            BringUpStep::Settle => Some(BringUpStep::InitDisplay),
            BringUpStep::InitDisplay => Some(BringUpStep::FillPanel),
            BringUpStep::FillPanel => Some(BringUpStep::EnableBacklight),
            BringUpStep::EnableBacklight => Some(BringUpStep::Pause),
            BringUpStep::Pause => Some(BringUpStep::InitTouch),
            BringUpStep::InitTouch => Some(BringUpStep::InstallHandle),
            BringUpStep::InstallHandle => Some(BringUpStep::UnmaskInterrupt),
            BringUpStep::UnmaskInterrupt => None,
        }
    }

    /// How long the foreground waits in this operation, in milliseconds:
    /// the settle time for the two waits, nothing for any other operation.
    pub fn wait_ms(self) -> (ms: Option<u32>)
        ensures
            ms == if self == BringUpStep::Settle || self == BringUpStep::Pause {
                Some(SETTLE_MS)
            } else {
                None
            },
    {
        match self {
            BringUpStep::Settle => Some(SETTLE_MS),
            BringUpStep::Pause => Some(SETTLE_MS),
            _ => None,
        }
    }

    fn label(self) -> (s: &'static str)
        ensures
            s@ == self.failure_label(),
    {
        match self {
            BringUpStep::ConfigureClocks => "Clock configuration failed",
            BringUpStep::ClaimPins => "Pin claim failed",
            BringUpStep::BuildSpi => "SPI transport construction failed",
            BringUpStep::BuildI2c => "I2C transport construction failed",
            BringUpStep::Settle => "Settle delay failed",
            BringUpStep::InitDisplay => "Display initialization failed",
            BringUpStep::FillPanel => "Panel fill failed",
            BringUpStep::EnableBacklight => "Backlight enable failed",
            BringUpStep::Pause => "Pause failed",
            BringUpStep::InitTouch => "Failed to initialize touch controller",
            BringUpStep::InstallHandle => "Handle installation failed",
            BringUpStep::UnmaskInterrupt => "Invalid Interrupt Priority Error",
        }
    }

    /// Builds the diagnostic line of a failure of this operation.
    pub fn failure(self, diagnostic: &str) -> (s: String)
        ensures
            s@ == self.failure_line(diagnostic@),
    {
        let mut s = String::from_str(self.label());
        s.append(": ");
        s.append(diagnostic);
        s
    }
}

/// The bring-up rule: the state and the action that follow an outcome.
///
/// A completed operation starts the next one, and the last one leads to
/// idling. A failed operation halts with its diagnostic line. Once idle or
/// halted, nothing changes any more.
pub open spec fn next(state: BringUpState, outcome: StepOutcomeView) -> (
    BringUpState,
    BringUpActionView,
) {
    match state {
        BringUpState::Running(step) => match outcome {
            StepOutcomeView::Completed => match step.spec_successor() {
                Some(following) => (
                    BringUpState::Running(following),
                    BringUpActionView::Perform(following),
                ),
                None => (BringUpState::Idle, BringUpActionView::Idle),
            },
            StepOutcomeView::Failed(diagnostic) => (
                BringUpState::Halted(step),
                BringUpActionView::Halt(seq![step.failure_line(diagnostic)]),
            ),
        },
        BringUpState::Idle => (BringUpState::Idle, BringUpActionView::Idle),
        BringUpState::Halted(step) => (
            BringUpState::Halted(step),
            BringUpActionView::Halt(Seq::empty()),
        ),
    }
}

/// The state reached from power-on after the given outcomes.
pub open spec fn state_after(outcomes: Seq<StepOutcomeView>) -> BringUpState
    decreases outcomes.len(),
{
    if outcomes.len() == 0 {
        BringUpState::Running(BringUpStep::ConfigureClocks)
    } else {
        next(state_after(outcomes.drop_last()), outcomes.last()).0
    }
}

/// The action that answers the last of the given outcomes; with no outcome
/// yet, the first action.
pub open spec fn action_after(outcomes: Seq<StepOutcomeView>) -> BringUpActionView {
    if outcomes.len() == 0 {
        BringUpActionView::Perform(BringUpStep::ConfigureClocks)
    } else {
        next(state_after(outcomes.drop_last()), outcomes.last()).1
    }
}

/// Starts the bring-up: the first operation is the clock configuration.
pub fn begin() -> (result: (BringUpState, BringUpAction))
    ensures
        result.0 == state_after(Seq::empty()),
        result.1@ == action_after(Seq::empty()),
{
    (
        BringUpState::Running(BringUpStep::ConfigureClocks),
        BringUpAction::Perform(BringUpStep::ConfigureClocks),
    )
}

/// Decides what the foreground does after `outcome`.
pub fn advance(state: BringUpState, outcome: StepOutcome) -> (result: (
    BringUpState,
    BringUpAction,
))
    ensures
        (result.0, result.1@) == next(state, outcome@),
{
    match state {
        BringUpState::Running(step) => match outcome {
            StepOutcome::Completed => match step.successor() {
                Some(following) => (
                    BringUpState::Running(following),
                    BringUpAction::Perform(following),
                ),
                None => (BringUpState::Idle, BringUpAction::Idle),
            },
            StepOutcome::Failed(diagnostic) => {
                let mut lines: Vec<String> = Vec::new();
                lines.push(step.failure(diagnostic.as_str()));
                assert(text(lines@) =~= seq![step.failure_line(diagnostic@)]);
                (BringUpState::Halted(step), BringUpAction::Halt(lines))
            },
        },
        BringUpState::Idle => (BringUpState::Idle, BringUpAction::Idle),
        BringUpState::Halted(step) => {
            let lines: Vec<String> = Vec::new();
            assert(text(lines@) =~= Seq::<Seq<char>>::empty());
            (BringUpState::Halted(step), BringUpAction::Halt(lines))
        },
    }
}

/// An operation is awaited exactly when it is the action just given.
pub proof fn lemma_running_matches_action(outcomes: Seq<StepOutcomeView>, step: BringUpStep)
    ensures
        state_after(outcomes) == BringUpState::Running(step) <==> action_after(outcomes)
            == BringUpActionView::Perform(step),
{
}

/// An operation is reached only along the one path on which every
/// operation before it has completed: as many outcomes as its place in the
/// list, all of them `Completed`.
pub proof fn lemma_reached_in_order(outcomes: Seq<StepOutcomeView>, step: BringUpStep)
    requires
        state_after(outcomes) == BringUpState::Running(step),
    ensures
        outcomes.len() == step.position(),
        forall|i: int| 0 <= i < outcomes.len() ==> outcomes[i] == StepOutcomeView::Completed,
    decreases outcomes.len(),
{
    if outcomes.len() > 0 {
        let earlier = outcomes.drop_last();
        match state_after(earlier) {
            BringUpState::Running(previous) => {
                lemma_reached_in_order(earlier, previous);
                assert forall|i: int| 0 <= i < outcomes.len() implies outcomes[i]
                    == StepOutcomeView::Completed by {
                    if i < earlier.len() {
                        assert(outcomes[i] == earlier[i]);
                    }
                }
            },
            _ => {},
        }
    }
}

/// The interrupt is unmasked only in answer to the completed installation
/// of the handle, which itself was started only after every earlier
/// operation had completed.
pub proof fn lemma_install_precedes_unmask(outcomes: Seq<StepOutcomeView>)
    requires
        action_after(outcomes) == BringUpActionView::Perform(BringUpStep::UnmaskInterrupt),
    ensures
        outcomes.len() == 11,
        outcomes.last() == StepOutcomeView::Completed,
        action_after(outcomes.drop_last()) == BringUpActionView::Perform(
            BringUpStep::InstallHandle,
        ),
        forall|i: int| 0 <= i < outcomes.len() ==> outcomes[i] == StepOutcomeView::Completed,
{
    lemma_running_matches_action(outcomes, BringUpStep::UnmaskInterrupt);
    lemma_reached_in_order(outcomes, BringUpStep::UnmaskInterrupt);
    lemma_running_matches_action(outcomes.drop_last(), BringUpStep::InstallHandle);
}

/// After a failure nothing is started any more: whatever outcomes follow,
/// the state stays halted on the operation that failed and no line is
/// added.
pub proof fn lemma_halt_is_final(
    outcomes: Seq<StepOutcomeView>,
    later: Seq<StepOutcomeView>,
    failed: BringUpStep,
)
    requires
        state_after(outcomes) == BringUpState::Halted(failed),
        later.len() > 0,
    ensures
        state_after(outcomes + later) == BringUpState::Halted(failed),
        action_after(outcomes + later) == BringUpActionView::Halt(Seq::<Seq<char>>::empty()),
    decreases later.len(),
{
    let all = outcomes + later;
    assert(all.drop_last() =~= outcomes + later.drop_last());
    if later.len() > 1 {
        lemma_halt_is_final(outcomes, later.drop_last(), failed);
    } else {
        assert(outcomes + later.drop_last() =~= outcomes);
    }
}

/// A panel that cannot be initialized gives exactly one line,
/// `"Display initialization failed: {diagnostic}"`, and halts before the
/// touch controller is probed.
pub proof fn lemma_display_failure_halts(diagnostic: Seq<char>)
    ensures
        next(
            BringUpState::Running(BringUpStep::InitDisplay),
            StepOutcomeView::Failed(diagnostic),
        ) == (
            BringUpState::Halted(BringUpStep::InitDisplay),
            BringUpActionView::Halt(seq![crate::lines::display_failure_line(diagnostic)]),
        ),
        BringUpStep::InitDisplay.position() < BringUpStep::InitTouch.position(),
{
    assert(BringUpStep::InitDisplay.failure_line(diagnostic)
        =~= crate::lines::display_failure_line(diagnostic)) by {
        reveal_strlit("Display initialization failed");
        reveal_strlit(": ");
        reveal_strlit("Display initialization failed: ");
    }
}

} // verus!
