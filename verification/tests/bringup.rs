use touch_bringup::bringup::{
    advance, begin, BringUpAction, BringUpState, BringUpStep, StepOutcome, CPU_CLOCK_MHZ,
    I2C_CLOCK_KHZ, INTERRUPT_PRIORITY, PANEL_HEIGHT, PANEL_WIDTH, SETTLE_MS, SPI_CLOCK_MHZ,
};

fn all_steps() -> Vec<BringUpStep> {
    vec![
        BringUpStep::ConfigureClocks,
        BringUpStep::ClaimPins,
        BringUpStep::BuildSpi,
        BringUpStep::BuildI2c,
        BringUpStep::Settle,
        BringUpStep::InitDisplay,
        BringUpStep::FillPanel,
        BringUpStep::EnableBacklight,
        BringUpStep::Pause,
        BringUpStep::InitTouch,
        BringUpStep::InstallHandle,
        BringUpStep::UnmaskInterrupt,
    ]
}

/// Runs the bring-up until it idles or halts; `fails` names the operation
/// that fails, if any. Returns the operations started and the last action.
fn run(fails: Option<BringUpStep>) -> (Vec<BringUpStep>, BringUpState, BringUpAction) {
    let mut started = Vec::new();
    let (mut state, mut action) = begin();
    loop {
        let step = match action {
            BringUpAction::Perform(step) => step,
            _ => return (started, state, action),
        };
        assert_eq!(state, BringUpState::Running(step));
        started.push(step);
        let outcome = if fails == Some(step) {
            StepOutcome::Failed("e".to_string())
        } else {
            StepOutcome::Completed
        };
        let (following, then) = advance(state, outcome);
        state = following;
        action = then;
    }
}

#[test]
fn fixed_parameters() {
    assert_eq!(CPU_CLOCK_MHZ, 240);
    assert_eq!(SPI_CLOCK_MHZ, 60);
    assert_eq!(I2C_CLOCK_KHZ, 100);
    assert_eq!(SETTLE_MS, 500);
    assert_eq!(PANEL_WIDTH, 320);
    assert_eq!(PANEL_HEIGHT, 240);
    assert_eq!(INTERRUPT_PRIORITY, 1);
}

#[test]
fn only_the_two_waits_take_time() {
    for step in all_steps() {
        let expected = match step {
            BringUpStep::Settle | BringUpStep::Pause => Some(500),
            _ => None,
        };
        assert_eq!(step.wait_ms(), expected);
    }
}

#[test]
fn begins_with_the_clocks() {
    let (state, action) = begin();
    assert_eq!(state, BringUpState::Running(BringUpStep::ConfigureClocks));
    assert_eq!(action, BringUpAction::Perform(BringUpStep::ConfigureClocks));
}

#[test]
fn successors_follow_the_list() {
    let steps = all_steps();
    let mut i = 0;
    while i + 1 < steps.len() {
        assert_eq!(steps[i].successor(), Some(steps[i + 1]));
        i += 1;
    }
    assert_eq!(BringUpStep::UnmaskInterrupt.successor(), None);
}

#[test]
fn a_clean_run_performs_every_step_in_order_and_idles() {
    let (started, state, action) = run(None);
    assert_eq!(started, all_steps());
    assert_eq!(state, BringUpState::Idle);
    assert_eq!(action, BringUpAction::Idle);
}

#[test]
fn install_comes_right_before_unmask() {
    let (started, _, _) = run(None);
    let install = started.iter().position(|s| *s == BringUpStep::InstallHandle);
    let unmask = started.iter().position(|s| *s == BringUpStep::UnmaskInterrupt);
    assert_eq!(install, Some(10));
    assert_eq!(unmask, Some(11));
}

#[test]
fn panel_is_filled_before_the_backlight_comes_on() {
    let (started, _, _) = run(None);
    let settle = started.iter().position(|s| *s == BringUpStep::Settle).unwrap();
    let init = started.iter().position(|s| *s == BringUpStep::InitDisplay).unwrap();
    let fill = started.iter().position(|s| *s == BringUpStep::FillPanel).unwrap();
    let backlight = started.iter().position(|s| *s == BringUpStep::EnableBacklight).unwrap();
    let touch = started.iter().position(|s| *s == BringUpStep::InitTouch).unwrap();
    assert!(settle < init);
    assert!(init < fill);
    assert!(fill < backlight);
    assert!(backlight < touch);
}

#[test]
fn idle_stays_idle() {
    let (state, action) = advance(BringUpState::Idle, StepOutcome::Completed);
    assert_eq!(state, BringUpState::Idle);
    assert_eq!(action, BringUpAction::Idle);
    let (state, action) = advance(BringUpState::Idle, StepOutcome::Failed("late".to_string()));
    assert_eq!(state, BringUpState::Idle);
    assert_eq!(action, BringUpAction::Idle);
}

#[test]
fn display_failure_halts_with_one_line_before_touch_bring_up() {
    let (started, state, action) = run(Some(BringUpStep::InitDisplay));
    assert_eq!(state, BringUpState::Halted(BringUpStep::InitDisplay));
    assert_eq!(
        action,
        BringUpAction::Halt(vec!["Display initialization failed: e".to_string()])
    );
    assert!(!started.contains(&BringUpStep::InitTouch));
    assert!(!started.contains(&BringUpStep::FillPanel));
    assert_eq!(started.last(), Some(&BringUpStep::InitDisplay));
}

#[test]
fn a_halted_system_stays_halted_and_silent() {
    let halted = BringUpState::Halted(BringUpStep::InitDisplay);
    let (state, action) = advance(halted, StepOutcome::Completed);
    assert_eq!(state, halted);
    assert_eq!(action, BringUpAction::Halt(Vec::new()));
    let (state, action) = advance(halted, StepOutcome::Failed("again".to_string()));
    assert_eq!(state, halted);
    assert_eq!(action, BringUpAction::Halt(Vec::new()));
}

#[test]
fn touch_failure_halts_before_install() {
    let (started, state, action) = run(Some(BringUpStep::InitTouch));
    assert_eq!(state, BringUpState::Halted(BringUpStep::InitTouch));
    assert_eq!(
        action,
        BringUpAction::Halt(vec!["Failed to initialize touch controller: e".to_string()])
    );
    assert!(!started.contains(&BringUpStep::InstallHandle));
    assert!(!started.contains(&BringUpStep::UnmaskInterrupt));
}

#[test]
fn invalid_priority_halts() {
    let (_, state, action) = run(Some(BringUpStep::UnmaskInterrupt));
    assert_eq!(state, BringUpState::Halted(BringUpStep::UnmaskInterrupt));
    assert_eq!(
        action,
        BringUpAction::Halt(vec!["Invalid Interrupt Priority Error: e".to_string()])
    );
}

#[test]
fn every_failure_has_its_line() {
    let expected = vec![
        "Clock configuration failed: why",
        "Pin claim failed: why",
        "SPI transport construction failed: why",
        "I2C transport construction failed: why",
        "Settle delay failed: why",
        "Display initialization failed: why",
        "Panel fill failed: why",
        "Backlight enable failed: why",
        "Pause failed: why",
        "Failed to initialize touch controller: why",
        "Handle installation failed: why",
        "Invalid Interrupt Priority Error: why",
    ];
    let steps = all_steps();
    let mut i = 0;
    while i < steps.len() {
        assert_eq!(steps[i].failure("why"), expected[i]);
        let (state, action) =
            advance(BringUpState::Running(steps[i]), StepOutcome::Failed("why".to_string()));
        assert_eq!(state, BringUpState::Halted(steps[i]));
        assert_eq!(action, BringUpAction::Halt(vec![expected[i].to_string()]));
        i += 1;
    }
}
