use system_audio::capture::{release_order, step_at, SetupAction, TapSetup, TapStep};

#[test]
fn chain_is_acquired_in_order() {
    let (mut setup, first) = TapSetup::new();
    assert_eq!(first, SetupAction::Acquire(TapStep::ProcessTap));
    assert_eq!(setup.step_done(true), SetupAction::Acquire(TapStep::AggregateDevice));
    assert_eq!(setup.step_done(true), SetupAction::Acquire(TapStep::IoProc));
    assert_eq!(setup.step_done(true), SetupAction::Acquire(TapStep::DeviceStart));
    assert_eq!(setup.step_done(true), SetupAction::Ready);
}

#[test]
fn failure_releases_held_steps_in_reverse() {
    let (mut setup, _) = TapSetup::new();
    setup.step_done(true);
    setup.step_done(true);
    assert_eq!(
        setup.step_done(false),
        SetupAction::Release(vec![TapStep::AggregateDevice, TapStep::ProcessTap])
    );
}

#[test]
fn failure_of_first_step_releases_nothing() {
    let (mut setup, _) = TapSetup::new();
    assert_eq!(setup.step_done(false), SetupAction::Release(vec![]));
}

#[test]
fn teardown_order_reverses_the_chain() {
    assert_eq!(
        release_order(4),
        vec![TapStep::DeviceStart, TapStep::IoProc, TapStep::AggregateDevice, TapStep::ProcessTap]
    );
    assert_eq!(release_order(0), vec![]);
    assert_eq!(step_at(2), TapStep::IoProc);
}
