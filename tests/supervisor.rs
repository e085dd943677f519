use xboxkbd::supervisor::{Supervisor, SupervisorAction};

#[test]
fn target_appearing_cancels_the_run() {
    let mut s = Supervisor::new();
    assert_eq!(s.observe(false), SupervisorAction::StartEngine);
    assert!(s.active);
    assert_eq!(s.observe(true), SupervisorAction::CancelEngine);
    assert!(!s.active);
    assert_eq!(s.observe(true), SupervisorAction::Nothing);
    assert!(!s.active);
    assert_eq!(s.observe(false), SupervisorAction::StartEngine);
    assert!(s.active);
}

#[test]
fn steady_states_do_nothing() {
    let mut s = Supervisor::new();
    assert!(!s.active);
    assert_eq!(s.observe(true), SupervisorAction::Nothing);
    assert_eq!(s.observe(false), SupervisorAction::StartEngine);
    assert_eq!(s.observe(false), SupervisorAction::Nothing);
    assert_eq!(s.observe(false), SupervisorAction::Nothing);
    assert!(s.active);
}

#[test]
fn at_most_one_run_is_armed() {
    let mut s = Supervisor::new();
    let mut live: i32 = 0;
    for seen in [false, false, true, true, false, true, false, false, true] {
        match s.observe(seen) {
            SupervisorAction::StartEngine => live += 1,
            SupervisorAction::CancelEngine => live -= 1,
            SupervisorAction::Nothing => {}
        }
        assert!(live == 0 || live == 1);
        assert_eq!(live == 1, s.active);
    }
}
