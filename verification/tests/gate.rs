use freebsd_nfs_exporter::gate::{CapabilityGate, OutOfOrder, Phase, Step};

#[test]
fn the_one_order() {
    let mut gate = CapabilityGate::new();
    assert_eq!(gate.phase, Phase::Privileged);
    assert!(!gate.may_query());
    assert!(!gate.may_serve());
    assert_eq!(gate.advance(Step::OpenChannel), Ok(Phase::Connected));
    assert!(gate.may_query());
    assert!(!gate.may_serve());
    assert_eq!(gate.advance(Step::EnterSandbox), Ok(Phase::Confined));
    assert!(gate.may_query());
    assert!(!gate.may_serve());
    assert_eq!(gate.advance(Step::AcceptInput), Ok(Phase::Serving));
    assert!(gate.may_query());
    assert!(gate.may_serve());
}

#[test]
fn sandbox_before_channel_is_refused() {
    let mut gate = CapabilityGate::new();
    assert_eq!(
        gate.advance(Step::EnterSandbox),
        Err(OutOfOrder { phase: Phase::Privileged, step: Step::EnterSandbox })
    );
    assert_eq!(gate.phase, Phase::Privileged);
}

#[test]
fn input_outside_the_sandbox_is_refused() {
    let mut gate = CapabilityGate::new();
    assert_eq!(
        gate.advance(Step::AcceptInput),
        Err(OutOfOrder { phase: Phase::Privileged, step: Step::AcceptInput })
    );
    assert_eq!(gate.advance(Step::OpenChannel), Ok(Phase::Connected));
    assert_eq!(
        gate.advance(Step::AcceptInput),
        Err(OutOfOrder { phase: Phase::Connected, step: Step::AcceptInput })
    );
    assert_eq!(gate.phase, Phase::Connected);
    assert!(!gate.may_serve());
}

#[test]
fn no_step_is_taken_twice() {
    let mut gate = CapabilityGate::new();
    assert_eq!(gate.advance(Step::OpenChannel), Ok(Phase::Connected));
    assert!(gate.advance(Step::OpenChannel).is_err());
    assert_eq!(gate.advance(Step::EnterSandbox), Ok(Phase::Confined));
    assert!(gate.advance(Step::OpenChannel).is_err());
    assert!(gate.advance(Step::EnterSandbox).is_err());
    assert_eq!(gate.phase, Phase::Confined);
}

#[test]
fn nothing_follows_serving() {
    let mut gate = CapabilityGate::new();
    gate.advance(Step::OpenChannel).unwrap();
    gate.advance(Step::EnterSandbox).unwrap();
    gate.advance(Step::AcceptInput).unwrap();
    for step in [Step::OpenChannel, Step::EnterSandbox, Step::AcceptInput] {
        assert_eq!(gate.advance(step), Err(OutOfOrder { phase: Phase::Serving, step }));
        assert_eq!(gate.phase, Phase::Serving);
    }
}
