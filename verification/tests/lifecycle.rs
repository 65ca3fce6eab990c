use kernel::ComponentState::{Created, Draining, Failed, Running, Starting, Stopped};
use kernel::{ComponentState, LifecycleError};

#[test]
fn component_state_transition_matrix() {
    let legal = [
        (Created, Starting),
        (Starting, Running),
        (Starting, Failed),
        (Running, Draining),
        (Running, Failed),
        (Draining, Stopped),
        (Draining, Failed),
    ];
    let all = [Created, Starting, Running, Draining, Stopped, Failed];
    for (from, to) in legal {
        assert!(from.can_transition_to(to), "{from:?}->{to:?}");
        assert_eq!(from.try_transition(to).unwrap(), to);
    }
    for from in all {
        for to in all {
            let allowed = legal.contains(&(from, to));
            assert_eq!(from.can_transition_to(to), allowed, "矩阵不一致 {from:?}->{to:?}");
            assert_eq!(from.try_transition(to).is_ok(), allowed);
            if !allowed {
                let err = from.try_transition(to).unwrap_err();
                assert_eq!(err.from, from);
                assert_eq!(err.to, to);
            }
        }
    }
}

#[test]
fn final_states_and_no_self_transitions() {
    let all = [Created, Starting, Running, Draining, Stopped, Failed];
    for s in all {
        assert!(!s.can_transition_to(s));
        for to in all {
            if s == Stopped || s == Failed {
                assert!(!s.can_transition_to(to));
            }
        }
    }
    assert!(ComponentState::Created.can_transition_to(ComponentState::Starting));
    assert!(!ComponentState::Stopped.can_transition_to(ComponentState::Running));
}

#[test]
fn lifecycle_states_and_shutdown_timeout() {
    let chain = [
        (ComponentState::Created, ComponentState::Starting),
        (ComponentState::Starting, ComponentState::Running),
        (ComponentState::Running, ComponentState::Draining),
        (ComponentState::Draining, ComponentState::Stopped),
    ];
    for (from, to) in chain {
        assert!(from.can_transition_to(to));
        assert_eq!(from.try_transition(to).unwrap(), to);
    }
    assert!(ComponentState::Starting.can_transition_to(ComponentState::Failed));
    assert!(ComponentState::Running.can_transition_to(ComponentState::Failed));
    assert!(ComponentState::Draining.can_transition_to(ComponentState::Failed));
    assert!(!ComponentState::Stopped.can_transition_to(ComponentState::Created));
    assert!(!ComponentState::Failed.can_transition_to(ComponentState::Running));

    let err = ComponentState::Created.try_transition(ComponentState::Running).unwrap_err();
    let le: LifecycleError = err;
    assert_eq!(le.from, ComponentState::Created);
    assert_eq!(le.to, ComponentState::Running);
    assert!(le.to_message().contains("非法"));

    let (g, s) = kernel::ShutdownSignal::new();
    assert!(!s.is_triggered());
    assert_eq!(s.wait_timeout(std::time::Duration::MAX), Err(kernel::WaitTimeoutError::DeadlineOverflow));
    assert!(!s.wait_timeout(std::time::Duration::from_millis(1)).unwrap());
    let observer = s.clone();
    g.trigger();
    assert!(s.is_triggered());
    assert!(observer.is_triggered());
    assert!(s.wait_timeout(std::time::Duration::from_millis(50)).unwrap());
    s.wait();
}

#[test]
fn assert_compatibility() {
    assert!(kernel::ComponentState::Created.can_transition_to(kernel::ComponentState::Starting));
    assert!(!kernel::ComponentState::Stopped.can_transition_to(kernel::ComponentState::Running));
}

#[test]
fn modules_are_reachable_via_crate_paths() {
    let _ = kernel::time::SystemWallClock::new();
    let _ = kernel::error::XError::invalid("mod");
    let (g, s) = kernel::lifecycle::ShutdownSignal::new();
    g.trigger();
    assert!(s.is_triggered());
    let _ = kernel::time_storage::TimePrecision::Nanoseconds;
}
