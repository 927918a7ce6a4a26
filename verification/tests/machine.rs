use datacore::AppError;
use datacore::Outcome;
use datacore::Resettable;
use datacore::State;
use datacore::StateMachine;

#[test]
fn test_new_machine_is_idle() {
    let m = StateMachine::new();
    assert_eq!(m.get_state(), State::Idle);
}

#[test]
fn test_start_from_idle() {
    let mut m = StateMachine::new();
    assert!(m.start().is_ok());
    assert_eq!(m.get_state(), State::Running);
}

#[test]
fn test_pause_before_start_fails() {
    let mut m = StateMachine::new();
    let outcome = m.pause();
    match outcome {
        Outcome::Failure(AppError::InvalidInput(msg)) => {
            assert_eq!(msg, "Cannot pause from current state");
        }
        _ => panic!("expected an InvalidInput failure"),
    }
    assert_eq!(m.get_state(), State::Idle);
}

#[test]
fn test_pause_from_running() {
    let mut m = StateMachine::new();
    m.start().unwrap();
    assert!(m.pause().is_ok());
    assert_eq!(m.get_state(), State::Paused);
}

#[test]
fn test_start_from_paused_fails() {
    let mut m = StateMachine::new();
    m.start().unwrap();
    m.pause().unwrap();
    let outcome = m.start();
    match outcome {
        Outcome::Failure(AppError::InvalidInput(msg)) => {
            assert_eq!(msg, "Cannot start from current state");
        }
        _ => panic!("expected an InvalidInput failure"),
    }
    assert_eq!(m.get_state(), State::Paused);
}

#[test]
fn test_start_from_running_fails() {
    let mut m = StateMachine::new();
    m.start().unwrap();
    assert!(m.start().is_err());
    assert_eq!(m.get_state(), State::Running);
}

#[test]
fn test_stop_from_any_state() {
    let mut idle = StateMachine::new();
    idle.stop();
    assert_eq!(idle.get_state(), State::Stopped);

    let mut running = StateMachine::new();
    running.start().unwrap();
    running.stop();
    assert_eq!(running.get_state(), State::Stopped);

    let mut paused = StateMachine::new();
    paused.start().unwrap();
    paused.pause().unwrap();
    paused.stop();
    assert_eq!(paused.get_state(), State::Stopped);

    let mut stopped = StateMachine::new();
    stopped.stop();
    stopped.stop();
    assert_eq!(stopped.get_state(), State::Stopped);
}

#[test]
fn test_start_again_after_stop() {
    let mut m = StateMachine::new();
    m.start().unwrap();
    m.stop();
    assert!(m.start().is_ok());
    assert_eq!(m.get_state(), State::Running);
}

#[test]
fn test_reset_from_stopped() {
    let mut m = StateMachine::new();
    m.start().unwrap();
    m.stop();
    m.reset();
    assert_eq!(m.get_state(), State::Idle);
}

#[test]
fn test_reset_twice_is_idempotent() {
    let mut m = StateMachine::new();
    m.start().unwrap();
    m.reset();
    assert_eq!(m.get_state(), State::Idle);
    m.reset();
    assert_eq!(m.get_state(), State::Idle);
}
