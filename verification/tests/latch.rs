use monitor::latch::{SignalLatch, StopSignal};

#[test]
fn new_latch_is_not_set() {
    let latch = SignalLatch::new();
    assert!(!latch.is_set());
    assert!(!latch.is_set());
}

#[test]
fn set_latch_stays_set() {
    let latch = SignalLatch::new();
    latch.set();
    assert!(latch.is_set());
    latch.set();
    assert!(latch.is_set());
}

#[test]
fn latches_are_independent() {
    let first = SignalLatch::new();
    let second = SignalLatch::new();
    first.set();
    assert!(first.is_set());
    assert!(!second.is_set());
}

#[test]
fn armed_latch_is_set_by_the_termination_signal() {
    let latch = SignalLatch::new();
    assert!(latch.arm().is_ok());
    assert!(!latch.is_set());
    signal_hook::low_level::raise(signal_hook::consts::SIGTERM).unwrap();
    assert!(latch.is_set());
}

#[test]
fn armed_latch_is_set_by_the_interrupt_signal() {
    let latch = SignalLatch::new();
    assert!(latch.arm().is_ok());
    assert!(!latch.is_set());
    signal_hook::low_level::raise(signal_hook::consts::SIGINT).unwrap();
    assert!(latch.is_set());
}

#[test]
fn stop_signals_have_their_system_numbers() {
    assert_eq!(StopSignal::Interrupt.number(), 2);
    assert_eq!(StopSignal::Terminate.number(), 15);
    assert_eq!(StopSignal::Interrupt.number(), signal_hook::consts::SIGINT);
    assert_eq!(StopSignal::Terminate.number(), signal_hook::consts::SIGTERM);
}

#[test]
fn failed_installation_names_the_signal_and_keeps_the_cause() {
    assert!(StopSignal::Interrupt.installed(Ok(())).is_ok());
    assert!(StopSignal::Terminate.installed(Ok(())).is_ok());
    let denied = std::io::Error::from_raw_os_error(13);
    let error = StopSignal::Terminate.installed(Err(denied)).unwrap_err();
    assert_eq!(error.signal, StopSignal::Terminate);
    assert_eq!(error.cause.raw_os_error(), Some(13));
    let invalid = std::io::Error::from_raw_os_error(22);
    let error = StopSignal::Interrupt.installed(Err(invalid)).unwrap_err();
    assert_eq!(error.signal, StopSignal::Interrupt);
    assert_eq!(error.cause.raw_os_error(), Some(22));
}
