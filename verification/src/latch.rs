//! The stop latch: a flag that is set when a termination signal arrives and
//! that the monitoring loop reads once per iteration, without ever blocking
//! on it.

use std::sync::atomic::AtomicBool;
use std::sync::atomic::Ordering;
use std::sync::Arc;
use vstd::prelude::*;

verus! {

/// A signal whose arrival asks the supervisor to stop the child.
#[derive(Clone, Copy, Debug, PartialEq, Eq, Structural)]
pub enum StopSignal {
    /// The interrupt signal, as sent from the keyboard.
    Interrupt,
    /// The termination signal.
    Terminate,
}

/// A flag that, once set, stays set. It is set by the handlers that
/// [`SignalLatch::arm`] installs, or directly through [`SignalLatch::set`].
pub struct SignalLatch {
    flag: Arc<AtomicBool>,
}

impl StopSignal {
    /// The number of the signal, which is the same on every system that
    /// has it: 2 for the interrupt and 15 for the termination signal.
    pub open spec fn number_spec(self) -> i32 {
        match self {
            StopSignal::Interrupt => 2,
            StopSignal::Terminate => 15,
        }
    }

    /// The number of the signal: 2 for the interrupt and 15 for the
    /// termination signal.
    pub fn number(self) -> (number: i32)
        ensures
            number == self.number_spec(),
    {
        match self {
            StopSignal::Interrupt => 2,
            StopSignal::Terminate => 15,
        }
    }
}

/// Calls `signal_hook::flag::register`, so that the flag is stored `true`
/// whenever the signal with this number arrives. Whether the handler could
/// be installed depends on the system. That function panics for the signals
/// that may not be handled; the interrupt and the termination signal, the
/// only ones admitted here, are not among them.
#[verifier::external_body]
fn register_flag(signal: i32, flag: &Arc<AtomicBool>) -> (registered: Result<(), std::io::Error>)
    requires
        signal == 2 || signal == 15,
{
    match signal_hook::flag::register(signal, Arc::clone(flag)) {
        Ok(_) => Ok(()),
        Err(error) => Err(error),
    }
}

/// The handler for `signal` could not be installed, for `cause`.
#[derive(Debug)]
pub struct ArmError {
    pub signal: StopSignal,
    pub cause: std::io::Error,
}

impl SignalLatch {
    /// A latch that is not set and not yet connected to any signal.
    pub fn new() -> (latch: SignalLatch) {
        SignalLatch { flag: Arc::new(AtomicBool::new(false)) }
    }

    /// Installs handlers that set the latch when the interrupt or the
    /// termination signal arrives. To miss no signal, call this before the
    /// child is launched. The interrupt signal is tried first, and the
    /// first failure is returned: an error for the termination signal
    /// means that the interrupt handler is installed.
    pub fn arm(&self) -> (armed: Result<(), ArmError>) {
        let interrupt = register_flag(StopSignal::Interrupt.number(), &self.flag);
        match StopSignal::Interrupt.installed(interrupt) {
            Ok(_) => StopSignal::Terminate.installed(
                register_flag(StopSignal::Terminate.number(), &self.flag),
            ),
            Err(error) => Err(error),
        }
    }

    /// Sets the latch, as the arrival of a signal would.
    pub fn set(&self) {
        self.flag.store(true, Ordering::Relaxed);
    }

    /// Whether a stop has been requested. Never blocks.
    pub fn is_set(&self) -> (stop_requested: bool) {
        self.flag.load(Ordering::Relaxed)
    }
}

impl StopSignal {
    /// What arming reports of this signal once the attempt to install its
    /// handler has come back: a success as it is, a failure together with
    /// the signal whose handler is missing.
    pub fn installed(self, registered: Result<(), std::io::Error>) -> (armed: Result<(), ArmError>)
        ensures
            match registered {
                Ok(_) => armed is Ok,
                Err(cause) => armed matches Err(error) && error.signal == self && error.cause
                    == cause,
            },
    {
        match registered {
            Ok(_) => Ok(()),
            Err(cause) => Err(ArmError { signal: self, cause }),
        }
    }
}

} // verus!
