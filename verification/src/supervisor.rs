//! The supervisor's policy: which event ends the service, and how.

use vstd::prelude::*;

verus! {

/// An event that ends the service.
#[derive(Debug, Clone, Copy, PartialEq, Eq, Structural)]
pub enum Terminal {
    /// The generator's reference material could not be set up. Nothing has
    /// been started yet.
    InitializationFailed,
    /// The producer's loop ended.
    ProducerStopped,
    /// The invalidator's loop ended.
    InvalidatorStopped,
    /// The listener could not bind or failed while serving.
    ListenerFailed,
    /// The process was interrupted from outside.
    Interrupted,
}

/// How the service ends.
#[derive(Debug, Clone, Copy, PartialEq, Eq, Structural)]
pub enum Shutdown {
    /// An orderly stop, asked for from outside.
    Clean,
    /// A stop that the service cannot recover from.
    Fatal,
}

/// Decides how the service ends. Only an interrupt is a clean stop: the
/// producer, the invalidator and the listener need one another, so the loss
/// of any of them, like a failed start, is fatal.
pub fn shutdown_for(event: Terminal) -> (shutdown: Shutdown)
    ensures
        shutdown is Clean <==> event is Interrupted,
        shutdown is Fatal <==> !(event is Interrupted),
{
    match event {
        Terminal::Interrupted => Shutdown::Clean,
        Terminal::InitializationFailed => Shutdown::Fatal,
        Terminal::ProducerStopped => Shutdown::Fatal,
        Terminal::InvalidatorStopped => Shutdown::Fatal,
        Terminal::ListenerFailed => Shutdown::Fatal,
    }
}

/// The exit code of the process: zero for a clean stop, one for a fatal one.
pub fn exit_code(shutdown: Shutdown) -> (code: u8)
    ensures
        code == (if shutdown is Clean { 0u8 } else { 1u8 }),
{
    match shutdown {
        Shutdown::Clean => 0,
        Shutdown::Fatal => 1,
    }
}

} // verus!
