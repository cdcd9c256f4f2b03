//! Failure taxonomy of the telemetry node.

use vstd::prelude::*;

verus! {

/// Every way a startup step or a cycle step can fail.
///
/// Startup failures (network join, broker construction) are fatal: the node
/// never enters the cycle loop.  Cycle failures (sensor read, clock read,
/// publish) are strictly non-fatal: the field is omitted or the attempt is
/// dropped, and the loop proceeds to its fixed sleep.
#[derive(Clone, Copy, PartialEq, Eq, Structural, Debug)]
pub enum TelemetryError {
    /// A configured string holds an embedded terminator byte.
    Encoding,
    /// The native broker client allocator returned no handle.
    Init,
    /// Starting the native broker client signalled the given non-success code.
    Start(i32),
    /// The network join failed.
    Connect,
    /// The broker rejected a message with the given negative identifier.
    Publish(i32),
    /// The sensor transaction failed.
    SensorRead,
    /// The clock bus transaction failed or timed out.
    ClockRead,
}

impl TelemetryError {
    /// A short fixed description, for the log at the unverified edge.
    pub fn describe(&self) -> (r: &'static str)
        ensures
            r@ =~= match *self {
                TelemetryError::Encoding => "string holds an embedded terminator"@,
                TelemetryError::Init => "broker client initialization failed"@,
                TelemetryError::Start(_) => "broker client start failed"@,
                TelemetryError::Connect => "network join failed"@,
                TelemetryError::Publish(_) => "broker rejected the message"@,
                TelemetryError::SensorRead => "sensor read failed"@,
                TelemetryError::ClockRead => "clock read failed"@,
            },
    {
        match self {
            TelemetryError::Encoding => "string holds an embedded terminator",
            TelemetryError::Init => "broker client initialization failed",
            TelemetryError::Start(_) => "broker client start failed",
            TelemetryError::Connect => "network join failed",
            TelemetryError::Publish(_) => "broker rejected the message",
            TelemetryError::SensorRead => "sensor read failed",
            TelemetryError::ClockRead => "clock read failed",
        }
    }
}

} // verus!
