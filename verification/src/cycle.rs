//! The telemetry loop: startup phases, the per-cycle plan, and the cadence
//! and non-abort rules of steady state.
//!
//! Startup runs once: network join, then broker construction; a failure of
//! either is fatal and the node never enters the loop.  Steady state repeats
//! an unbounded sequence of cycles, each of which acquires what it can,
//! publishes one record, and sleeps a fixed time; no cycle failure ever
//! stops the loop.

use vstd::prelude::*;
use crate::clock::ClockReading;
use crate::clock::date_chars;
use crate::clock::time_chars;
use crate::sample::SampleModel;
use crate::sample::TelemetrySample;
use crate::text::has_nul;

verus! {

/// Fixed sleep at the end of every cycle.
pub const CYCLE_SLEEP_MS: u32 = 3000;

/// Quality-of-service level of every published record.
pub const PUBLISH_QOS: i32 = 1;

/// The fixed topic every telemetry record is published to.
pub fn telemetry_topic() -> (r: &'static str)
    ensures
        r@ == "v1/devices/me/telemetry"@,
        !has_nul(r@),
{
    proof {
        reveal_strlit("v1/devices/me/telemetry");
        assert forall|i: int| 0 <= i < "v1/devices/me/telemetry"@.len() implies
            "v1/devices/me/telemetry"@[i] != '\u{0}' by {}
    }
    "v1/devices/me/telemetry"
}

/// Startup and steady-state phases of the node.
#[derive(Clone, Copy, PartialEq, Eq, Structural, Debug)]
pub enum Phase {
    Init,
    Connecting,
    Running,
    Aborted,
}

/// What the unverified edge reports back during startup.
#[derive(Clone, Copy, PartialEq, Eq, Structural, Debug)]
pub enum StartupEvent {
    /// Startup work begins: the join attempt is issued.
    Begin,
    /// The network interface is associated, addressed and up.
    NetworkUp,
    /// The blocking join failed.
    NetworkFailed,
    /// The broker client was constructed and started.
    BrokerReady,
    /// Broker construction failed.
    BrokerFailed,
}

/// The startup transition table.  Aborted is terminal, and an event that a
/// phase does not expect leaves the phase unchanged.
pub open spec fn spec_startup_step(p: Phase, e: StartupEvent) -> Phase {
    match p {
        Phase::Init => match e {
            StartupEvent::Begin => Phase::Connecting,
            _ => Phase::Init,
        },
        Phase::Connecting => match e {
            StartupEvent::NetworkUp => Phase::Connecting,
            StartupEvent::NetworkFailed => Phase::Aborted,
            StartupEvent::BrokerReady => Phase::Running,
            StartupEvent::BrokerFailed => Phase::Aborted,
            StartupEvent::Begin => Phase::Connecting,
        },
        Phase::Running => Phase::Running,
        Phase::Aborted => Phase::Aborted,
    }
}

/// Advance the startup machine by one reported event.
pub fn startup_step(p: Phase, e: StartupEvent) -> (r: Phase)
    ensures
        r == spec_startup_step(p, e),
        p == Phase::Aborted ==> r == Phase::Aborted,
        r == Phase::Running <==> (p == Phase::Running || (p == Phase::Connecting
            && e == StartupEvent::BrokerReady)),
{
    match p {
        Phase::Init => match e {
            StartupEvent::Begin => Phase::Connecting,
            _ => Phase::Init,
        },
        Phase::Connecting => match e {
            StartupEvent::NetworkUp => Phase::Connecting,
            StartupEvent::NetworkFailed => Phase::Aborted,
            StartupEvent::BrokerReady => Phase::Running,
            StartupEvent::BrokerFailed => Phase::Aborted,
            StartupEvent::Begin => Phase::Connecting,
        },
        Phase::Running => Phase::Running,
        Phase::Aborted => Phase::Aborted,
    }
}

/// Sensor fields of one successful sensor read, rendered as the numeric
/// texts that enter the record.
#[derive(Debug)]
pub struct SensorFields {
    pub temperature: String,
    pub humidity: String,
}

/// The character contents of an optional sensor acquisition.
pub open spec fn sensor_views(sensor: Option<SensorFields>) -> Option<(Seq<char>, Seq<char>)> {
    match sensor {
        Some(f) => Some((f.temperature@, f.humidity@)),
        None => None,
    }
}

/// The sample a cycle assembles from whichever acquisitions succeeded.
pub open spec fn assembled_model(
    sensor: Option<(Seq<char>, Seq<char>)>,
    clock: Option<ClockReading>,
) -> SampleModel {
    SampleModel {
        temperature: match sensor {
            Some(p) => Some(p.0),
            None => None,
        },
        humidity: match sensor {
            Some(p) => Some(p.1),
            None => None,
        },
        date: match clock {
            Some(c) => Some(date_chars(c)),
            None => None,
        },
        time: match clock {
            Some(c) => Some(time_chars(c)),
            None => None,
        },
    }
}

/// What one cycle hands to the publish edge: the serialized record, the
/// delivery guarantee, and the sleep that follows the attempt.
#[derive(Debug)]
pub struct CyclePlan {
    pub payload: String,
    pub qos: i32,
    pub sleep_ms: u32,
}

/// Assemble and serialize one cycle's record.
///
/// A publish is planned whatever succeeded: with nothing acquired the
/// record is empty, and the cycle still publishes it and then sleeps the
/// fixed cadence.
pub fn plan_cycle(sensor: Option<SensorFields>, clock: Option<ClockReading>) -> (r: CyclePlan)
    requires
        clock is Some ==> clock.unwrap().wf(),
    ensures
        r.payload@ == assembled_model(sensor_views(sensor), clock).json_chars(),
        r.qos == PUBLISH_QOS,
        r.sleep_ms == CYCLE_SLEEP_MS,
{
    let mut s = TelemetrySample::new();
    match sensor {
        Some(f) => s.set_sensor(f.temperature, f.humidity),
        None => (),
    }
    match clock {
        Some(c) => s.set_clock(&c),
        None => (),
    }
    let payload = s.serialize();
    CyclePlan { payload, qos: PUBLISH_QOS, sleep_ms: CYCLE_SLEEP_MS }
}

/// What one finished cycle reported.
#[derive(Clone, Copy, PartialEq, Eq, Structural, Debug)]
pub struct CycleOutcome {
    pub sensor_ok: bool,
    pub clock_ok: bool,
    pub publish_ok: bool,
    pub slept_ms: u32,
}

impl CycleOutcome {
    /// Every cycle of the design ends with the fixed sleep, whatever else
    /// happened in it.
    pub open spec fn wf(self) -> bool {
        self.slept_ms == CYCLE_SLEEP_MS
    }
}

/// Advance the loop past a finished cycle: no cycle result ever aborts the
/// loop, so steady state stays in steady state.
pub fn cycle_step(p: Phase, outcome: &CycleOutcome) -> (r: Phase)
    requires
        p == Phase::Running,
    ensures
        r == Phase::Running,
{
    let _ = outcome;
    Phase::Running
}

/// Cumulative blocking sleep of a run of cycles.
pub open spec fn total_sleep(cycles: Seq<CycleOutcome>) -> int
    decreases cycles.len(),
{
    if cycles.len() == 0 {
        0
    } else {
        cycles[0].slept_ms + total_sleep(cycles.drop_first())
    }
}

/// Cadence law: across consecutive cycles with no per-step failures, the
/// cumulative blocking delay is at least the cycle count times the fixed
/// sleep; acquisition and publish time only add on top.
pub proof fn lemma_cadence(cycles: Seq<CycleOutcome>)
    requires
        forall|i: int| 0 <= i < cycles.len() ==> (#[trigger] cycles[i]).wf(),
        forall|i: int| 0 <= i < cycles.len() ==> (#[trigger] cycles[i]).sensor_ok
            && cycles[i].clock_ok && cycles[i].publish_ok,
    ensures
        total_sleep(cycles) >= cycles.len() * CYCLE_SLEEP_MS,
    decreases cycles.len(),
{
    if cycles.len() > 0 {
        assert(forall|i: int| 0 <= i < cycles.drop_first().len() ==> #[trigger] cycles.drop_first()[i]
            == cycles[i + 1]);
        lemma_cadence(cycles.drop_first());
    }
}

/// Convert milliseconds to scheduler ticks at a given tick rate, truncating
/// to the 32-bit tick count as the native scheduler interface does.
pub fn ms_to_ticks(ms: u32, tick_rate_hz: u32) -> (r: u32)
    ensures
        r == (ms as int * tick_rate_hz as int / 1000) % 0x1_0000_0000,
{
    proof {
        assert((ms as u64) * (tick_rate_hz as u64) <= 0xFFFF_FFFFu64 * 0xFFFF_FFFFu64)
            by (nonlinear_arith)
            requires
                ms as u64 <= 0xFFFF_FFFFu64,
                tick_rate_hz as u64 <= 0xFFFF_FFFFu64,
        ;
    }
    let wide: u64 = (ms as u64) * (tick_rate_hz as u64) / 1000;
    (wide % 0x1_0000_0000) as u32
}

} // verus!
