//! Broker-client lifecycle: credential validation, classification of the
//! native construction and publish outcomes, and the state machine that
//! makes "publish only while started, teardown exactly once, never publish
//! after teardown" a proved rule rather than a convention.
//!
//! The native calls themselves (allocate, start, publish, stop, destroy)
//! happen at the unverified edge; this module owns every decision between
//! them.

use vstd::prelude::*;
use crate::errors::TelemetryError;
use crate::text::contains_nul;
use crate::text::has_nul;

verus! {

/// Success code of the native interface.
pub const NATIVE_OK: i32 = 0;

/// Fixed pause after a successful start, letting the session settle before
/// the first publish; it is a heuristic, tied to no acknowledgment event.
pub const SETTLE_DELAY_MS: u32 = 2000;

/// Lifecycle states of the exclusively-owned native connection handle.
#[derive(Clone, Copy, PartialEq, Eq, Structural, Debug)]
pub enum BrokerState {
    Uninitialized,
    Started,
    Stopped,
}

/// First construction step: every configured string must be representable
/// as native text, that is, hold no embedded terminator.
pub fn validate_credentials(uri: &str, username: &str, password: &str, client_id: &str) -> (r:
    Result<(), TelemetryError>)
    ensures
        r is Ok <==> (!has_nul(uri@) && !has_nul(username@) && !has_nul(password@) && !has_nul(
            client_id@,
        )),
        r is Err ==> r == Result::<(), TelemetryError>::Err(TelemetryError::Encoding),
{
    if contains_nul(uri) || contains_nul(username) || contains_nul(password) || contains_nul(
        client_id,
    ) {
        Err(TelemetryError::Encoding)
    } else {
        Ok(())
    }
}

/// Second construction step: the native allocator either produced a handle
/// or it did not.
pub fn init_outcome(handle_obtained: bool) -> (r: Result<(), TelemetryError>)
    ensures
        r is Ok <==> handle_obtained,
        r is Err ==> r == Result::<(), TelemetryError>::Err(TelemetryError::Init),
{
    if handle_obtained {
        Ok(())
    } else {
        Err(TelemetryError::Init)
    }
}

/// Third construction step: the native start call either signalled success
/// or some other code.
pub fn start_outcome(code: i32) -> (r: Result<(), TelemetryError>)
    ensures
        r is Ok <==> code == NATIVE_OK,
        code != NATIVE_OK ==> r == Result::<(), TelemetryError>::Err(TelemetryError::Start(code)),
{
    if code == NATIVE_OK {
        Ok(())
    } else {
        Err(TelemetryError::Start(code))
    }
}

/// Classify the identifier the native publish call returned: a negative
/// identifier means the message was rejected (queue full or not connected).
pub fn publish_outcome(msg_id: i32) -> (r: Result<i32, TelemetryError>)
    ensures
        r is Ok <==> msg_id >= 0,
        msg_id >= 0 ==> r == Result::<i32, TelemetryError>::Ok(msg_id),
        msg_id < 0 ==> r == Result::<i32, TelemetryError>::Err(TelemetryError::Publish(msg_id)),
{
    if msg_id >= 0 {
        Ok(msg_id)
    } else {
        Err(TelemetryError::Publish(msg_id))
    }
}

/// The lifecycle of the one broker client of a process run.  Publishing is
/// permitted only in the started state, and teardown moves the client to a
/// state it never leaves.
pub struct BrokerClient {
    state: BrokerState,
}

impl BrokerClient {
    /// Lifecycle state of the handle.
    pub closed spec fn state(self) -> BrokerState {
        self.state
    }

    /// A client whose native handle was allocated and started, after the
    /// settle delay has elapsed.
    pub fn started() -> (r: BrokerClient)
        ensures
            r.state() == BrokerState::Started,
    {
        BrokerClient { state: BrokerState::Started }
    }

    /// Whether the client is in the started state, the only state in which
    /// a publish may be issued.
    pub fn is_started(&self) -> (r: bool)
        ensures
            r == (self.state() == BrokerState::Started),
    {
        match self.state {
            BrokerState::Started => true,
            _ => false,
        }
    }

    /// Gate before a publish attempt: only a started client may publish, and
    /// the topic must be representable as native text.  The payload needs no
    /// such check: it travels with an explicit byte length.
    pub fn begin_publish(&self, topic: &str) -> (r: Result<(), TelemetryError>)
        requires
            self.state() == BrokerState::Started,
        ensures
            r is Ok <==> !has_nul(topic@),
            r is Err ==> r == Result::<(), TelemetryError>::Err(TelemetryError::Encoding),
    {
        if contains_nul(topic) {
            Err(TelemetryError::Encoding)
        } else {
            Ok(())
        }
    }

    /// Tear the client down: stop, then destroy, exactly once.  After this
    /// the client is stopped forever; no method brings it back and publish
    /// requires the started state.
    pub fn teardown(&mut self)
        requires
            old(self).state() == BrokerState::Started,
        ensures
            final(self).state() == BrokerState::Stopped,
    {
        self.state = BrokerState::Stopped;
    }
}

/// Observable lifecycle events of the broker client of one process run.
#[derive(Clone, Copy, PartialEq, Eq, Structural, Debug)]
pub enum BrokerEvent {
    Construct,
    Publish,
    Teardown,
}

/// One step of the lifecycle state machine: `None` means the state admits no
/// such event.
pub open spec fn broker_step(s: BrokerState, e: BrokerEvent) -> Option<BrokerState> {
    match e {
        BrokerEvent::Construct => if s == BrokerState::Uninitialized {
            Some(BrokerState::Started)
        } else {
            None
        },
        BrokerEvent::Publish => if s == BrokerState::Started {
            Some(BrokerState::Started)
        } else {
            None
        },
        BrokerEvent::Teardown => if s == BrokerState::Started {
            Some(BrokerState::Stopped)
        } else {
            None
        },
    }
}

/// Run the lifecycle machine over a sequence of events.
pub open spec fn run_events(s: BrokerState, t: Seq<BrokerEvent>) -> Option<BrokerState>
    decreases t.len(),
{
    if t.len() == 0 {
        Some(s)
    } else {
        match broker_step(s, t[0]) {
            Some(s2) => run_events(s2, t.drop_first()),
            None => None,
        }
    }
}

/// An event history the lifecycle machine admits, from process start.
pub open spec fn lifecycle_trace_ok(t: Seq<BrokerEvent>) -> bool {
    run_events(BrokerState::Uninitialized, t) is Some
}

/// State after the first `k` events of a history.
pub open spec fn state_before(t: Seq<BrokerEvent>, k: int) -> Option<BrokerState> {
    run_events(BrokerState::Uninitialized, t.take(k))
}

proof fn lemma_run_split(s: BrokerState, t: Seq<BrokerEvent>, k: int)
    requires
        0 <= k <= t.len(),
    ensures
        run_events(s, t) == (match run_events(s, t.take(k)) {
            Some(m) => run_events(m, t.skip(k)),
            None => None::<BrokerState>,
        }),
    decreases k,
{
    if k == 0 {
        assert(t.take(0) =~= Seq::<BrokerEvent>::empty());
        assert(t.skip(0) =~= t);
    } else {
        assert(t.take(k)[0] == t[0]);
        match broker_step(s, t[0]) {
            Some(s2) => {
                lemma_run_split(s2, t.drop_first(), k - 1);
                assert(t.take(k).drop_first() =~= t.drop_first().take(k - 1));
                assert(t.skip(k) =~= t.drop_first().skip(k - 1));
            },
            None => {
            },
        }
    }
}

/// In an admitted history every prefix is admitted, and the event at its end
/// is one its state admits.
proof fn lemma_step_at(t: Seq<BrokerEvent>, k: int)
    requires
        lifecycle_trace_ok(t),
        0 <= k < t.len(),
    ensures
        state_before(t, k) is Some,
        state_before(t, k + 1) is Some,
        broker_step(state_before(t, k).unwrap(), t[k]) == state_before(t, k + 1),
{
    lemma_run_split(BrokerState::Uninitialized, t, k);
    lemma_run_split(BrokerState::Uninitialized, t, k + 1);
    let p = t.take(k + 1);
    lemma_run_split(BrokerState::Uninitialized, p, k);
    assert(p.take(k) =~= t.take(k));
    let m = state_before(t, k);
    match m {
        Some(s) => {
            assert(p.skip(k) =~= seq![t[k]]);
            assert(seq![t[k]].len() == 1);
            assert(seq![t[k]][0] == t[k]);
            match broker_step(s, t[k]) {
                Some(s2) => {
                    assert(seq![t[k]].drop_first() =~= Seq::<BrokerEvent>::empty());
                    assert(run_events(s2, seq![t[k]].drop_first()) == Some(s2));
                    assert(run_events(s, seq![t[k]]) == Some(s2));
                    assert(run_events(s, p.skip(k)) == Some(s2));
                },
                None => {
                    assert(run_events(s, p.skip(k)) is None);
                    assert(run_events(BrokerState::Uninitialized, t) is None);
                },
            }
        },
        None => {
            assert(run_events(BrokerState::Uninitialized, t) is None);
        },
    }
}

/// Once the client has been constructed, the machine never sees the
/// uninitialized state again.
proof fn lemma_stays_initialized(t: Seq<BrokerEvent>, i: int, k: int)
    requires
        lifecycle_trace_ok(t),
        0 <= i < t.len(),
        t[i] == BrokerEvent::Construct,
        i < k <= t.len(),
    ensures
        state_before(t, k) is Some,
        state_before(t, k).unwrap() != BrokerState::Uninitialized,
    decreases k,
{
    if k == i + 1 {
        lemma_step_at(t, i);
    } else {
        lemma_stays_initialized(t, i, k - 1);
        lemma_step_at(t, k - 1);
    }
}

/// At most one broker client exists per process run: in any admitted
/// history, no construction event follows another.
pub proof fn lemma_single_construction(t: Seq<BrokerEvent>, i: int, j: int)
    requires
        lifecycle_trace_ok(t),
        0 <= i < j < t.len(),
        t[i] == BrokerEvent::Construct,
    ensures
        t[j] != BrokerEvent::Construct,
{
    lemma_stays_initialized(t, i, j);
    lemma_step_at(t, j);
}

/// After teardown no further publish is ever issued: in any admitted
/// history, every publish event precedes every teardown event.
pub proof fn lemma_no_publish_after_teardown(t: Seq<BrokerEvent>, j: int)
    requires
        lifecycle_trace_ok(t),
        0 <= j < t.len(),
        t[j] == BrokerEvent::Publish,
    ensures
        forall|i: int| 0 <= i < j ==> t[i] != BrokerEvent::Teardown,
{
    assert forall|i: int| 0 <= i < j implies t[i] != BrokerEvent::Teardown by {
        if t[i] == BrokerEvent::Teardown {
            lemma_step_at(t, i);
            assert(state_before(t, i + 1) == Some(BrokerState::Stopped));
            lemma_step_at(t, i + 1);
        }
    }
}

} // verus!
