//! Session lifecycle. A connection-oriented control channel runs beside the
//! datagram channel: a one-byte handshake on first contact, then the same
//! round trip every probe interval. The state here is the shared running
//! flag those probes drive; the capture side polls it on every frame and
//! stops the expensive capture session as soon as it goes false. Probe
//! failure is the only session-fatal condition, and reconnection is the only
//! recovery.

use vstd::prelude::*;

verus! {

/// How long the control channel waits between liveness probes, in
/// milliseconds.
pub const PROBE_INTERVAL_MILLIS: u64 = 250;

/// What the control channel just observed.
#[derive(Clone, Copy, Debug, PartialEq, Eq, Structural)]
pub enum ControlEvent {
    /// A peer completed the connect-time handshake.
    PeerConnected,
    /// A periodic probe made its round trip.
    ProbeOk,
    /// A probe failed to write or read: the peer is gone.
    ProbeFailed,
}

/// What the capture side must do in response.
#[derive(Clone, Copy, Debug, PartialEq, Eq, Structural)]
pub enum CaptureAction {
    /// Start a capture session for the newly connected peer.
    Start,
    /// Keep the current session as it is.
    Keep,
    /// Stop the capture session and await the next connection.
    Stop,
}

/// The shared session state: one flag saying whether a live peer is being
/// served.
#[derive(Clone, Copy, Debug, PartialEq, Eq, Structural)]
pub struct SessionState {
    pub running: bool,
}

impl SessionState {
    /// Sessions begin idle, before any peer has connected.
    pub fn new() -> (r: Self)
        ensures
            !r.running,
    {
        SessionState { running: false }
    }

    /// Advance the session on one control-channel observation. A failed
    /// probe — and nothing else — flips the running flag to false, so a peer
    /// that stops answering is detected within one probe interval; a fresh
    /// handshake is the only thing that starts capture again.
    pub fn on_control_event(&mut self, e: ControlEvent) -> (a: CaptureAction)
        ensures
            e == ControlEvent::PeerConnected ==> final(self).running && a == CaptureAction::Start,
            e == ControlEvent::ProbeOk ==> *final(self) == *old(self) && a == CaptureAction::Keep,
            e == ControlEvent::ProbeFailed ==> !final(self).running && a == CaptureAction::Stop,
    {
        match e {
            ControlEvent::PeerConnected => {
                self.running = true;
                CaptureAction::Start
            },
            ControlEvent::ProbeOk => CaptureAction::Keep,
            ControlEvent::ProbeFailed => {
                self.running = false;
                CaptureAction::Stop
            },
        }
    }

    /// The poll the capture callback makes on every frame: stop as soon as
    /// the session is no longer running.
    pub fn capture_should_stop(&self) -> (r: bool)
        ensures
            r == !self.running,
    {
        !self.running
    }
}

/// The producer-side frame generation counter: bumped once per captured
/// frame, wrapping around. Reserved on the wire for future stale-frame
/// detection; nothing consumes it yet.
pub fn next_region_id(id: u8) -> (r: u8)
    ensures
        r == (id + 1) % 256,
{
    id.wrapping_add(1)
}

} // verus!
