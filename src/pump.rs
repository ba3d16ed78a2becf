use vstd::prelude::*;
use crate::client::{
    failure_body, failure_code, failure_status, spec_failure_body, BackendResponse, ExecError,
    RestClient,
};
use crate::model::FeasibilityRequest;

verus! {

/// How many requests a connection executes at once.
pub const CONCURRENCY_CAP: usize = 42;

/// Lifecycle of a broker connection.
#[derive(Clone, Copy, Debug, PartialEq, Eq, Structural)]
pub enum PumpPhase {
    Connecting,
    Connected,
    Draining,
    Closed,
}

/// The completed envelope for `request`, given the outcome of its backend
/// call: the backend's status and body for any response, the failure code
/// and an account of the failure when there was none.
pub open spec fn spec_result(request: FeasibilityRequest, outcome: Result<BackendResponse, ExecError>, r: FeasibilityRequest) -> bool {
    &&& r.same_request(&request)
    &&& r.wf()
    &&& match outcome {
        Ok(resp) => r.spec_completed(resp.status, resp.body@),
        Err(e) => r.spec_completed(failure_code(), spec_failure_body(&e)),
    }
}

/// Completes a request from the outcome of its backend call. A failed call
/// is turned into a completed envelope too, so that every parsed request is
/// answered.
pub fn complete_request(request: FeasibilityRequest, outcome: Result<BackendResponse, ExecError>) -> (r: FeasibilityRequest)
    ensures
        spec_result(request, outcome, r),
{
    let mut r = request;
    match RestClient::execute(&mut r, outcome) {
        Ok(()) => {},
        Err(e) => {
            r.complete(failure_status(), failure_body(&e));
        },
    }
    r
}

/// The abstract state of a pump: its phase, the number of requests being
/// executed and the most that may be.
pub struct PumpState {
    pub phase: PumpPhase,
    pub in_flight: nat,
    pub cap: nat,
}

impl PumpState {
    /// The count stays within the cap; nothing runs before the connection is
    /// up; a draining connection still has work to finish.
    pub open spec fn wf(self) -> bool {
        &&& 0 < self.cap
        &&& self.in_flight <= self.cap
        &&& self.phase == PumpPhase::Connecting ==> self.in_flight == 0
        &&& self.phase == PumpPhase::Draining ==> self.in_flight > 0
    }

    /// A new frame may start processing: the connection is up and a slot is free.
    pub open spec fn may_dispatch(self) -> bool {
        self.phase == PumpPhase::Connected && self.in_flight < self.cap
    }

    pub open spec fn after_handshake(self, ok: bool) -> PumpState {
        PumpState { phase: if ok { PumpPhase::Connected } else { PumpPhase::Closed }, ..self }
    }

    /// A frame that parsed takes a slot; one that did not leaves no trace.
    pub open spec fn after_frame(self, parsed: bool) -> PumpState {
        if parsed {
            PumpState { in_flight: self.in_flight + 1, ..self }
        } else {
            self
        }
    }

    /// A request finished: its slot is freed, and a draining connection
    /// whose last request this was is closed.
    pub open spec fn after_done(self) -> PumpState {
        PumpState {
            phase: if self.phase == PumpPhase::Draining && self.in_flight == 1 {
                PumpPhase::Closed
            } else {
                self.phase
            },
            in_flight: (self.in_flight - 1) as nat,
            ..self
        }
    }

    /// The broker closed the stream: drain what is in flight, or close at once.
    pub open spec fn after_close(self) -> PumpState {
        PumpState {
            phase: if self.in_flight == 0 { PumpPhase::Closed } else { PumpPhase::Draining },
            ..self
        }
    }

    /// The stream failed: the connection ends without draining.
    pub open spec fn after_failure(self) -> PumpState {
        PumpState { phase: PumpPhase::Closed, ..self }
    }
}

/// The decisions of one broker connection: when a frame may start
/// processing, what is sent back for it, and when the connection ends.
///
/// Frames start processing only while fewer than `cap` requests are in
/// flight; every parsed request is answered with a completed envelope; a
/// close from the broker lets in-flight work drain; a transport failure ends
/// the connection at once.
pub struct RelayPump {
    phase: PumpPhase,
    in_flight: usize,
    cap: usize,
}

impl View for RelayPump {
    type V = PumpState;

    closed spec fn view(&self) -> PumpState {
        PumpState { phase: self.phase, in_flight: self.in_flight as nat, cap: self.cap as nat }
    }
}

impl RelayPump {
    /// A pump for a connection being opened, admitting at most `cap`
    /// requests at once.
    pub fn new(cap: usize) -> (r: RelayPump)
        requires
            cap > 0,
        ensures
            r@ == (PumpState { phase: PumpPhase::Connecting, in_flight: 0, cap: cap as nat }),
            r@.wf(),
    {
        RelayPump { phase: PumpPhase::Connecting, in_flight: 0, cap }
    }

    pub fn phase(&self) -> (r: PumpPhase)
        ensures
            r == self@.phase,
    {
        self.phase
    }

    pub fn in_flight(&self) -> (r: usize)
        ensures
            r == self@.in_flight,
    {
        self.in_flight
    }

    pub fn cap(&self) -> (r: usize)
        ensures
            r == self@.cap,
    {
        self.cap
    }

    /// Whether the next frame may start processing now.
    pub fn may_dispatch(&self) -> (r: bool)
        ensures
            r == self@.may_dispatch(),
    {
        self.phase == PumpPhase::Connected && self.in_flight < self.cap
    }

    /// Records the outcome of the handshake.
    pub fn on_handshake(&mut self, ok: bool)
        requires
            old(self)@.wf(),
            old(self)@.phase == PumpPhase::Connecting,
        ensures
            final(self)@ == old(self)@.after_handshake(ok),
            final(self)@.wf(),
    {
        self.phase = if ok { PumpPhase::Connected } else { PumpPhase::Closed };
    }

    /// Admits a text frame, given what it parsed to. A request takes a slot
    /// and is handed back for execution; a frame that did not parse is
    /// dropped, and nothing is sent back for it.
    pub fn on_frame(&mut self, parsed: Option<FeasibilityRequest>) -> (r: Option<FeasibilityRequest>)
        requires
            old(self)@.wf(),
            old(self)@.may_dispatch(),
        ensures
            r == parsed,
            final(self)@ == old(self)@.after_frame(parsed is Some),
            final(self)@.wf(),
    {
        if parsed.is_some() {
            self.in_flight = self.in_flight + 1;
        }
        parsed
    }

    /// Frees the slot of a finished request and returns the envelope to send
    /// back for it.
    pub fn on_executed(&mut self, request: FeasibilityRequest, outcome: Result<BackendResponse, ExecError>) -> (r: FeasibilityRequest)
        requires
            old(self)@.wf(),
            old(self)@.in_flight > 0,
        ensures
            spec_result(request, outcome, r),
            final(self)@ == old(self)@.after_done(),
            final(self)@.wf(),
    {
        if self.phase == PumpPhase::Draining && self.in_flight == 1 {
            self.phase = PumpPhase::Closed;
        }
        self.in_flight = self.in_flight - 1;
        complete_request(request, outcome)
    }

    /// The broker sent a close frame.
    pub fn on_close(&mut self)
        requires
            old(self)@.wf(),
            old(self)@.phase == PumpPhase::Connected,
        ensures
            final(self)@ == old(self)@.after_close(),
            final(self)@.wf(),
    {
        self.phase = if self.in_flight == 0 { PumpPhase::Closed } else { PumpPhase::Draining };
    }

    /// Reading or writing the stream failed.
    pub fn on_transport_error(&mut self)
        requires
            old(self)@.wf(),
        ensures
            final(self)@ == old(self)@.after_failure(),
            final(self)@.wf(),
    {
        self.phase = PumpPhase::Closed;
    }
}

/// No transition lets more than `cap` requests be in flight: each keeps the
/// pump well formed, and with it the count within the cap.
pub proof fn lemma_transitions_keep_cap(s: PumpState, ok: bool, parsed: bool)
    requires
        s.wf(),
    ensures
        s.in_flight <= s.cap,
        s.phase == PumpPhase::Connecting ==> s.after_handshake(ok).wf(),
        s.may_dispatch() ==> s.after_frame(parsed).wf(),
        s.in_flight > 0 ==> s.after_done().wf(),
        s.phase == PumpPhase::Connected ==> s.after_close().wf(),
        s.after_failure().wf(),
{
}

/// With `cap` requests in flight no further frame starts; once one of them
/// finishes, the next frame may start.
pub proof fn lemma_full_pump_waits_for_a_slot(s: PumpState)
    requires
        s.wf(),
        s.phase == PumpPhase::Connected,
        s.in_flight == s.cap,
    ensures
        !s.may_dispatch(),
        s.after_done().may_dispatch(),
        s.after_done().in_flight == s.cap - 1,
{
}

/// A frame that does not parse changes nothing: it takes no slot and no
/// answer is owed for it, so the next frame is admitted as it would have
/// been, and a request in it takes a slot.
pub proof fn lemma_unparsed_frame_is_dropped(s: PumpState)
    requires
        s.wf(),
        s.may_dispatch(),
    ensures
        s.after_frame(false) == s,
        s.after_frame(false).may_dispatch(),
        s.after_frame(false).after_frame(true).in_flight == s.in_flight + 1,
{
}

/// A clean close drains: the connection stays open while requests are in
/// flight and closes when the last one finishes.
pub proof fn lemma_close_drains(s: PumpState)
    requires
        s.wf(),
        s.phase == PumpPhase::Connected,
    ensures
        s.in_flight == 0 ==> s.after_close().phase == PumpPhase::Closed,
        s.in_flight > 1 ==> s.after_close().after_done().phase == PumpPhase::Draining,
        s.in_flight == 1 ==> s.after_close().after_done().phase == PumpPhase::Closed,
{
}

} // verus!
