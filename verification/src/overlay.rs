//! The decision core of an overlay session: the protocol-negotiation state
//! machine, the handling of layer-surface events, the draining of control
//! signals and the frame pacing rule. The loop around it performs the
//! compositor, driver and GPU calls and feeds their events back in.

use vstd::prelude::*;
use vstd::string::StringExecFns;

verus! {

/// Signals sent from the control context to the overlay session.
#[derive(Clone, Copy, Debug, PartialEq, Eq, Structural)]
pub enum OverlaySignal {
    /// The configuration changed; re-read the shared snapshot.
    ConfigChanged,
    /// Shut the overlay session down.
    Shutdown,
}

/// The layer-surface events the overlay reacts to; every other protocol
/// object's events are ignored.
#[derive(Clone, Copy, Debug, PartialEq, Eq, Structural)]
pub enum LayerEvent {
    /// The compositor set the negotiated size; must be acknowledged by serial.
    Configure { serial: u32, width: u32, height: u32 },
    /// The compositor closed the surface; the session is over.
    Closed,
}

/// Errors of an overlay session, by the phase they arise in. Every one is
/// fatal to the session and never to the host process.
#[derive(Clone, Debug)]
pub enum OverlayError {
    /// The windowing system could not be reached.
    Transport(String),
    /// Negotiation or event dispatch with the compositor failed.
    Protocol(String),
    /// The rendering driver could not be loaded or set up.
    GraphicsInit(String),
    /// Binding the context or presenting a frame failed mid-loop.
    GraphicsRuntime(String),
    /// A shader failed to compile or link; holds the diagnostic text.
    Shader(String),
}

/// Protocol-negotiation state of the overlay surface:
/// `Created -> (commit, wait) -> Configured(w, h) | Closed`, and once
/// configured, further configure events resize while a close event ends it.
#[derive(Clone, Copy, Debug, PartialEq, Eq, Structural)]
pub struct OverlayState {
    /// A configure event has arrived.
    pub configured: bool,
    /// Last width the compositor set; zero until a non-zero size arrives.
    pub width: u32,
    /// Last height the compositor set; zero until a non-zero size arrives.
    pub height: u32,
    /// A close event has arrived; terminal.
    pub closed: bool,
}

/// The state after one layer-surface event, and the serial to acknowledge.
/// A configure with a zero dimension marks the state configured but leaves
/// the stored size alone, so a session configured only with zero sizes
/// cannot leave negotiation successfully.
pub open spec fn event_spec(s: OverlayState, ev: LayerEvent) -> (OverlayState, Option<u32>) {
    match ev {
        LayerEvent::Configure { serial, width, height } => {
            if width > 0 && height > 0 {
                (OverlayState { configured: true, width, height, ..s }, Some(serial))
            } else {
                (OverlayState { configured: true, ..s }, Some(serial))
            }
        },
        LayerEvent::Closed => (OverlayState { closed: true, ..s }, None),
    }
}

impl OverlayState {
    /// The state before any event: not configured, no size, not closed.
    pub fn new() -> (s: OverlayState)
        ensures
            s == (OverlayState { configured: false, width: 0, height: 0, closed: false }),
    {
        OverlayState { configured: false, width: 0, height: 0, closed: false }
    }

    /// Absorb one layer-surface event; returns the serial that must be
    /// acknowledged to the compositor, if the event carries one.
    pub fn event(&mut self, ev: LayerEvent) -> (ack: Option<u32>)
        ensures
            *final(self) == event_spec(*old(self), ev).0,
            ack == event_spec(*old(self), ev).1,
    {
        match ev {
            LayerEvent::Configure { serial, width, height } => {
                if width > 0 && height > 0 {
                    self.width = width;
                    self.height = height;
                }
                self.configured = true;
                Some(serial)
            },
            LayerEvent::Closed => {
                self.closed = true;
                None
            },
        }
    }

    /// Whether the blocking negotiation wait may stop: an answer arrived,
    /// either way.
    pub fn negotiation_done(&self) -> (r: bool)
        ensures
            r == (self.configured || self.closed),
    {
        self.configured || self.closed
    }

    /// The negotiated size, if negotiation succeeded. It fails exactly when
    /// the surface closed first or either dimension is still zero; graphics
    /// initialization must not proceed then.
    pub fn negotiated_size(&self) -> (r: Result<(u32, u32), OverlayError>)
        ensures
            r is Ok <==> (!self.closed && self.width > 0 && self.height > 0),
            r is Ok ==> r->Ok_0 == (self.width, self.height),
            r is Err ==> r->Err_0 is Protocol,
    {
        if self.closed || self.width == 0 || self.height == 0 {
            Err(OverlayError::Protocol(String::from_str("layer surface closed or zero size")))
        } else {
            Ok((self.width, self.height))
        }
    }

    /// Whether the negotiated size differs from the one the session last
    /// applied, so surface, renderer and simulation must resize.
    pub fn needs_resize(&self, cur_w: u32, cur_h: u32) -> (r: bool)
        ensures
            r == (self.width != cur_w || self.height != cur_h),
    {
        self.width != cur_w || self.height != cur_h
    }
}

/// What a drained signal backlog asks for, read front to back with `reload`
/// gathered so far: stop at the first `Shutdown`, remember whether any
/// `ConfigChanged` came before it.
pub open spec fn drain_from_spec(s: Seq<OverlaySignal>, i: nat, reload: bool) -> (bool, bool)
    decreases s.len() - i,
{
    if i >= s.len() {
        (false, reload)
    } else {
        match s[i as int] {
            OverlaySignal::Shutdown => (true, reload),
            OverlaySignal::ConfigChanged => drain_from_spec(s, i + 1, true),
        }
    }
}

/// What a whole signal backlog asks for: `.0` says the session must shut
/// down, `.1` says the configuration snapshot must be re-read first.
pub open spec fn drain_spec(s: Seq<OverlaySignal>) -> (bool, bool) {
    drain_from_spec(s, 0, false)
}

/// Work through a backlog of control signals in arrival order: any
/// `ConfigChanged` asks for a configuration reload, and the first `Shutdown`
/// ends the session, making the rest of the backlog moot.
pub fn drain_signals(signals: &Vec<OverlaySignal>) -> (r: (bool, bool))
    ensures
        r == drain_spec(signals@),
{
    let mut reload: bool = false;
    let mut i: usize = 0;
    while i < signals.len()
        invariant
            i <= signals@.len(),
            drain_spec(signals@) == drain_from_spec(signals@, i as nat, reload),
        decreases signals@.len() - i,
    {
        match signals[i] {
            OverlaySignal::Shutdown => {
                return (true, reload);
            },
            OverlaySignal::ConfigChanged => {
                reload = true;
            },
        }
        i = i + 1;
    }
    (false, reload)
}

/// How long to sleep after an iteration that took `elapsed_micros`
/// microseconds: the remainder of the 16667-microsecond (60 Hz) frame
/// budget, and nothing once the budget is spent — a slow frame is never
/// skipped or caught up, it simply makes the next delta larger.
pub fn frame_sleep_micros(elapsed_micros: u64) -> (r: u64)
    ensures
        r == if elapsed_micros < 16_667 {
            16_667 - elapsed_micros
        } else {
            0int
        },
{
    if elapsed_micros < 16_667 {
        16_667 - elapsed_micros
    } else {
        0
    }
}

impl OverlayError {
    /// The error's text, prefixed with its phase.
    pub fn describe(&self) -> (r: String)
        ensures
            self is Transport ==> r@ == "transport: "@ + self->Transport_0@,
            self is Protocol ==> r@ == "protocol: "@ + self->Protocol_0@,
            self is GraphicsInit ==> r@ == "graphics init: "@ + self->GraphicsInit_0@,
            self is GraphicsRuntime ==> r@ == "graphics runtime: "@ + self->GraphicsRuntime_0@,
            self is Shader ==> r@ == "shader: "@ + self->Shader_0@,
    {
        match self {
            OverlayError::Transport(m) => String::from_str("transport: ").concat(m.as_str()),
            OverlayError::Protocol(m) => String::from_str("protocol: ").concat(m.as_str()),
            OverlayError::GraphicsInit(m) => String::from_str("graphics init: ").concat(m.as_str()),
            OverlayError::GraphicsRuntime(m) => String::from_str("graphics runtime: ").concat(
                m.as_str(),
            ),
            OverlayError::Shader(m) => String::from_str("shader: ").concat(m.as_str()),
        }
    }
}

} // verus!
