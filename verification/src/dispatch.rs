use vstd::prelude::*;

use crate::events::Event;

verus! {

// Raw message codes and key codes of the host windowing subsystem, as its
// headers define them.
pub const WM_CREATE: u32 = 0x0001;
pub const WM_QUIT: u32 = 0x0012;
pub const WM_SHOWWINDOW: u32 = 0x0018;
pub const WM_KEYDOWN: u32 = 0x0100;
pub const VK_ESCAPE: usize = 0x1B;

/// A native window message, reduced to the plain values the dispatch logic
/// reads. The owner reference and key code arrive as the message's two
/// parameters; `classify` performs the reduction from the raw triple.
#[derive(Clone, Copy, Debug, PartialEq, Eq, Structural)]
pub enum Message {
    /// The creation message: carries the owner reference that was passed as
    /// opaque creation data (0 stands for a null reference).
    Creation { owner: usize },
    /// A request to close the surface and quit.
    CloseRequest,
    /// A key was pressed; `key` is the host's virtual key code.
    KeyDown { key: usize },
    /// The surface's visibility changed.
    VisibilityChanged,
    /// Any other message kind, carried by its raw code.
    Other { code: u32 },
}

/// The state the dispatch entry point reads and writes across invocations:
/// the handle-to-owner association (`owner`, 0 while absent), whether the
/// surface handle has been destroyed, and whether a process-quit signal has
/// been posted. The association is the only shared mutable resource of this
/// core: written at creation, read by every later dispatch.
#[derive(Clone, Copy, Debug, PartialEq, Eq, Structural)]
pub struct PumpState {
    /// Reference to the owning application; 0 while no owner is associated.
    pub owner: usize,
    /// The surface's native handle has been destroyed.
    pub destroyed: bool,
    /// A process-quit signal has been posted to the pump.
    pub quit_posted: bool,
}

/// An event addressed to the owner that was associated when it was produced.
#[derive(Clone, Copy, Debug, PartialEq, Eq, Structural)]
pub struct Delivery {
    pub owner: usize,
    pub event: Event,
}

/// Everything one dispatch asks of its surroundings: the event to hand to the
/// owner (if any), whether to destroy the surface handle and post the
/// process-quit signal, whether to log a diagnostic, and — always — to forward
/// the message to the platform's default handler. This core never fully
/// consumes a message; it only observes and reacts.
#[derive(Clone, Copy, Debug, PartialEq, Eq)]
pub struct DispatchOutcome {
    pub event: Option<Delivery>,
    pub destroyed_surface: bool,
    pub posted_quit: bool,
    pub diagnostic: bool,
    pub forwarded: bool,
}

impl PumpState {
    /// The state before any message has been handled: no owner associated,
    /// surface alive, no quit posted.
    pub fn new() -> (s: PumpState)
        ensures
            s.owner == 0,
            !s.destroyed,
            !s.quit_posted,
    {
        PumpState { owner: 0, destroyed: false, quit_posted: false }
    }
}

/// The state after the surface has been destroyed and the quit signal posted:
/// the association is gone for good.
pub open spec fn quit_state() -> PumpState {
    PumpState { owner: 0, destroyed: true, quit_posted: true }
}

/// The delivery a quit produces: one `Quit` event to the associated owner.
pub open spec fn quit_delivery(to: usize) -> Option<Delivery> {
    Some(Delivery { owner: to, event: Event::Quit })
}

/// Whether this dispatch destroys the surface and posts the quit signal: a
/// close request, or an Escape key-down, while an owner is associated.
pub open spec fn step_destroys(s: PumpState, m: Message) -> bool {
    &&& !s.destroyed
    &&& s.owner != 0
    &&& (m is CloseRequest || (m matches Message::KeyDown { key } && key == VK_ESCAPE))
}

/// The state after one message. A message addressed to a destroyed handle
/// changes nothing; a creation message (re)writes the association; a quit
/// destroys the surface and clears the association.
pub open spec fn step_state(s: PumpState, m: Message) -> PumpState {
    if s.destroyed {
        s
    } else {
        match m {
            Message::Creation { owner } => PumpState {
                owner,
                destroyed: s.destroyed,
                quit_posted: s.quit_posted,
            },
            Message::CloseRequest => if s.owner != 0 {
                quit_state()
            } else {
                s
            },
            Message::KeyDown { key } => if s.owner != 0 && key == VK_ESCAPE {
                quit_state()
            } else {
                s
            },
            Message::VisibilityChanged => s,
            Message::Other { .. } => s,
        }
    }
}

/// The event one message produces: exactly one `Quit` to the associated owner
/// on a close request or an Escape key-down, and none otherwise. No message
/// handled without an association ever reaches an owner.
pub open spec fn step_event(s: PumpState, m: Message) -> Option<Delivery> {
    if s.destroyed {
        None
    } else {
        match m {
            Message::CloseRequest => if s.owner != 0 {
                quit_delivery(s.owner)
            } else {
                None
            },
            Message::KeyDown { key } => if s.owner != 0 && key == VK_ESCAPE {
                quit_delivery(s.owner)
            } else {
                None
            },
            _ => None,
        }
    }
}

/// Whether one message is logged as a diagnostic: every message that arrives
/// with the association absent (or the handle destroyed, or a null owner in
/// the creation data), and the visibility and unrecognized messages that are
/// observed but not acted on.
pub open spec fn step_diag(s: PumpState, m: Message) -> bool {
    if s.destroyed {
        true
    } else {
        match m {
            Message::Creation { owner } => owner == 0,
            Message::CloseRequest => s.owner == 0,
            Message::KeyDown { .. } => s.owner == 0,
            Message::VisibilityChanged => true,
            Message::Other { .. } => true,
        }
    }
}

/// The whole outcome of one dispatch. Every message, whatever the branch, is
/// forwarded to the platform's default handler.
pub open spec fn step_outcome(s: PumpState, m: Message) -> DispatchOutcome {
    DispatchOutcome {
        event: step_event(s, m),
        destroyed_surface: step_destroys(s, m),
        posted_quit: step_destroys(s, m),
        diagnostic: step_diag(s, m),
        forwarded: true,
    }
}

/// The dispatch entry point: the state machine invoked for every message that
/// targets the surface. Each invocation is self-contained: it reads the
/// association fresh, reacts, and asks that the message be forwarded to the
/// default handler.
pub fn wnd_process(state: &mut PumpState, msg: Message) -> (out: DispatchOutcome)
    ensures
        *final(state) == step_state(*old(state), msg),
        out == step_outcome(*old(state), msg),
{
    if state.destroyed {
        // The handle is gone: the association is treated as absent, the
        // message is only logged and forwarded.
        DispatchOutcome {
            event: None,
            destroyed_surface: false,
            posted_quit: false,
            diagnostic: true,
            forwarded: true,
        }
    } else {
        match msg {
            Message::Creation { owner } => {
                state.owner = owner;
                DispatchOutcome {
                    event: None,
                    destroyed_surface: false,
                    posted_quit: false,
                    diagnostic: owner == 0,
                    forwarded: true,
                }
            },
            Message::CloseRequest => {
                if state.owner != 0 {
                    let to = state.owner;
                    state.owner = 0;
                    state.destroyed = true;
                    state.quit_posted = true;
                    DispatchOutcome {
                        event: Some(Delivery { owner: to, event: Event::Quit }),
                        destroyed_surface: true,
                        posted_quit: true,
                        diagnostic: false,
                        forwarded: true,
                    }
                } else {
                    DispatchOutcome {
                        event: None,
                        destroyed_surface: false,
                        posted_quit: false,
                        diagnostic: true,
                        forwarded: true,
                    }
                }
            },
            Message::KeyDown { key } => {
                if state.owner != 0 && key == VK_ESCAPE {
                    let to = state.owner;
                    state.owner = 0;
                    state.destroyed = true;
                    state.quit_posted = true;
                    DispatchOutcome {
                        event: Some(Delivery { owner: to, event: Event::Quit }),
                        destroyed_surface: true,
                        posted_quit: true,
                        diagnostic: false,
                        forwarded: true,
                    }
                } else {
                    DispatchOutcome {
                        event: None,
                        destroyed_surface: false,
                        posted_quit: false,
                        diagnostic: state.owner == 0,
                        forwarded: true,
                    }
                }
            },
            Message::VisibilityChanged => {
                DispatchOutcome {
                    event: None,
                    destroyed_surface: false,
                    posted_quit: false,
                    diagnostic: true,
                    forwarded: true,
                }
            },
            Message::Other { .. } => {
                DispatchOutcome {
                    event: None,
                    destroyed_surface: false,
                    posted_quit: false,
                    diagnostic: true,
                    forwarded: true,
                }
            },
        }
    }
}

/// How a raw message triple is reduced to a `Message`: the creation message
/// carries the owner reference in its second parameter, a key-down carries
/// the virtual key code in its first.
pub open spec fn spec_classify(message: u32, param1: usize, param2: usize) -> Message {
    if message == WM_CREATE {
        Message::Creation { owner: param2 }
    } else if message == WM_QUIT {
        Message::CloseRequest
    } else if message == WM_KEYDOWN {
        Message::KeyDown { key: param1 }
    } else if message == WM_SHOWWINDOW {
        Message::VisibilityChanged
    } else {
        Message::Other { code: message }
    }
}

/// Reduce a raw message, as the host hands it to the callback, to the plain
/// message the state machine reads.
pub fn classify(message: u32, param1: usize, param2: usize) -> (m: Message)
    ensures
        m == spec_classify(message, param1, param2),
{
    if message == WM_CREATE {
        Message::Creation { owner: param2 }
    } else if message == WM_QUIT {
        Message::CloseRequest
    } else if message == WM_KEYDOWN {
        Message::KeyDown { key: param1 }
    } else if message == WM_SHOWWINDOW {
        Message::VisibilityChanged
    } else {
        Message::Other { code: message }
    }
}

/// Handle one raw message end to end: classify it, then run the dispatch
/// state machine. This mirrors the signature the host's callback receives.
pub fn handle_raw(state: &mut PumpState, message: u32, param1: usize, param2: usize) -> (out:
    DispatchOutcome)
    ensures
        *final(state) == step_state(*old(state), spec_classify(message, param1, param2)),
        out == step_outcome(*old(state), spec_classify(message, param1, param2)),
{
    let m = classify(message, param1, param2);
    wnd_process(state, m)
}

/// A key-down whose key is Escape, handled while
/// an owner is associated, produces exactly one `Quit` event, addressed to
/// that owner, destroys the surface and posts the quit signal.
pub proof fn lemma_escape_triggers_quit(s: PumpState)
    requires
        !s.destroyed,
        s.owner != 0,
    ensures
        step_event(s, Message::KeyDown { key: VK_ESCAPE }) == quit_delivery(s.owner),
        step_state(s, Message::KeyDown { key: VK_ESCAPE }) == quit_state(),
        step_destroys(s, Message::KeyDown { key: VK_ESCAPE }),
{
}

} // verus!
