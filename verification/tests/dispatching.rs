use dariush::dispatch::Delivery;
use dariush::dispatch::Message;
use dariush::dispatch::PumpState;
use dariush::dispatch::VK_ESCAPE;
use dariush::dispatch::WM_CREATE;
use dariush::dispatch::WM_KEYDOWN;
use dariush::dispatch::WM_QUIT;
use dariush::dispatch::WM_SHOWWINDOW;
use dariush::dispatch::classify;
use dariush::dispatch::handle_raw;
use dariush::dispatch::wnd_process;
use dariush::events::Event;
use dariush::pump::pump_messages;

fn associated(owner: usize) -> PumpState {
    let mut state = PumpState::new();
    let out = wnd_process(&mut state, Message::Creation { owner });
    assert_eq!(out.event, None);
    assert!(!out.diagnostic);
    state
}

#[test]
fn scenario_creation_then_escape() {
    // The pump receives the creation message for owner O, then an Escape
    // key-down: exactly one Quit event is delivered to O, and the handle is
    // destroyed before the delivery is handed out.
    let mut state = PumpState::new();
    let msgs = vec![
        Message::Creation { owner: 0x51 },
        Message::KeyDown { key: VK_ESCAPE },
    ];
    let events = pump_messages(&mut state, &msgs);
    assert_eq!(events, vec![Delivery { owner: 0x51, event: Event::Quit }]);
    assert!(state.destroyed);
    assert!(state.quit_posted);
    assert_eq!(state.owner, 0);
}

#[test]
fn scenario_keydown_without_owner() {
    // A key-down with no prior creation message: no event to any owner, one
    // diagnostic, and the message is forwarded to the default handler.
    let mut state = PumpState::new();
    let out = wnd_process(&mut state, Message::KeyDown { key: 0x41 });
    assert_eq!(out.event, None);
    assert!(out.diagnostic);
    assert!(out.forwarded);
    assert!(!out.destroyed_surface);
    assert_eq!(state, PumpState::new());

    let mut state = PumpState::new();
    let events = pump_messages(&mut state, &vec![Message::KeyDown { key: 0x41 }]);
    assert!(events.is_empty());
}

#[test]
fn no_event_before_association() {
    // No creation message anywhere in the batch: nothing reaches an owner.
    let mut state = PumpState::new();
    let msgs = vec![
        Message::CloseRequest,
        Message::KeyDown { key: VK_ESCAPE },
        Message::VisibilityChanged,
        Message::Other { code: 0x2A3 },
    ];
    let events = pump_messages(&mut state, &msgs);
    assert!(events.is_empty());
    assert_eq!(state.owner, 0);
    assert!(!state.destroyed);
}

#[test]
fn close_request_is_idempotent() {
    // After the first close request the handle is destroyed; every further
    // message falls into the association-absent path and delivers nothing.
    let mut state = PumpState::new();
    let msgs = vec![
        Message::Creation { owner: 5 },
        Message::CloseRequest,
        Message::CloseRequest,
        Message::KeyDown { key: VK_ESCAPE },
        Message::Other { code: 7 },
    ];
    let events = pump_messages(&mut state, &msgs);
    assert_eq!(events, vec![Delivery { owner: 5, event: Event::Quit }]);
    assert!(state.destroyed);
}

#[test]
fn at_most_one_event_per_lifetime() {
    // Even a batch that asks to quit again and again, with a stray creation
    // message in between, delivers exactly one event: the handle is dead
    // after the first quit.
    let mut state = PumpState::new();
    let msgs = vec![
        Message::Creation { owner: 5 },
        Message::KeyDown { key: VK_ESCAPE },
        Message::Creation { owner: 6 },
        Message::CloseRequest,
        Message::KeyDown { key: VK_ESCAPE },
    ];
    let events = pump_messages(&mut state, &msgs);
    assert_eq!(events, vec![Delivery { owner: 5, event: Event::Quit }]);
    assert!(state.destroyed);
    assert_eq!(state.owner, 0);
}

#[test]
fn escape_emits_exactly_one_quit() {
    let mut state = associated(9);
    let out = wnd_process(&mut state, Message::KeyDown { key: VK_ESCAPE });
    assert_eq!(out.event, Some(Delivery { owner: 9, event: Event::Quit }));
    assert!(out.destroyed_surface);
    assert!(out.posted_quit);
    assert!(out.forwarded);
    assert!(state.destroyed);

    // A later key-down on the destroyed handle emits nothing.
    let out = wnd_process(&mut state, Message::KeyDown { key: VK_ESCAPE });
    assert_eq!(out.event, None);
    assert!(out.diagnostic);
}

#[test]
fn other_keys_do_not_quit() {
    let mut state = associated(9);
    let out = wnd_process(&mut state, Message::KeyDown { key: 0x41 });
    assert_eq!(out.event, None);
    assert!(!out.destroyed_surface);
    assert!(!state.destroyed);
}

#[test]
fn close_request_notifies_owner() {
    let mut state = associated(12);
    let out = wnd_process(&mut state, Message::CloseRequest);
    assert_eq!(out.event, Some(Delivery { owner: 12, event: Event::Quit }));
    assert!(out.destroyed_surface);
    assert!(out.posted_quit);
    assert!(state.destroyed);
    assert!(state.quit_posted);
}

#[test]
fn visibility_change_logs_only() {
    let mut state = associated(9);
    let before = state;
    let out = wnd_process(&mut state, Message::VisibilityChanged);
    assert_eq!(out.event, None);
    assert!(out.diagnostic);
    assert!(out.forwarded);
    assert_eq!(state, before);
}

#[test]
fn creation_with_null_owner_logs() {
    let mut state = PumpState::new();
    let out = wnd_process(&mut state, Message::Creation { owner: 0 });
    assert_eq!(out.event, None);
    assert!(out.diagnostic);
    // The association is still absent: a close request delivers nothing.
    let out = wnd_process(&mut state, Message::CloseRequest);
    assert_eq!(out.event, None);
    assert!(out.diagnostic);
}

#[test]
fn every_message_is_forwarded() {
    let msgs = [
        Message::Creation { owner: 3 },
        Message::CloseRequest,
        Message::KeyDown { key: VK_ESCAPE },
        Message::KeyDown { key: 0x41 },
        Message::VisibilityChanged,
        Message::Other { code: 0x2A3 },
    ];
    for msg in msgs {
        let mut fresh = PumpState::new();
        assert!(wnd_process(&mut fresh, msg).forwarded);
        let mut owned = associated(3);
        assert!(wnd_process(&mut owned, msg).forwarded);
    }
}

#[test]
fn classify_reduces_raw_codes() {
    assert_eq!(classify(WM_CREATE, 0, 77), Message::Creation { owner: 77 });
    assert_eq!(classify(WM_QUIT, 0, 0), Message::CloseRequest);
    assert_eq!(classify(WM_KEYDOWN, 0x1B, 0), Message::KeyDown { key: 0x1B });
    assert_eq!(classify(WM_SHOWWINDOW, 1, 0), Message::VisibilityChanged);
    assert_eq!(classify(0x2A3, 0, 0), Message::Other { code: 0x2A3 });
}

#[test]
fn raw_messages_round_trip() {
    // The raw triple form of the creation-then-escape scenario.
    let mut state = PumpState::new();
    let out = handle_raw(&mut state, WM_CREATE, 0, 9);
    assert_eq!(out.event, None);
    assert_eq!(state.owner, 9);

    let out = handle_raw(&mut state, WM_SHOWWINDOW, 1, 0);
    assert_eq!(out.event, None);
    assert!(out.diagnostic);

    let out = handle_raw(&mut state, WM_KEYDOWN, 0x41, 0);
    assert_eq!(out.event, None);

    let out = handle_raw(&mut state, WM_KEYDOWN, 0x1B, 0);
    assert_eq!(out.event, Some(Delivery { owner: 9, event: Event::Quit }));
    assert!(out.destroyed_surface);
    assert!(state.destroyed);
}
