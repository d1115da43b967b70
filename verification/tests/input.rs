use composition::dispatch::{Action, Dispatch, MouseEvent, Phase, Reply};
use composition::geometry::{rect, PixelRect, Point, Size};
use composition::input::{HitTestMode, InputHandle, InputState, SubclassIds, FIRST_SUBCLASS_ID};
use composition::keys::{
    virtual_keys, VirtualKeys, CONTROL, LEFT_BUTTON, MIDDLE_BUTTON, NONE, RIGHT_BUTTON, SHIFT,
};
use composition::message::{
    Message, MouseEventKind, WM_DPICHANGED, WM_ENTERSIZEMOVE, WM_LBUTTONDOWN, WM_LBUTTONUP,
    WM_MBUTTONDOWN, WM_MBUTTONUP, WM_MOUSEHWHEEL, WM_MOUSELEAVE_MESSAGE, WM_MOUSEMOVE,
    WM_MOUSEWHEEL, WM_MOVE, WM_MOVING, WM_RBUTTONDOWN, WM_RBUTTONUP, WM_SETCURSOR, WM_SETFOCUS,
    WM_SIZE,
};
use dpi::{LogicalPosition, LogicalSize};

const CLIENT: PixelRect = PixelRect { left: 0, top: 0, right: 800, bottom: 600 };

fn view() -> InputState {
    let bounds = PixelRect { left: 15, top: 30, right: 165, bottom: 105 };
    InputState::new(bounds, HitTestMode::Normal, false)
}

fn at(msg: u32, x: i16, y: i16) -> Message {
    let packed = ((y as u16 as u32) << 16) | (x as u16 as u32);
    Message { msg, wparam: 0, lparam: packed as i32 as isize }
}

/// Handles `message` to the end, with the given answers.
fn handle(
    message: Message,
    state: &mut InputState,
    cursor: Option<isize>,
    client_point: Point,
) -> Vec<Action> {
    let mut dispatch = Dispatch::new(message);
    let mut reply = Reply::Done;
    let mut done = Vec::new();
    loop {
        assert!(dispatch.can_step(state, reply));
        let action = dispatch.step(state, reply);
        done.push(action);
        reply = match action {
            Action::QueryClientRect => Reply::ClientRect(CLIENT),
            Action::QueryCursor => Reply::Cursor(cursor),
            Action::ToClient(_) => Reply::ClientPoint(client_point),
            Action::PassOn | Action::Consume => break,
            _ => Reply::Done,
        };
    }
    assert_eq!(dispatch.phase, Phase::Finished);
    done
}

fn handle_plain(message: Message, state: &mut InputState) -> Vec<Action> {
    handle(message, state, None, Point { x: 0, y: 0 })
}

fn sent(kind: MouseEventKind, bits: i32, data: u32, x: i32, y: i32) -> Action {
    Action::SendMouse(MouseEvent {
        kind,
        keys: VirtualKeys { bits },
        data,
        point: Point { x, y },
    })
}

#[test]
fn converts_logical_rect_to_physical_rect() {
    let position: dpi::Position = LogicalPosition::new(10.0, 20.0).into();
    let size: dpi::Size = LogicalSize::new(100.0, 50.0).into();
    let position = position.to_physical::<i32>(1.5);
    let size = size.to_physical::<i32>(1.5);
    let rect = rect(
        Point { x: position.x, y: position.y },
        Size { width: size.width, height: size.height },
    );
    assert_eq!(rect.left, 15);
    assert_eq!(rect.top, 30);
    assert_eq!(rect.right, 165);
    assert_eq!(rect.bottom, 105);
}

#[test]
fn converts_mouse_flags() {
    let keys = virtual_keys(1 | 4 | 8);
    assert!(keys.contains(VirtualKeys { bits: LEFT_BUTTON }));
    assert!(keys.contains(VirtualKeys { bits: SHIFT }));
    assert!(keys.contains(VirtualKeys { bits: CONTROL }));
}

#[test]
fn overlay_rect_at_unit_scale() {
    let position: dpi::Position = LogicalPosition::new(24, 24).into();
    let size: dpi::Size = LogicalSize::new(320, 160).into();
    let position = position.to_physical::<i32>(1.0);
    let size = size.to_physical::<i32>(1.0);
    let r = rect(
        Point { x: position.x, y: position.y },
        Size { width: size.width, height: size.height },
    );
    assert_eq!(r, PixelRect { left: 24, top: 24, right: 344, bottom: 184 });
}

#[test]
fn rect_edges() {
    let r = rect(Point { x: -10, y: 5 }, Size { width: 20, height: 10 });
    assert_eq!(r, PixelRect { left: -10, top: 5, right: 10, bottom: 15 });
    assert!(r.contains(Point { x: -10, y: 5 }));
    assert!(r.contains(Point { x: 9, y: 14 }));
    assert!(!r.contains(Point { x: 10, y: 14 }));
    assert!(!r.contains(Point { x: 9, y: 15 }));
    assert!(!r.contains(Point { x: -11, y: 5 }));
    assert!(!r.contains(Point { x: -10, y: 4 }));
    assert_eq!(r.localize(Point { x: -10, y: 5 }), Point { x: 0, y: 0 });
    assert_eq!(r.localize(Point { x: 9, y: 14 }), Point { x: 19, y: 9 });
    assert!(!PixelRect::zero().contains(Point { x: 0, y: 0 }));
}

#[test]
fn each_flag_names_its_key() {
    assert_eq!(virtual_keys(0).bits, NONE);
    assert_eq!(virtual_keys(1).bits, LEFT_BUTTON);
    assert_eq!(virtual_keys(2).bits, RIGHT_BUTTON);
    assert_eq!(virtual_keys(4).bits, SHIFT);
    assert_eq!(virtual_keys(8).bits, CONTROL);
    assert_eq!(virtual_keys(16).bits, MIDDLE_BUTTON);
    assert_eq!(virtual_keys(32).bits, NONE);
    assert_eq!(virtual_keys(0xffff).bits, 31);
}

#[test]
fn flags_combine() {
    let both = virtual_keys(2 | 16);
    assert_eq!(both, virtual_keys(2).union(virtual_keys(16)));
    assert!(!both.contains(VirtualKeys { bits: LEFT_BUTTON }));
    assert!(both.contains(VirtualKeys { bits: NONE }));
}

#[test]
fn unpacks_negative_points() {
    assert_eq!(at(WM_MOUSEMOVE, -3, -7).point(), Point { x: -3, y: -7 });
    assert_eq!(at(WM_MOUSEMOVE, 32767, -32768).point(), Point { x: 32767, y: -32768 });
    let high = Message { msg: WM_MOUSEMOVE, wparam: 0, lparam: 0x0001_0002_0003 };
    assert_eq!(high.point(), Point { x: 3, y: 2 });
}

#[test]
fn unpacks_keys_and_wheel() {
    let turn = Message { msg: WM_MOUSEWHEEL, wparam: 0xff88_0009, lparam: 0 };
    assert_eq!(turn.keys().bits, LEFT_BUTTON | CONTROL);
    assert_eq!(turn.data(), (-120i32) as u32);
    let turn = Message { msg: WM_MOUSEHWHEEL, wparam: 0x0078_0000, lparam: 0 };
    assert_eq!(turn.data(), 120);
    let press = Message { msg: WM_LBUTTONDOWN, wparam: 0xff88_0001, lparam: 0 };
    assert_eq!(press.data(), 0);
    assert_eq!(press.keys().bits, LEFT_BUTTON);
}

#[test]
fn mouse_kinds() {
    let expected = [
        (WM_MOUSEMOVE, MouseEventKind::Move),
        (WM_LBUTTONDOWN, MouseEventKind::LeftButtonDown),
        (WM_LBUTTONUP, MouseEventKind::LeftButtonUp),
        (WM_RBUTTONDOWN, MouseEventKind::RightButtonDown),
        (WM_RBUTTONUP, MouseEventKind::RightButtonUp),
        (WM_MBUTTONDOWN, MouseEventKind::MiddleButtonDown),
        (WM_MBUTTONUP, MouseEventKind::MiddleButtonUp),
        (WM_MOUSEWHEEL, MouseEventKind::Wheel),
        (WM_MOUSEHWHEEL, MouseEventKind::HorizontalWheel),
        (WM_MOUSELEAVE_MESSAGE, MouseEventKind::Leave),
    ];
    for (msg, kind) in expected {
        assert_eq!(at(msg, 0, 0).mouse_kind(), Some(kind));
    }
    for msg in [WM_SIZE, WM_SETCURSOR, WM_SETFOCUS, 0x0203, 0x020b] {
        assert_eq!(at(msg, 0, 0).mouse_kind(), None);
    }
}

#[test]
fn move_inside_is_sent_and_tracked() {
    let mut state = view();
    let done = handle_plain(at(WM_MOUSEMOVE, 15, 30), &mut state);
    assert_eq!(
        done,
        vec![sent(MouseEventKind::Move, 0, 0, 0, 0), Action::TrackLeave, Action::PassOn]
    );
    assert!(state.hovered);
    let done = handle_plain(at(WM_MOUSEMOVE, 164, 104), &mut state);
    assert_eq!(done[0], sent(MouseEventKind::Move, 0, 0, 149, 74));
}

#[test]
fn button_press_takes_the_focus() {
    for (msg, kind) in [
        (WM_LBUTTONDOWN, MouseEventKind::LeftButtonDown),
        (WM_RBUTTONDOWN, MouseEventKind::RightButtonDown),
        (WM_MBUTTONDOWN, MouseEventKind::MiddleButtonDown),
    ] {
        let mut state = view();
        let done = handle_plain(at(msg, 20, 40), &mut state);
        assert_eq!(
            done,
            vec![
                sent(kind, 0, 0, 5, 10),
                Action::FocusWindow,
                Action::MoveFocus,
                Action::PassOn
            ]
        );
    }
    let mut state = view();
    let done = handle_plain(at(WM_LBUTTONUP, 20, 40), &mut state);
    assert_eq!(done, vec![sent(MouseEventKind::LeftButtonUp, 0, 0, 5, 10), Action::PassOn]);
}

#[test]
fn leaving_is_told_once() {
    let mut state = view();
    assert_eq!(handle_plain(at(WM_MOUSEMOVE, 14, 30), &mut state), vec![Action::PassOn]);
    handle_plain(at(WM_MOUSEMOVE, 15, 30), &mut state);
    assert!(state.hovered);
    let done = handle_plain(at(WM_MOUSEMOVE, 165, 30), &mut state);
    assert_eq!(done, vec![sent(MouseEventKind::Leave, 0, 0, 0, 0), Action::PassOn]);
    assert!(!state.hovered);
    assert_eq!(handle_plain(at(WM_MOUSEMOVE, 165, 30), &mut state), vec![Action::PassOn]);
}

#[test]
fn leave_message_keeps_the_hover() {
    let mut state = view();
    state.hovered = true;
    let message = Message { msg: WM_MOUSELEAVE_MESSAGE, wparam: 5, lparam: 0x7fff_7fff };
    let done = handle_plain(message, &mut state);
    assert_eq!(done, vec![sent(MouseEventKind::Leave, 5, 0, 0, 0), Action::PassOn]);
    assert!(state.hovered);
}

#[test]
fn wheel_is_placed_in_the_client_area() {
    let mut state = view();
    let mut message = at(WM_MOUSEWHEEL, 500, -20);
    message.wparam = 0xff88_0008;
    let done = handle(message, &mut state, None, Point { x: 25, y: 35 });
    assert_eq!(
        done,
        vec![
            Action::ToClient(Point { x: 500, y: -20 }),
            sent(MouseEventKind::Wheel, CONTROL, (-120i32) as u32, 10, 5),
            Action::PassOn
        ]
    );
    let done = handle(message, &mut state, None, Point { x: 0, y: 0 });
    assert_eq!(
        done,
        vec![
            Action::ToClient(Point { x: 500, y: -20 }),
            sent(MouseEventKind::Leave, 0, 0, 0, 0),
            Action::PassOn
        ]
    );
}

#[test]
fn cursor_is_shown_and_consumed() {
    let mut state = view();
    let done = handle(at(WM_SETCURSOR, 0, 0), &mut state, Some(77), Point { x: 0, y: 0 });
    assert_eq!(done, vec![Action::QueryCursor, Action::ShowCursor(77), Action::Consume]);
    let done = handle_plain(at(WM_SETCURSOR, 0, 0), &mut state);
    assert_eq!(done, vec![Action::QueryCursor, Action::PassOn]);
}

#[test]
fn focus_moves_into_the_view() {
    let done = handle_plain(at(WM_SETFOCUS, 0, 0), &mut view());
    assert_eq!(done, vec![Action::MoveFocus, Action::PassOn]);
}

#[test]
fn unreachable_view_gets_no_input() {
    let mut hidden = view();
    hidden.visible = false;
    let mut through = view();
    through.mode = HitTestMode::Passthrough;
    for mut state in [hidden, through] {
        for msg in [WM_MOUSEMOVE, WM_LBUTTONDOWN, WM_MOUSEWHEEL, WM_SETCURSOR, WM_SETFOCUS] {
            assert_eq!(handle_plain(at(msg, 20, 40), &mut state), vec![Action::PassOn]);
        }
        let done = handle_plain(at(WM_MOVE, 0, 0), &mut state);
        assert_eq!(done, vec![Action::NotifyParentMoved, Action::PassOn]);
    }
}

#[test]
fn view_follows_the_window() {
    for msg in [WM_SIZE, WM_DPICHANGED] {
        let mut state = view();
        assert_eq!(handle_plain(at(msg, 0, 0), &mut state), vec![Action::PassOn]);
        assert_eq!(state, view());
        state.auto_resize = true;
        let done = handle_plain(at(msg, 0, 0), &mut state);
        assert_eq!(
            done,
            vec![Action::QueryClientRect, Action::SetControllerBounds(CLIENT), Action::PassOn]
        );
        assert_eq!(state.bounds, CLIENT);
    }
    for msg in [WM_MOVE, WM_MOVING, WM_ENTERSIZEMOVE] {
        let done = handle_plain(at(msg, 0, 0), &mut view());
        assert_eq!(done, vec![Action::NotifyParentMoved, Action::PassOn]);
    }
    assert_eq!(handle_plain(at(0x0010, 0, 0), &mut view()), vec![Action::PassOn]);
}

#[test]
fn steps_see_changes_made_in_between() {
    let mut state = view();
    state.auto_resize = true;
    let mut dispatch = Dispatch::new(at(WM_LBUTTONDOWN, 20, 40));
    assert_eq!(
        dispatch.step(&mut state, Reply::Done),
        sent(MouseEventKind::LeftButtonDown, 0, 0, 5, 10)
    );
    state.visible = false;
    assert_eq!(dispatch.step(&mut state, Reply::Done), Action::FocusWindow);
    let mut nested = Dispatch::new(at(WM_SETFOCUS, 0, 0));
    assert_eq!(nested.step(&mut state, Reply::Done), Action::PassOn);
    assert_eq!(dispatch.step(&mut state, Reply::Done), Action::MoveFocus);
    assert_eq!(dispatch.step(&mut state, Reply::Done), Action::PassOn);
}

#[test]
fn unfit_replies_are_told() {
    let mut state = view();
    let dispatch = Dispatch::new(at(WM_MOUSEMOVE, 20, 40));
    assert!(dispatch.can_step(&state, Reply::Done));
    assert!(!dispatch.can_step(&state, Reply::Cursor(None)));
    state.bounds = PixelRect { left: i32::MIN, top: 0, right: i32::MAX, bottom: 100 };
    assert!(!dispatch.can_step(&state, Reply::Done));
    let finished = Dispatch { message: dispatch.message, phase: Phase::Finished };
    assert!(!finished.can_step(&state, Reply::Done));
}

#[test]
fn handles_get_numbers_of_their_own() {
    let mut ids = SubclassIds::new();
    let a = InputHandle::install(&mut ids, 7, CLIENT, HitTestMode::Normal, true);
    let b = InputHandle::install(&mut ids, 7, CLIENT, HitTestMode::Passthrough, false);
    assert_eq!(a.id, FIRST_SUBCLASS_ID);
    assert_eq!(a.id, 0x1000);
    assert_eq!(b.id, 0x1001);
    assert_eq!(a.parent, 7);
    assert_eq!(
        a.state,
        InputState {
            bounds: CLIENT,
            mode: HitTestMode::Normal,
            visible: true,
            hovered: false,
            auto_resize: true
        }
    );
    assert_eq!(b.state.mode, HitTestMode::Passthrough);
    assert_eq!(ids.allocate(), 0x1002);
}

#[test]
fn handle_settings() {
    let mut ids = SubclassIds::new();
    let mut handle =
        InputHandle::install(&mut ids, 1, PixelRect::zero(), HitTestMode::Normal, false);
    let before = handle;
    handle.set_bounds(CLIENT);
    handle.set_mode(HitTestMode::Passthrough);
    handle.set_visible(false);
    assert_eq!(handle.state.bounds, CLIENT);
    assert_eq!(handle.state.mode, HitTestMode::Passthrough);
    assert!(!handle.state.visible);
    assert_eq!((handle.parent, handle.id), (before.parent, before.id));
}
