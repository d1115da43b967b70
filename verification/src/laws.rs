//! What becomes of a window message, in the numbers that Windows gives out.
//!
//! The laws here speak of message numbers, parameters and edges alone. Each is
//! stated twice where that makes a difference: once for a message that nothing
//! interferes with, and once for one whose handling is interrupted by others.

use vstd::prelude::*;

use crate::dispatch::{Action, Dispatch, MouseEvent, Phase, Reply};
use crate::geometry::Point;
use crate::input::{HitTestMode, InputState};
use crate::message::{Message, MouseEventKind};
use crate::runs::{Answers, Turn};

verus! {

/// The number of the message that a kind of mouse event comes from.
pub open spec fn number(kind: MouseEventKind) -> int {
    match kind {
        MouseEventKind::Move => 0x0200,
        MouseEventKind::LeftButtonDown => 0x0201,
        MouseEventKind::LeftButtonUp => 0x0202,
        MouseEventKind::RightButtonDown => 0x0204,
        MouseEventKind::RightButtonUp => 0x0205,
        MouseEventKind::MiddleButtonDown => 0x0207,
        MouseEventKind::MiddleButtonUp => 0x0208,
        MouseEventKind::Wheel => 0x020a,
        MouseEventKind::HorizontalWheel => 0x020e,
        MouseEventKind::Leave => 0x02a3,
    }
}

/// Whether `lparam` is `p` packed into two words, with `high` in what lies above.
pub open spec fn packs(lparam: isize, p: Point, high: int) -> bool {
    &&& -0x8000 <= p.x < 0x8000
    &&& -0x8000 <= p.y < 0x8000
    &&& lparam == high * 0x1_0000_0000 + (p.y as int % 0x1_0000) * 0x1_0000 + p.x as int
        % 0x1_0000
}

/// Whether `event` says what `message` says, at the place `(x, y)` of the web view.
pub open spec fn says(event: MouseEvent, message: Message, x: int, y: int) -> bool {
    let high = (message.wparam as int / 0x1_0000) % 0x1_0000;
    &&& number(event.kind) == message.msg
    &&& event.keys.bits as int == message.wparam as int % 32
    &&& event.keys.bits & 1 == 1 <==> message.wparam & 1 != 0
    &&& event.keys.bits & 2 == 2 <==> message.wparam & 2 != 0
    &&& event.keys.bits & 4 == 4 <==> message.wparam & 4 != 0
    &&& event.keys.bits & 8 == 8 <==> message.wparam & 8 != 0
    &&& event.keys.bits & 16 == 16 <==> message.wparam & 16 != 0
    &&& event.data == if message.msg != 0x020a && message.msg != 0x020e {
        0
    } else if high < 0x8000 {
        high
    } else {
        high + 0xffff_0000
    }
    &&& event.point.x == x
    &&& event.point.y == y
}

/// Whether `event` says no more than that the mouse is gone.
pub open spec fn says_gone(event: MouseEvent) -> bool {
    &&& event.kind == MouseEventKind::Leave
    &&& event.keys.bits == 0
    &&& event.data == 0
    &&& event.point.x == 0
    &&& event.point.y == 0
}

/// The point is where the two words of the parameter say, each read as a signed
/// number, whatever lies above them.
pub proof fn law_points_unpack(message: Message, p: Point, high: int)
    ensures
        packs(message.lparam, message.packed_point(), message.lparam as int / 0x1_0000_0000),
        packs(message.lparam, p, high) ==> message.packed_point() == p,
{
    let n: int = message.lparam as int;
    let upper: int = n / 0x1_0000;
    lemma_signed_word(n, p.x as int);
    lemma_signed_word(upper, p.y as int);
    assert(upper / 0x1_0000 == n / 0x1_0000_0000);
    if packs(message.lparam, p, high) {
        let low: int = p.x as int % 0x1_0000;
        let mid: int = p.y as int % 0x1_0000;
        assert(n == (high * 0x1_0000 + mid) * 0x1_0000 + low);
        assert(upper == high * 0x1_0000 + mid);
    }
}

/// The signed reading of a number is the one number in the range of 16 bits that
/// has the same low word.
proof fn lemma_signed_word(n: int, s: int)
    ensures
        -0x8000 <= crate::message::signed_word(n) < 0x8000,
        crate::message::signed_word(n) % 0x1_0000 == n % 0x1_0000,
        -0x8000 <= s < 0x8000 && s % 0x1_0000 == n % 0x1_0000 ==> s
            == crate::message::signed_word(n),
{
}

/// The event that is made of a message says what the message says.
proof fn lemma_event_says(message: Message, kind: MouseEventKind, point: Point)
    requires
        message.kind() == Some(kind),
    ensures
        says(crate::dispatch::event_at(message, kind, point), message, point.x as int, point.y as int),
{
    let w: usize = message.wparam;
    let flags: u32 = (w as int % 0x1_0000) as u32;
    crate::keys::law_keys_mirror_flags(flags);
    assert(flags == w % 0x1_0000);
    lemma_low_bits(w, flags);
}

proof fn lemma_low_bits(w: usize, flags: u32)
    by (bit_vector)
    requires
        flags == w % 0x1_0000,
    ensures
        flags & 1 != 0 <==> w & 1 != 0,
        flags & 2 != 0 <==> w & 2 != 0,
        flags & 4 != 0 <==> w & 4 != 0,
        flags & 8 != 0 <==> w & 8 != 0,
        flags & 16 != 0 <==> w & 16 != 0,
{
}

/// A move or a button over a web view that is visible and takes input reaches it,
/// wherever it lies: the web view is sent what the message says, at the point
/// seen from its corner. A press then brings the focus, a move has the leaving
/// watched, and at the end the message is passed on.
pub proof fn law_mouse_inside_is_delivered(
    message: Message,
    state: InputState,
    answers: Answers,
    p: Point,
    high: int,
)
    requires
        state.visible,
        state.mode == HitTestMode::Normal,
        message.msg == 0x0200 || message.msg == 0x0201 || message.msg == 0x0202 || message.msg
            == 0x0204 || message.msg == 0x0205 || message.msg == 0x0207 || message.msg == 0x0208,
        packs(message.lparam, p, high),
        state.bounds.left <= p.x < state.bounds.right,
        state.bounds.top <= p.y < state.bounds.bottom,
        p.x - state.bounds.left <= 0x7fff_ffff,
        p.y - state.bounds.top <= 0x7fff_ffff,
    ensures
        ({
            let done = crate::runs::handling(message, state, answers);
            let after = crate::runs::state_after(message, state, answers);
            let x = p.x - state.bounds.left;
            let y = p.y - state.bounds.top;
            &&& done[0] is SendMouse
            &&& says(done[0]->SendMouse_0, message, x, y)
            &&& message.msg == 0x0201 || message.msg == 0x0204 || message.msg == 0x0207
                ==> done.len() == 4 && done[1] == Action::FocusWindow && done[2]
                == Action::MoveFocus
            &&& message.msg == 0x0200 ==> done.len() == 3 && done[1] == Action::TrackLeave
            &&& message.msg == 0x0202 || message.msg == 0x0205 || message.msg == 0x0208
                ==> done.len() == 2
            &&& done.last() == Action::PassOn
            &&& after == (InputState { hovered: true, ..state })
        }),
{
    law_points_unpack(message, p, high);
    reveal_with_fuel(crate::runs::run, 5);
    lemma_event_says(message, message.kind()->0, state.bounds.local(p));
}

/// A wheel over a web view that is visible and takes input reaches it: the point
/// of the screen is turned into one of the client area, which decides.
pub proof fn law_wheel_inside_is_delivered(
    message: Message,
    state: InputState,
    answers: Answers,
    screen: Point,
    high: int,
)
    requires
        state.visible,
        state.mode == HitTestMode::Normal,
        message.msg == 0x020a || message.msg == 0x020e,
        packs(message.lparam, screen, high),
        state.bounds.left <= answers.client_point.x < state.bounds.right,
        state.bounds.top <= answers.client_point.y < state.bounds.bottom,
        answers.client_point.x - state.bounds.left <= 0x7fff_ffff,
        answers.client_point.y - state.bounds.top <= 0x7fff_ffff,
    ensures
        ({
            let done = crate::runs::handling(message, state, answers);
            let after = crate::runs::state_after(message, state, answers);
            let x = answers.client_point.x - state.bounds.left;
            let y = answers.client_point.y - state.bounds.top;
            &&& done.len() == 3
            &&& done[0] == Action::ToClient(screen)
            &&& done[1] is SendMouse
            &&& says(done[1]->SendMouse_0, message, x, y)
            &&& done[2] == Action::PassOn
            &&& after == (InputState { hovered: true, ..state })
        }),
{
    law_points_unpack(message, screen, high);
    reveal_with_fuel(crate::runs::run, 5);
    lemma_event_says(message, message.kind()->0, state.bounds.local(answers.client_point));
}

/// A mouse that is seen outside the web view is none of its business, except that
/// it is told once that a mouse which was over it is gone.
pub proof fn law_mouse_outside_is_passed_on(
    message: Message,
    state: InputState,
    answers: Answers,
    p: Point,
    high: int,
)
    requires
        state.visible,
        state.mode == HitTestMode::Normal,
        message.msg == 0x0200 || message.msg == 0x0201 || message.msg == 0x0202 || message.msg
            == 0x0204 || message.msg == 0x0205 || message.msg == 0x0207 || message.msg == 0x0208
            || message.msg == 0x020a || message.msg == 0x020e,
        packs(message.lparam, p, high),
        ({
            let q = if message.msg == 0x020a || message.msg == 0x020e {
                answers.client_point
            } else {
                p
            };
            q.x < state.bounds.left || q.x >= state.bounds.right || q.y < state.bounds.top || q.y
                >= state.bounds.bottom
        }),
    ensures
        ({
            let done = crate::runs::handling(message, state, answers);
            let after = crate::runs::state_after(message, state, answers);
            let asked: int = if message.msg == 0x020a || message.msg == 0x020e {
                1
            } else {
                0
            };
            &&& asked == 1 ==> done[0] == Action::ToClient(p)
            &&& state.hovered ==> done.len() == asked + 2 && done[asked] is SendMouse
                && says_gone(done[asked]->SendMouse_0)
            &&& !state.hovered ==> done.len() == asked + 1
            &&& done.last() == Action::PassOn
            &&& after == (InputState { hovered: false, ..state })
        }),
{
    law_points_unpack(message, p, high);
    reveal_with_fuel(crate::runs::run, 5);
}

/// A message that the mouse has left the window is handed over, with the keys it
/// carries and no place, and changes nothing.
pub proof fn law_leave_message_is_handed_over(
    message: Message,
    state: InputState,
    answers: Answers,
)
    requires
        state.visible,
        state.mode == HitTestMode::Normal,
        message.msg == 0x02a3,
    ensures
        ({
            let done = crate::runs::handling(message, state, answers);
            &&& done.len() == 2
            &&& done[0] is SendMouse
            &&& says(done[0]->SendMouse_0, message, 0, 0)
            &&& done[1] == Action::PassOn
            &&& crate::runs::state_after(message, state, answers) == state
        }),
{
    reveal_with_fuel(crate::runs::run, 5);
    lemma_event_says(message, MouseEventKind::Leave, Point { x: 0, y: 0 });
}

/// A web view that takes input is asked for its cursor when one is to be set. The
/// cursor it gives is shown, and the message consumed; where it gives none the
/// message is passed on.
pub proof fn law_cursor_is_shown(message: Message, state: InputState, answers: Answers)
    requires
        state.visible,
        state.mode == HitTestMode::Normal,
        message.msg == 0x0020,
    ensures
        ({
            let done = crate::runs::handling(message, state, answers);
            &&& done[0] == Action::QueryCursor
            &&& answers.cursor matches Some(cursor) ==> done.len() == 3 && done[1]
                == Action::ShowCursor(cursor) && done[2] == Action::Consume
            &&& answers.cursor is None ==> done.len() == 2 && done[1] == Action::PassOn
            &&& crate::runs::state_after(message, state, answers) == state
        }),
{
    reveal_with_fuel(crate::runs::run, 5);
}

/// A window that gets the focus hands it to a web view that takes input.
pub proof fn law_focus_is_handed_on(message: Message, state: InputState, answers: Answers)
    requires
        state.visible,
        state.mode == HitTestMode::Normal,
        message.msg == 0x0007,
    ensures
        ({
            let done = crate::runs::handling(message, state, answers);
            &&& done.len() == 2
            &&& done[0] == Action::MoveFocus
            &&& done[1] == Action::PassOn
            &&& crate::runs::state_after(message, state, answers) == state
        }),
{
    reveal_with_fuel(crate::runs::run, 5);
}

/// A new size is followed exactly by the web views that are to follow it, seen or
/// not: controller and input area both get the client rectangle.
pub proof fn law_new_size_is_followed(message: Message, state: InputState, answers: Answers)
    requires
        message.msg == 0x0005 || message.msg == 0x02e0,
    ensures
        ({
            let done = crate::runs::handling(message, state, answers);
            let after = crate::runs::state_after(message, state, answers);
            &&& state.auto_resize ==> {
                &&& done.len() == 3
                &&& done[0] == Action::QueryClientRect
                &&& done[1] == Action::SetControllerBounds(answers.client_rect)
                &&& after == (InputState { bounds: answers.client_rect, ..state })
            }
            &&& !state.auto_resize ==> done.len() == 1 && after == state
            &&& done.last() == Action::PassOn
        }),
{
    reveal_with_fuel(crate::runs::run, 5);
}

/// The controller is told of every move of the window, whether the web view is seen
/// or not.
pub proof fn law_window_moves_are_told(message: Message, state: InputState, answers: Answers)
    requires
        message.msg == 0x0003 || message.msg == 0x0216 || message.msg == 0x0231,
    ensures
        ({
            let done = crate::runs::handling(message, state, answers);
            &&& done.len() == 2
            &&& done[0] == Action::NotifyParentMoved
            &&& done[1] == Action::PassOn
            &&& crate::runs::state_after(message, state, answers) == state
        }),
{
    reveal_with_fuel(crate::runs::run, 5);
}

/// Whether the message is about input of some kind.
pub open spec fn is_about_input(msg: u32) -> bool {
    ||| msg == 0x0007
    ||| msg == 0x0020
    ||| msg == 0x0200
    ||| msg == 0x0201
    ||| msg == 0x0202
    ||| msg == 0x0204
    ||| msg == 0x0205
    ||| msg == 0x0207
    ||| msg == 0x0208
    ||| msg == 0x020a
    ||| msg == 0x020e
    ||| msg == 0x02a3
}

/// Whether the message is about the window's size or place.
pub open spec fn is_about_window(msg: u32) -> bool {
    ||| msg == 0x0003
    ||| msg == 0x0005
    ||| msg == 0x0216
    ||| msg == 0x0231
    ||| msg == 0x02e0
}

/// Input for a web view that is hidden or lets input through, and every message that
/// is about something else, is passed on at once and changes nothing.
pub proof fn law_other_messages_are_passed_on(
    message: Message,
    state: InputState,
    answers: Answers,
)
    requires
        !is_about_window(message.msg),
        !is_about_input(message.msg) || !state.visible || state.mode == HitTestMode::Passthrough,
    ensures
        crate::runs::handling(message, state, answers).len() == 1,
        crate::runs::handling(message, state, answers)[0] == Action::PassOn,
        crate::runs::state_after(message, state, answers) == state,
{
    reveal_with_fuel(crate::runs::run, 5);
}

/// A dispatch that has only been taken up.
pub open spec fn taken_up(message: Message) -> Dispatch {
    Dispatch { message, phase: Phase::Start }
}

/// What happens to a move or a button is settled when it is taken up: whatever is
/// done to the state afterwards, the focus, the watching and the passing on follow.
pub proof fn law_mouse_is_settled_at_once(
    message: Message,
    turns: Seq<Turn>,
    p: Point,
    high: int,
)
    requires
        turns.len() >= 4,
        turns[0].state.visible,
        turns[0].state.mode == HitTestMode::Normal,
        message.msg == 0x0200 || message.msg == 0x0201 || message.msg == 0x0202 || message.msg
            == 0x0204 || message.msg == 0x0205 || message.msg == 0x0207 || message.msg == 0x0208,
        packs(message.lparam, p, high),
    ensures
        ({
            let bounds = turns[0].state.bounds;
            let done = crate::runs::actions(taken_up(message), turns);
            let inside = bounds.left <= p.x < bounds.right && bounds.top <= p.y < bounds.bottom;
            &&& inside && p.x - bounds.left <= 0x7fff_ffff && p.y - bounds.top <= 0x7fff_ffff
                ==> done[0] is SendMouse && says(
                done[0]->SendMouse_0,
                message,
                p.x - bounds.left,
                p.y - bounds.top,
            )
            &&& inside && (message.msg == 0x0201 || message.msg == 0x0204 || message.msg == 0x0207)
                ==> done.len() == 4 && done[1] == Action::FocusWindow && done[2]
                == Action::MoveFocus
            &&& inside && message.msg == 0x0200 ==> done.len() == 3 && done[1]
                == Action::TrackLeave
            &&& inside && (message.msg == 0x0202 || message.msg == 0x0205 || message.msg == 0x0208)
                ==> done.len() == 2
            &&& !inside && turns[0].state.hovered ==> done.len() == 2 && done[0] is SendMouse
                && says_gone(done[0]->SendMouse_0)
            &&& !inside && !turns[0].state.hovered ==> done.len() == 1
            &&& done.last() == Action::PassOn
        }),
{
    law_points_unpack(message, p, high);
    reveal_with_fuel(crate::runs::actions, 5);
    lemma_event_says(message, message.kind()->0, turns[0].state.bounds.local(p));
}

/// A wheel is let in by the state when it is taken up, and placed by the bounds and
/// the hover when the point is known. What becomes of the visibility and the mode in
/// between does not matter, nor anything afterwards.
pub proof fn law_wheel_is_placed_by_later_bounds(
    message: Message,
    turns: Seq<Turn>,
    screen: Point,
    high: int,
    p: Point,
)
    requires
        turns.len() >= 4,
        turns[0].state.visible,
        turns[0].state.mode == HitTestMode::Normal,
        message.msg == 0x020a || message.msg == 0x020e,
        packs(message.lparam, screen, high),
        turns[1].reply == Reply::ClientPoint(p),
    ensures
        ({
            let bounds = turns[1].state.bounds;
            let done = crate::runs::actions(taken_up(message), turns);
            let inside = bounds.left <= p.x < bounds.right && bounds.top <= p.y < bounds.bottom;
            &&& done[0] == Action::ToClient(screen)
            &&& inside && p.x - bounds.left <= 0x7fff_ffff && p.y - bounds.top <= 0x7fff_ffff
                ==> done.len() == 3 && done[1] is SendMouse && says(
                done[1]->SendMouse_0,
                message,
                p.x - bounds.left,
                p.y - bounds.top,
            )
            &&& !inside && turns[1].state.hovered ==> done.len() == 3 && done[1] is SendMouse
                && says_gone(done[1]->SendMouse_0)
            &&& !inside && !turns[1].state.hovered ==> done.len() == 2
            &&& done.last() == Action::PassOn
        }),
{
    law_points_unpack(message, screen, high);
    reveal_with_fuel(crate::runs::actions, 5);
    lemma_event_says(message, message.kind()->0, turns[1].state.bounds.local(p));
}

/// Everything but moves, buttons and wheels is settled when it is taken up, too:
/// later states do not matter.
pub proof fn law_other_handling_is_settled_at_once(
    message: Message,
    turns: Seq<Turn>,
    cursor: Option<isize>,
    client: crate::geometry::PixelRect,
)
    requires
        turns.len() >= 4,
    ensures
        ({
            let state = turns[0].state;
            let takes = state.visible && state.mode == HitTestMode::Normal;
            let done = crate::runs::actions(taken_up(message), turns);
            &&& takes && message.msg == 0x02a3 ==> done.len() == 2 && done[0] is SendMouse && says(
                done[0]->SendMouse_0,
                message,
                0,
                0,
            ) && done[1] == Action::PassOn
            &&& takes && message.msg == 0x0007 ==> done.len() == 2 && done[0] == Action::MoveFocus
                && done[1] == Action::PassOn
            &&& takes && message.msg == 0x0020 && turns[1].reply == Reply::Cursor(cursor) ==> {
                &&& done[0] == Action::QueryCursor
                &&& cursor matches Some(shown) ==> done.len() == 3 && done[1]
                    == Action::ShowCursor(shown) && done[2] == Action::Consume
                &&& cursor is None ==> done.len() == 2 && done[1] == Action::PassOn
            }
            &&& message.msg == 0x0003 || message.msg == 0x0216 || message.msg == 0x0231
                ==> done.len() == 2 && done[0] == Action::NotifyParentMoved && done[1]
                == Action::PassOn
            &&& (message.msg == 0x0005 || message.msg == 0x02e0) && state.auto_resize
                && turns[1].reply == Reply::ClientRect(client) ==> done.len() == 3 && done[0]
                == Action::QueryClientRect && done[1] == Action::SetControllerBounds(client)
                && done[2] == Action::PassOn
            &&& (message.msg == 0x0005 || message.msg == 0x02e0) && !state.auto_resize
                ==> done.len() == 1 && done[0] == Action::PassOn
            &&& !is_about_window(message.msg) && !(takes && is_about_input(message.msg))
                ==> done.len() == 1 && done[0] == Action::PassOn
        }),
{
    reveal_with_fuel(crate::runs::actions, 5);
    if message.msg == 0x02a3 {
        lemma_event_says(message, MouseEventKind::Leave, Point { x: 0, y: 0 });
    }
}

/// What a step does to the state, whatever the state has become: the bounds become
/// the client rectangle that was asked for; a place that is held against the bounds
/// leaves behind whether the mouse is inside; and nothing else changes.
pub proof fn law_steps_change_only_bounds_and_hover(
    d: Dispatch,
    state: InputState,
    reply: Reply,
    p: Point,
    high: int,
)
    requires
        d.expects(reply),
    ensures
        ({
            let after = d.next(state, reply).1;
            let msg = d.message.msg;
            let clicks = msg == 0x0200 || msg == 0x0201 || msg == 0x0202 || msg == 0x0204 || msg
                == 0x0205 || msg == 0x0207 || msg == 0x0208;
            let first = d.phase == Phase::Start || d.phase == Phase::Routing;
            &&& after.mode == state.mode
            &&& after.visible == state.visible
            &&& after.auto_resize == state.auto_resize
            &&& d.phase == Phase::Resizing ==> reply == Reply::ClientRect(after.bounds)
            &&& d.phase != Phase::Resizing ==> after.bounds == state.bounds
            &&& d.phase == Phase::Placing && reply == Reply::ClientPoint(p) ==> (after.hovered
                <==> state.bounds.left <= p.x < state.bounds.right && state.bounds.top <= p.y
                < state.bounds.bottom)
            &&& first && clicks && state.visible && state.mode == HitTestMode::Normal && packs(
                d.message.lparam,
                p,
                high,
            ) ==> (after.hovered <==> state.bounds.left <= p.x < state.bounds.right
                && state.bounds.top <= p.y < state.bounds.bottom)
            &&& d.phase != Phase::Placing && !(first && clicks && state.visible && state.mode
                == HitTestMode::Normal) ==> after.hovered == state.hovered
        }),
{
    law_points_unpack(d.message, p, high);
}

/// Each action has one kind of reply: the client rectangle, the cursor and the point
/// where they were asked for, and nothing but its completion for any other. A
/// message is taken up once, and after the last action no reply is wanted.
pub proof fn law_actions_have_their_replies(
    d: Dispatch,
    state: InputState,
    reply: Reply,
    answer: Reply,
)
    requires
        d.expects(reply),
    ensures
        ({
            let (phase, _, action) = d.next(state, reply);
            (Dispatch { phase, ..d }).expects(answer) <==> match action {
                Action::QueryClientRect => answer is ClientRect,
                Action::QueryCursor => answer is Cursor,
                Action::ToClient(_) => answer is ClientPoint,
                Action::PassOn | Action::Consume => false,
                _ => answer is Done,
            }
        }),
        taken_up(d.message).expects(answer) <==> answer is Done,
{
}

/// The only replies that cannot be taken, though they answer the last action, are
/// those that place the mouse inside the web view so far from its corner that 32
/// bits cannot hold the distance.
pub proof fn law_only_unwritable_places_are_refused(
    d: Dispatch,
    state: InputState,
    reply: Reply,
    p: Point,
    high: int,
)
    requires
        d.expects(reply),
        packs(d.message.lparam, p, high),
        !d.in_range(state, reply),
    ensures
        ({
            let msg = d.message.msg;
            let q = if reply is ClientPoint {
                reply->ClientPoint_0
            } else {
                p
            };
            &&& state.bounds.left <= q.x < state.bounds.right
            &&& state.bounds.top <= q.y < state.bounds.bottom
            &&& q.x - state.bounds.left > 0x7fff_ffff || q.y - state.bounds.top > 0x7fff_ffff
            &&& reply !is ClientPoint ==> {
                &&& state.visible
                &&& state.mode == HitTestMode::Normal
                &&& msg == 0x0200 || msg == 0x0201 || msg == 0x0202 || msg == 0x0204 || msg
                    == 0x0205 || msg == 0x0207 || msg == 0x0208
            }
        }),
{
    law_points_unpack(d.message, p, high);
}

/// Once the window's own changes are dealt with, the rest goes as it does for a
/// message that brings none.
pub proof fn law_routing_goes_on_like_a_start(message: Message, state: InputState)
    requires
        !is_about_window(message.msg),
    ensures
        (Dispatch { message, phase: Phase::Routing }).next(state, Reply::Done) == taken_up(
            message,
        ).next(state, Reply::Done),
{
}

} // verus!
