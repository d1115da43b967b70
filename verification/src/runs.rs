//! What the handling of a whole message comes to.

use vstd::prelude::*;

use crate::dispatch::{Action, Dispatch, Phase, Reply};
use crate::geometry::{PixelRect, Point};
use crate::input::InputState;
use crate::message::{Message, MouseEventKind, WM_MOUSEMOVE, WM_SETCURSOR, WM_SETFOCUS};

verus! {

/// What the surroundings answer while a message is handled.
pub struct Answers {
    pub client_rect: PixelRect,
    pub cursor: Option<isize>,
    pub client_point: Point,
}

impl Answers {
    /// The reply to `action`.
    pub open spec fn to(self, action: Action) -> Reply {
        match action {
            Action::QueryClientRect => Reply::ClientRect(self.client_rect),
            Action::QueryCursor => Reply::Cursor(self.cursor),
            Action::ToClient(_) => Reply::ClientPoint(self.client_point),
            _ => Reply::Done,
        }
    }
}

/// The actions that follow when `d` is given `reply` and then an answer to each
/// action, at most `limit` times, while nothing else touches the state. The state
/// at the end comes with them.
pub open spec fn run(
    d: Dispatch,
    state: InputState,
    answers: Answers,
    reply: Reply,
    limit: nat,
) -> (Seq<Action>, InputState)
    decreases limit,
{
    if limit == 0 || d.phase == Phase::Finished {
        (seq![], state)
    } else {
        let (phase, after, action) = d.next(state, reply);
        let (rest, end) = run(
            Dispatch { phase, ..d },
            after,
            answers,
            answers.to(action),
            (limit - 1) as nat,
        );
        (seq![action] + rest, end)
    }
}

/// The most actions that one message leads to.
pub open spec fn longest() -> nat {
    4
}

/// Everything that is done for `message`, in order.
pub open spec fn handling(message: Message, state: InputState, answers: Answers) -> Seq<Action> {
    run(Dispatch { message, phase: Phase::Start }, state, answers, Reply::Done, longest()).0
}

/// The state after `message` was handled.
pub open spec fn state_after(
    message: Message,
    state: InputState,
    answers: Answers,
) -> InputState {
    run(Dispatch { message, phase: Phase::Start }, state, answers, Reply::Done, longest()).1
}

/// Whether the web view follows the window to a new size.
pub open spec fn follows_size(message: Message, state: InputState) -> bool {
    message.resizes() && state.auto_resize
}

/// Whether `message` is a mouse event at a certain place, and goes to a web view
/// that takes it.
pub open spec fn has_place(message: Message, state: InputState) -> bool {
    &&& state.takes_input()
    &&& message.kind() matches Some(kind)
    &&& kind != MouseEventKind::Leave
}

/// Where in the client area the mouse event took place. Wheel events carry a
/// point of the screen, and all others one of the client area.
pub open spec fn place_of(message: Message, answers: Answers) -> Point {
    if message.turns_wheel() {
        answers.client_point
    } else {
        message.packed_point()
    }
}

/// What is done for the window itself.
pub open spec fn window_part(
    message: Message,
    state: InputState,
    answers: Answers,
) -> Seq<Action> {
    if follows_size(message, state) {
        seq![Action::QueryClientRect, Action::SetControllerBounds(answers.client_rect)]
    } else if message.relocates() {
        seq![Action::NotifyParentMoved]
    } else {
        seq![]
    }
}

/// What is done once the web view has been handed an event.
pub open spec fn follow_up(message: Message) -> Seq<Action> {
    if message.presses_button() {
        seq![Action::FocusWindow, Action::MoveFocus]
    } else if message.msg == WM_MOUSEMOVE {
        seq![Action::TrackLeave]
    } else {
        seq![]
    }
}

/// What is done about a mouse event that has a place.
pub open spec fn mouse_part(
    message: Message,
    state: InputState,
    answers: Answers,
) -> Seq<Action> {
    let p = place_of(message, answers);
    let asked = if message.turns_wheel() {
        seq![Action::ToClient(message.packed_point())]
    } else {
        seq![]
    };
    let told = if state.bounds.covers(p) {
        seq![
            Action::SendMouse(
                crate::dispatch::event_at(message, message.kind()->0, state.bounds.local(p)),
            ),
        ] + follow_up(message)
    } else if state.hovered {
        seq![Action::SendMouse(crate::dispatch::leave_event())]
    } else {
        seq![]
    };
    asked + told
}

/// What is done for the web view, up to the last action.
pub open spec fn view_part(
    message: Message,
    state: InputState,
    answers: Answers,
) -> Seq<Action> {
    if !state.takes_input() {
        seq![]
    } else if message.msg == WM_SETCURSOR {
        seq![Action::QueryCursor] + match answers.cursor {
            Some(cursor) => seq![Action::ShowCursor(cursor)],
            None => seq![],
        }
    } else if message.msg == WM_SETFOCUS {
        seq![Action::MoveFocus]
    } else if message.kind() == Some(MouseEventKind::Leave) {
        seq![
            Action::SendMouse(
                crate::dispatch::event_at(message, MouseEventKind::Leave, Point { x: 0, y: 0 }),
            ),
        ]
    } else if has_place(message, state) {
        mouse_part(message, state, answers)
    } else {
        seq![]
    }
}

/// Whether the message goes no further.
pub open spec fn consumed(message: Message, state: InputState, answers: Answers) -> bool {
    state.takes_input() && message.msg == WM_SETCURSOR && answers.cursor is Some
}

/// A message that nothing interferes with is handled in three parts: first what
/// concerns the window, then what concerns the web view, and at the end it is
/// passed on, unless the web view's cursor was shown for it.
pub proof fn law_handling_has_three_parts(message: Message, state: InputState, answers: Answers)
    ensures
        handling(message, state, answers) == window_part(message, state, answers) + view_part(
            message,
            state,
            answers,
        ) + seq![
            if consumed(message, state, answers) {
                Action::Consume
            } else {
                Action::PassOn
            },
        ],
{
    reveal_with_fuel(run, 5);
}

/// Handling a message changes the bounds only to follow the window's size, and
/// keeps of the mouse only whether it was last seen over the web view.
pub proof fn law_state_after_handling(message: Message, state: InputState, answers: Answers)
    ensures
        state_after(message, state, answers) == (InputState {
            bounds: if follows_size(message, state) {
                answers.client_rect
            } else {
                state.bounds
            },
            hovered: if has_place(message, state) {
                state.bounds.covers(place_of(message, answers))
            } else {
                state.hovered
            },
            ..state
        }),
{
    reveal_with_fuel(run, 5);
}

/// Whether `action` has to do with the web view's input.
pub open spec fn is_input(action: Action) -> bool {
    match action {
        Action::QueryCursor | Action::ShowCursor(_) | Action::MoveFocus | Action::ToClient(_)
        | Action::SendMouse(_) | Action::FocusWindow | Action::TrackLeave
        | Action::Consume => true,
        _ => false,
    }
}

/// A web view that is hidden, or lets input through, gets none: every message
/// is passed on, and at most the window's own changes are dealt with.
pub proof fn law_unreachable_view_gets_no_input(
    message: Message,
    state: InputState,
    answers: Answers,
)
    requires
        !state.visible || state.mode == crate::input::HitTestMode::Passthrough,
    ensures
        handling(message, state, answers).last() == Action::PassOn,
        forall|i: int|
            0 <= i < handling(message, state, answers).len() ==> !is_input(
                #[trigger] handling(message, state, answers)[i],
            ),
        state_after(message, state, answers).hovered == state.hovered,
{
    law_handling_has_three_parts(message, state, answers);
    law_state_after_handling(message, state, answers);
}

/// A web view that does not follow the window's size keeps its bounds, and its
/// controller is given none.
pub proof fn law_fixed_view_keeps_bounds(message: Message, state: InputState, answers: Answers)
    requires
        !state.auto_resize,
    ensures
        state_after(message, state, answers).bounds == state.bounds,
        forall|i: int|
            0 <= i < handling(message, state, answers).len() ==> (
            #[trigger] handling(message, state, answers)[i]) !is SetControllerBounds,
{
    law_handling_has_three_parts(message, state, answers);
    law_state_after_handling(message, state, answers);
}

/// The mouse's leaving is told once: when it is seen outside the web view twice in
/// a row, the second time nothing is sent.
pub proof fn law_leaving_is_told_once(
    first: Message,
    second: Message,
    state: InputState,
    answers: Answers,
    later: Answers,
)
    requires
        has_place(first, state),
        has_place(second, state),
        !state.bounds.covers(place_of(first, answers)),
        !state.bounds.covers(place_of(second, later)),
    ensures
        state.hovered <==> handling(first, state, answers).contains(
            Action::SendMouse(crate::dispatch::leave_event()),
        ),
        forall|i: int|
            0 <= i < handling(second, state_after(first, state, answers), later).len() ==> (
            #[trigger] handling(second, state_after(first, state, answers), later)[i])
                !is SendMouse,
{
    law_handling_has_three_parts(first, state, answers);
    law_state_after_handling(first, state, answers);
    let between = state_after(first, state, answers);
    law_handling_has_three_parts(second, between, later);
    if state.hovered {
        let sent = handling(first, state, answers);
        let at: int = if first.turns_wheel() {
            1
        } else {
            0
        };
        assert(sent[at] == Action::SendMouse(crate::dispatch::leave_event()));
    }
}

/// Every event that the web view is handed either lies within its extent or tells
/// that the mouse is gone.
pub proof fn law_events_lie_within_view(
    message: Message,
    state: InputState,
    answers: Answers,
    i: int,
)
    requires
        has_place(message, state) && state.bounds.covers(place_of(message, answers))
            ==> state.bounds.can_localize(place_of(message, answers)),
        0 <= i < handling(message, state, answers).len(),
        handling(message, state, answers)[i] is SendMouse,
    ensures
        handling(message, state, answers)[i]->SendMouse_0.kind == MouseEventKind::Leave || {
            let p = handling(message, state, answers)[i]->SendMouse_0.point;
            &&& 0 <= p.x < state.bounds.width()
            &&& 0 <= p.y < state.bounds.height()
        },
{
    law_handling_has_three_parts(message, state, answers);
}

/// One step as it happens: what the state was when it was taken, and the reply.
pub struct Turn {
    pub state: InputState,
    pub reply: Reply,
}

/// The actions that `turns` draw from `d`, up to the last one. The state may have
/// become anything between one turn and the next.
pub open spec fn actions(d: Dispatch, turns: Seq<Turn>) -> Seq<Action>
    decreases turns.len(),
{
    if turns.len() == 0 || d.phase == Phase::Finished {
        seq![]
    } else {
        let (phase, _, action) = d.next(turns[0].state, turns[0].reply);
        seq![action] + actions(Dispatch { phase, ..d }, turns.drop_first())
    }
}

/// Whether `action` ends the handling of a message.
pub open spec fn is_last(action: Action) -> bool {
    action == Action::PassOn || action == Action::Consume
}

/// Whatever is done to the state while a message is handled, the handling ends: a
/// few actions, of which the last and no other passes the message on or
/// consumes it. Only a request for the cursor is ever consumed.
pub proof fn law_every_handling_ends(message: Message, turns: Seq<Turn>)
    requires
        turns.len() >= longest(),
    ensures
        ({
            let taken = actions(Dispatch { message, phase: Phase::Start }, turns);
            &&& 1 <= taken.len() <= longest()
            &&& is_last(taken.last())
            &&& forall|i: int| 0 <= i < taken.len() - 1 ==> !is_last(#[trigger] taken[i])
            &&& taken.last() == Action::Consume ==> message.msg == WM_SETCURSOR
        }),
{
    reveal_with_fuel(actions, 5);
}

/// No step changes the hit test mode, the visibility or the resizing; the bounds
/// change only to a client rectangle that was asked for.
pub proof fn law_steps_leave_settings_alone(d: Dispatch, state: InputState, reply: Reply)
    ensures
        ({
            let after = d.next(state, reply).1;
            &&& after.mode == state.mode
            &&& after.visible == state.visible
            &&& after.auto_resize == state.auto_resize
            &&& after.bounds != state.bounds ==> d.phase == Phase::Resizing
            &&& after.hovered != state.hovered ==> d.examined_point(state, reply) is Some
        }),
{
}

/// Whether input is let in is decided by the state at the moment of the decision,
/// whatever happened to it before: an unreachable web view gets none.
pub proof fn law_closed_gate_lets_nothing_in(d: Dispatch, state: InputState, reply: Reply)
    requires
        d.phase == Phase::Start || d.phase == Phase::Resizing || d.phase == Phase::Routing,
        !state.takes_input(),
    ensures
        !is_input(d.next(state, reply).2),
        d.phase == Phase::Routing ==> d.next(state, reply).2 == Action::PassOn,
{
}

} // verus!
