//! Handling of one window message.

use vstd::prelude::*;

use crate::geometry::{PixelRect, Point};
use crate::input::InputState;
use crate::keys::VirtualKeys;
use crate::message::{
    Message, MouseEventKind, WM_DPICHANGED, WM_ENTERSIZEMOVE, WM_LBUTTONDOWN, WM_MBUTTONDOWN,
    WM_MOUSEHWHEEL, WM_MOUSELEAVE_MESSAGE, WM_MOUSEMOVE, WM_MOUSEWHEEL, WM_MOVE, WM_MOVING,
    WM_RBUTTONDOWN, WM_SETCURSOR, WM_SETFOCUS, WM_SIZE,
};

verus! {

/// A mouse event for the web view.
#[derive(Clone, Copy, Debug, PartialEq, Eq, Structural)]
pub struct MouseEvent {
    pub kind: MouseEventKind,
    pub keys: VirtualKeys,
    pub data: u32,
    /// Where it happened, seen from the top left corner of the web view.
    pub point: Point,
}

/// What a window procedure does next.
#[derive(Clone, Copy, Debug, PartialEq, Eq, Structural)]
pub enum Action {
    /// Ask for the client rectangle of the window.
    QueryClientRect,
    /// Give the web view's controller new bounds.
    SetControllerBounds(PixelRect),
    /// Tell the controller that its window has moved.
    NotifyParentMoved,
    /// Ask the controller for its cursor.
    QueryCursor,
    /// Show this cursor.
    ShowCursor(isize),
    /// Move the keyboard focus into the web view.
    MoveFocus,
    /// Turn this point of the screen into one of the client area.
    ToClient(Point),
    /// Hand this event to the web view.
    SendMouse(MouseEvent),
    /// Give the window the keyboard focus.
    FocusWindow,
    /// Ask to be told when the mouse leaves the window.
    TrackLeave,
    /// Pass the message on, and return what that gives.
    PassOn,
    /// Return one: the message is dealt with.
    Consume,
}

/// What came of an action.
#[derive(Clone, Copy, Debug, PartialEq, Eq, Structural)]
pub enum Reply {
    /// It was carried out.
    Done,
    /// The client rectangle.
    ClientRect(PixelRect),
    /// The controller's cursor, or nothing where it gave none.
    Cursor(Option<isize>),
    /// The point in the client area.
    ClientPoint(Point),
}

/// How far the handling of a message has come.
#[derive(Clone, Copy, Debug, PartialEq, Eq, Structural)]
pub enum Phase {
    /// Nothing was done yet.
    Start,
    /// The client rectangle was asked for.
    Resizing,
    /// The window's own changes are dealt with.
    Routing,
    /// The cursor was asked for.
    Pointing,
    /// The place of a wheel event was asked for.
    Placing,
    /// The event was handed over.
    Sent,
    /// The window was given the focus.
    Focusing,
    /// Only passing on is left.
    Passing,
    /// The cursor was shown.
    Consuming,
    /// The last action was given out.
    Finished,
}

/// A message on its way.
#[derive(Clone, Copy, Debug, PartialEq, Eq, Structural)]
pub struct Dispatch {
    pub message: Message,
    pub phase: Phase,
}

/// The event that tells the web view that the mouse is gone.
pub open spec fn leave_event() -> MouseEvent {
    MouseEvent {
        kind: MouseEventKind::Leave,
        keys: VirtualKeys { bits: 0 },
        data: 0,
        point: Point { x: 0, y: 0 },
    }
}

/// The event that `message` stands for, when it happened at `point`.
pub open spec fn event_at(message: Message, kind: MouseEventKind, point: Point) -> MouseEvent {
    MouseEvent { kind, keys: message.held_keys(), data: message.event_data(), point }
}

impl Dispatch {
    /// Whether `reply` is an answer to the action that was given out last.
    pub open spec fn expects(self, reply: Reply) -> bool {
        match self.phase {
            Phase::Resizing => reply is ClientRect,
            Phase::Pointing => reply is Cursor,
            Phase::Placing => reply is ClientPoint,
            Phase::Finished => false,
            _ => reply is Done,
        }
    }

    /// The point of the client area that the coming step holds against the web
    /// view's bounds, if there is one.
    pub open spec fn examined_point(self, state: InputState, reply: Reply) -> Option<Point> {
        match self.phase {
            Phase::Placing => Some(reply->ClientPoint_0),
            Phase::Start | Phase::Routing => if state.takes_input() && self.message.kind() is Some
                && self.message.msg != WM_MOUSELEAVE_MESSAGE && !self.message.turns_wheel() {
                Some(self.message.packed_point())
            } else {
                None
            },
            _ => None,
        }
    }

    /// Whether the coming step can write the point it examines relative to the
    /// web view, where that lies inside.
    pub open spec fn in_range(self, state: InputState, reply: Reply) -> bool {
        self.examined_point(state, reply) matches Some(p) ==> (state.bounds.covers(p)
            ==> state.bounds.can_localize(p))
    }

    /// The step that hands over a mouse event at `p`, a point of the client
    /// area. Inside the bounds the event is sent; outside them the web view only
    /// learns, once, that the mouse is gone.
    pub open spec fn placed(
        self,
        state: InputState,
        kind: MouseEventKind,
        p: Point,
    ) -> (Phase, InputState, Action) {
        if state.bounds.covers(p) {
            (
                Phase::Sent,
                InputState { hovered: true, ..state },
                Action::SendMouse(event_at(self.message, kind, state.bounds.local(p))),
            )
        } else if state.hovered {
            (
                Phase::Passing,
                InputState { hovered: false, ..state },
                Action::SendMouse(leave_event()),
            )
        } else {
            (Phase::Finished, state, Action::PassOn)
        }
    }

    /// The step that follows once the window's own changes are dealt with.
    pub open spec fn routed(self, state: InputState) -> (Phase, InputState, Action) {
        if !state.takes_input() {
            (Phase::Finished, state, Action::PassOn)
        } else if self.message.msg == WM_SETCURSOR {
            (Phase::Pointing, state, Action::QueryCursor)
        } else if self.message.msg == WM_SETFOCUS {
            (Phase::Passing, state, Action::MoveFocus)
        } else {
            match self.message.kind() {
                None => (Phase::Finished, state, Action::PassOn),
                Some(MouseEventKind::Leave) => (
                    Phase::Sent,
                    state,
                    Action::SendMouse(
                        event_at(self.message, MouseEventKind::Leave, Point { x: 0, y: 0 }),
                    ),
                ),
                Some(kind) => if self.message.turns_wheel() {
                    (Phase::Placing, state, Action::ToClient(self.message.packed_point()))
                } else {
                    self.placed(state, kind, self.message.packed_point())
                },
            }
        }
    }

    /// The phase, the state and the action that follow on `reply`.
    pub open spec fn next(self, state: InputState, reply: Reply) -> (Phase, InputState, Action) {
        match self.phase {
            Phase::Start => if self.message.resizes() && state.auto_resize {
                (Phase::Resizing, state, Action::QueryClientRect)
            } else if self.message.relocates() {
                (Phase::Routing, state, Action::NotifyParentMoved)
            } else {
                self.routed(state)
            },
            Phase::Resizing => {
                let bounds = reply->ClientRect_0;
                (
                    Phase::Routing,
                    InputState { bounds, ..state },
                    Action::SetControllerBounds(bounds),
                )
            },
            Phase::Routing => self.routed(state),
            Phase::Pointing => match reply->Cursor_0 {
                Some(cursor) => (Phase::Consuming, state, Action::ShowCursor(cursor)),
                None => (Phase::Finished, state, Action::PassOn),
            },
            Phase::Placing => self.placed(
                state,
                self.message.kind()->0,
                reply->ClientPoint_0,
            ),
            Phase::Sent => if self.message.presses_button() {
                (Phase::Focusing, state, Action::FocusWindow)
            } else if self.message.msg == WM_MOUSEMOVE {
                (Phase::Passing, state, Action::TrackLeave)
            } else {
                (Phase::Finished, state, Action::PassOn)
            },
            Phase::Focusing => (Phase::Passing, state, Action::MoveFocus),
            Phase::Passing => (Phase::Finished, state, Action::PassOn),
            Phase::Consuming => (Phase::Finished, state, Action::Consume),
            Phase::Finished => (Phase::Finished, state, Action::PassOn),
        }
    }

    /// A dispatch is well formed when the place of an event is asked for only on
    /// behalf of a mouse event.
    pub open spec fn well_formed(self) -> bool {
        self.phase == Phase::Placing ==> self.message.turns_wheel()
    }

    /// Takes up a message.
    pub fn new(message: Message) -> (d: Dispatch)
        ensures
            d == (Dispatch { message, phase: Phase::Start }),
            d.well_formed(),
    {
        Dispatch { message, phase: Phase::Start }
    }

    fn place(&mut self, state: &mut InputState, kind: MouseEventKind, p: Point) -> (action: Action)
        requires
            old(state).bounds.covers(p) ==> old(state).bounds.can_localize(p),
        ensures
            final(self).message == old(self).message,
            (final(self).phase, *final(state), action) == old(self).placed(*old(state), kind, p),
    {
        if !state.bounds.contains(p) {
            if state.hovered {
                state.hovered = false;
                self.phase = Phase::Passing;
                Action::SendMouse(
                    MouseEvent {
                        kind: MouseEventKind::Leave,
                        keys: VirtualKeys { bits: 0 },
                        data: 0,
                        point: Point { x: 0, y: 0 },
                    },
                )
            } else {
                self.phase = Phase::Finished;
                Action::PassOn
            }
        } else {
            state.hovered = true;
            self.phase = Phase::Sent;
            self.event(kind, state.bounds.localize(p))
        }
    }

    fn event(&self, kind: MouseEventKind, point: Point) -> (action: Action)
        ensures
            action == Action::SendMouse(event_at(self.message, kind, point)),
    {
        Action::SendMouse(
            MouseEvent { kind, keys: self.message.keys(), data: self.message.data(), point },
        )
    }

    fn route(&mut self, state: &mut InputState) -> (action: Action)
        requires
            old(self).phase == Phase::Start || old(self).phase == Phase::Routing,
            old(self).in_range(*old(state), Reply::Done),
        ensures
            final(self).message == old(self).message,
            (final(self).phase, *final(state), action) == old(self).routed(*old(state)),
            final(self).well_formed(),
    {
        if !state.accepts() {
            self.phase = Phase::Finished;
            return Action::PassOn;
        }
        if self.message.msg == WM_SETCURSOR {
            self.phase = Phase::Pointing;
            return Action::QueryCursor;
        }
        if self.message.msg == WM_SETFOCUS {
            self.phase = Phase::Passing;
            return Action::MoveFocus;
        }
        match self.message.mouse_kind() {
            None => {
                self.phase = Phase::Finished;
                Action::PassOn
            },
            Some(kind) => if self.message.msg == WM_MOUSELEAVE_MESSAGE {
                self.phase = Phase::Sent;
                self.event(kind, Point { x: 0, y: 0 })
            } else if matches!(self.message.msg, WM_MOUSEWHEEL | WM_MOUSEHWHEEL) {
                self.phase = Phase::Placing;
                Action::ToClient(self.message.point())
            } else {
                let p = self.message.point();
                self.place(state, kind, p)
            },
        }
    }

    /// Tells whether `step` can take `reply`: it has to answer the last action, and
    /// a point inside the web view has to be expressible relative to it.
    pub fn can_step(&self, state: &InputState, reply: Reply) -> (r: bool)
        requires
            self.well_formed(),
        ensures
            r == (self.expects(reply) && self.in_range(*state, reply)),
    {
        let p: Point = match (self.phase, reply) {
            (Phase::Resizing, Reply::ClientRect(_)) => {
                return true;
            },
            (Phase::Pointing, Reply::Cursor(_)) => {
                return true;
            },
            (Phase::Placing, Reply::ClientPoint(p)) => p,
            (Phase::Start, Reply::Done) | (Phase::Routing, Reply::Done) => {
                if !state.accepts() || self.message.mouse_kind().is_none() || matches!(
                    self.message.msg,
                    WM_MOUSELEAVE_MESSAGE | WM_MOUSEWHEEL | WM_MOUSEHWHEEL
                ) {
                    return true;
                }
                self.message.point()
            },
            (Phase::Sent, Reply::Done)
            | (Phase::Focusing, Reply::Done)
            | (Phase::Passing, Reply::Done)
            | (Phase::Consuming, Reply::Done) => {
                return true;
            },
            _ => {
                return false;
            },
        };
        !state.bounds.contains(p) || (p.x.checked_sub(state.bounds.left).is_some()
            && p.y.checked_sub(state.bounds.top).is_some())
    }

    /// Takes the reply to the last action, or `Done` at the start, and gives the
    /// next action. `PassOn` and `Consume` end the handling.
    pub fn step(&mut self, state: &mut InputState, reply: Reply) -> (action: Action)
        requires
            old(self).well_formed(),
            old(self).expects(reply),
            old(self).in_range(*old(state), reply),
        ensures
            final(self).well_formed(),
            final(self).message == old(self).message,
            (final(self).phase, *final(state), action) == old(self).next(*old(state), reply),
    {
        match self.phase {
            Phase::Start => {
                if matches!(self.message.msg, WM_SIZE | WM_DPICHANGED) && state.auto_resize {
                    self.phase = Phase::Resizing;
                    Action::QueryClientRect
                } else if matches!(self.message.msg, WM_MOVE | WM_MOVING | WM_ENTERSIZEMOVE) {
                    self.phase = Phase::Routing;
                    Action::NotifyParentMoved
                } else {
                    self.route(state)
                }
            },
            Phase::Resizing => match reply {
                Reply::ClientRect(bounds) => {
                    state.bounds = bounds;
                    self.phase = Phase::Routing;
                    Action::SetControllerBounds(bounds)
                },
                _ => Action::PassOn,
            },
            Phase::Routing => self.route(state),
            Phase::Pointing => match reply {
                Reply::Cursor(Some(cursor)) => {
                    self.phase = Phase::Consuming;
                    Action::ShowCursor(cursor)
                },
                _ => {
                    self.phase = Phase::Finished;
                    Action::PassOn
                },
            },
            Phase::Placing => match (self.message.mouse_kind(), reply) {
                (Some(kind), Reply::ClientPoint(p)) => self.place(state, kind, p),
                _ => Action::PassOn,
            },
            Phase::Sent => {
                if matches!(self.message.msg, WM_LBUTTONDOWN | WM_RBUTTONDOWN | WM_MBUTTONDOWN) {
                    self.phase = Phase::Focusing;
                    Action::FocusWindow
                } else if self.message.msg == WM_MOUSEMOVE {
                    self.phase = Phase::Passing;
                    Action::TrackLeave
                } else {
                    self.phase = Phase::Finished;
                    Action::PassOn
                }
            },
            Phase::Focusing => {
                self.phase = Phase::Passing;
                Action::MoveFocus
            },
            Phase::Passing => {
                self.phase = Phase::Finished;
                Action::PassOn
            },
            Phase::Consuming => {
                self.phase = Phase::Finished;
                Action::Consume
            },
            Phase::Finished => Action::PassOn,
        }
    }
}

/// Every message can be handled over bounds whose extents can be written in 32
/// bits.
pub proof fn law_measurable_bounds_are_in_range(d: Dispatch, state: InputState, reply: Reply)
    requires
        crate::geometry::fits(state.bounds.width()),
        crate::geometry::fits(state.bounds.height()),
    ensures
        d.in_range(state, reply),
{
}

} // verus!
