//! Window messages and what their parameters carry.

use vstd::prelude::*;

use crate::geometry::Point;
use crate::keys::{virtual_keys, VirtualKeys};

verus! {

pub const WM_MOVE: u32 = 0x0003;

pub const WM_SIZE: u32 = 0x0005;

pub const WM_SETFOCUS: u32 = 0x0007;

pub const WM_SETCURSOR: u32 = 0x0020;

pub const WM_MOUSEMOVE: u32 = 0x0200;

pub const WM_LBUTTONDOWN: u32 = 0x0201;

pub const WM_LBUTTONUP: u32 = 0x0202;

pub const WM_RBUTTONDOWN: u32 = 0x0204;

pub const WM_RBUTTONUP: u32 = 0x0205;

pub const WM_MBUTTONDOWN: u32 = 0x0207;

pub const WM_MBUTTONUP: u32 = 0x0208;

pub const WM_MOUSEWHEEL: u32 = 0x020a;

pub const WM_MOUSEHWHEEL: u32 = 0x020e;

pub const WM_MOVING: u32 = 0x0216;

pub const WM_ENTERSIZEMOVE: u32 = 0x0231;

pub const WM_MOUSELEAVE_MESSAGE: u32 = 0x02a3;

pub const WM_DPICHANGED: u32 = 0x02e0;

/// What a mouse event tells the web view.
#[derive(Clone, Copy, Debug, PartialEq, Eq, Structural)]
pub enum MouseEventKind {
    Move,
    LeftButtonDown,
    LeftButtonUp,
    RightButtonDown,
    RightButtonUp,
    MiddleButtonDown,
    MiddleButtonUp,
    Wheel,
    HorizontalWheel,
    Leave,
}

/// A message as a window procedure gets it.
#[derive(Clone, Copy, Debug, PartialEq, Eq, Structural)]
pub struct Message {
    pub msg: u32,
    pub wparam: usize,
    pub lparam: isize,
}

/// The low 16 bits of `n`, read as a signed number.
pub open spec fn signed_word(n: int) -> int {
    (n + 0x8000) % 0x1_0000 - 0x8000
}

impl Message {
    /// The kind of mouse event that the message stands for, if it is one that a
    /// web view is told of.
    pub open spec fn kind(self) -> Option<MouseEventKind> {
        if self.msg == WM_MOUSEMOVE {
            Some(MouseEventKind::Move)
        } else if self.msg == WM_LBUTTONDOWN {
            Some(MouseEventKind::LeftButtonDown)
        } else if self.msg == WM_LBUTTONUP {
            Some(MouseEventKind::LeftButtonUp)
        } else if self.msg == WM_RBUTTONDOWN {
            Some(MouseEventKind::RightButtonDown)
        } else if self.msg == WM_RBUTTONUP {
            Some(MouseEventKind::RightButtonUp)
        } else if self.msg == WM_MBUTTONDOWN {
            Some(MouseEventKind::MiddleButtonDown)
        } else if self.msg == WM_MBUTTONUP {
            Some(MouseEventKind::MiddleButtonUp)
        } else if self.msg == WM_MOUSEWHEEL {
            Some(MouseEventKind::Wheel)
        } else if self.msg == WM_MOUSEHWHEEL {
            Some(MouseEventKind::HorizontalWheel)
        } else if self.msg == WM_MOUSELEAVE_MESSAGE {
            Some(MouseEventKind::Leave)
        } else {
            None
        }
    }

    /// Whether the message turns a mouse wheel.
    pub open spec fn turns_wheel(self) -> bool {
        self.msg == WM_MOUSEWHEEL || self.msg == WM_MOUSEHWHEEL
    }

    /// Whether the message presses a mouse button.
    pub open spec fn presses_button(self) -> bool {
        self.msg == WM_LBUTTONDOWN || self.msg == WM_RBUTTONDOWN || self.msg == WM_MBUTTONDOWN
    }

    /// Whether the client area may have a new size.
    pub open spec fn resizes(self) -> bool {
        self.msg == WM_SIZE || self.msg == WM_DPICHANGED
    }

    /// Whether the window goes, or is about to go, somewhere else.
    pub open spec fn relocates(self) -> bool {
        self.msg == WM_MOVE || self.msg == WM_MOVING || self.msg == WM_ENTERSIZEMOVE
    }

    /// The point in the low and high words of the second parameter.
    pub open spec fn packed_point(self) -> Point {
        Point {
            x: signed_word(self.lparam as int) as i32,
            y: signed_word(self.lparam as int / 0x1_0000) as i32,
        }
    }

    /// The keys in the low word of the first parameter.
    pub open spec fn held_keys(self) -> VirtualKeys {
        crate::keys::keys_of((self.wparam as int % 0x1_0000) as u32)
    }

    /// What goes with the event: for a wheel the signed amount in the high word
    /// of the first parameter, in two's complement, and zero for all others.
    pub open spec fn event_data(self) -> u32 {
        if self.turns_wheel() {
            (signed_word(self.wparam as int / 0x1_0000) % 0x1_0000_0000) as u32
        } else {
            0
        }
    }

    /// Tells which kind of mouse event the message is.
    pub fn mouse_kind(&self) -> (kind: Option<MouseEventKind>)
        ensures
            kind == self.kind(),
            kind == Some(MouseEventKind::Move) <==> self.msg == 0x0200,
            kind == Some(MouseEventKind::LeftButtonDown) <==> self.msg == 0x0201,
            kind == Some(MouseEventKind::LeftButtonUp) <==> self.msg == 0x0202,
            kind == Some(MouseEventKind::RightButtonDown) <==> self.msg == 0x0204,
            kind == Some(MouseEventKind::RightButtonUp) <==> self.msg == 0x0205,
            kind == Some(MouseEventKind::MiddleButtonDown) <==> self.msg == 0x0207,
            kind == Some(MouseEventKind::MiddleButtonUp) <==> self.msg == 0x0208,
            kind == Some(MouseEventKind::Wheel) <==> self.msg == 0x020a,
            kind == Some(MouseEventKind::HorizontalWheel) <==> self.msg == 0x020e,
            kind == Some(MouseEventKind::Leave) <==> self.msg == 0x02a3,
    {
        match self.msg {
            WM_MOUSEMOVE => Some(MouseEventKind::Move),
            WM_LBUTTONDOWN => Some(MouseEventKind::LeftButtonDown),
            WM_LBUTTONUP => Some(MouseEventKind::LeftButtonUp),
            WM_RBUTTONDOWN => Some(MouseEventKind::RightButtonDown),
            WM_RBUTTONUP => Some(MouseEventKind::RightButtonUp),
            WM_MBUTTONDOWN => Some(MouseEventKind::MiddleButtonDown),
            WM_MBUTTONUP => Some(MouseEventKind::MiddleButtonUp),
            WM_MOUSEWHEEL => Some(MouseEventKind::Wheel),
            WM_MOUSEHWHEEL => Some(MouseEventKind::HorizontalWheel),
            WM_MOUSELEAVE_MESSAGE => Some(MouseEventKind::Leave),
            _ => None,
        }
    }

    /// Unpacks the point.
    pub fn point(&self) -> (p: Point)
        ensures
            p.x == signed_word(self.lparam as int),
            p.y == signed_word(self.lparam as int / 0x1_0000),
            p == self.packed_point(),
            -0x8000 <= p.x < 0x8000,
            -0x8000 <= p.y < 0x8000,
            (self.lparam - p.x) % 0x1_0000 == 0,
            (self.lparam as int / 0x1_0000 - p.y) % 0x1_0000 == 0,
    {
        let lparam: isize = self.lparam;
        let x: i16 = lparam as i16;
        let y: i16 = (lparam >> 16) as i16;
        assert(x as int == (lparam as int + 0x8000) % 0x1_0000 - 0x8000) by (bit_vector)
            requires
                x == lparam as i16,
        ;
        assert(y as int == (lparam as int / 0x1_0000 + 0x8000) % 0x1_0000 - 0x8000) by (bit_vector)
            requires
                y == (lparam >> 16) as i16,
        ;
        Point { x: x as i32, y: y as i32 }
    }

    /// Unpacks the held keys.
    pub fn keys(&self) -> (keys: VirtualKeys)
        ensures
            keys == self.held_keys(),
            keys.bits as int == self.wparam as int % 32,
    {
        let wparam: usize = self.wparam;
        let flags: u32 = (wparam as u32) & 0xffff;
        assert(flags as int == wparam as int % 0x1_0000) by (bit_vector)
            requires
                flags == (wparam as u32) & 0xffff,
        ;
        virtual_keys(flags)
    }

    /// Unpacks what goes with the event.
    pub fn data(&self) -> (data: u32)
        ensures
            data == self.event_data(),
            self.msg != 0x020a && self.msg != 0x020e ==> data == 0,
            self.msg == 0x020a || self.msg == 0x020e ==> {
                let high = (self.wparam as int / 0x1_0000) % 0x1_0000;
                data == if high < 0x8000 {
                    high
                } else {
                    high + 0xffff_0000
                }
            },
    {
        if matches!(self.msg, WM_MOUSEWHEEL | WM_MOUSEHWHEEL) {
            let wparam: usize = self.wparam;
            let turned: i16 = (wparam >> 16) as i16;
            let data: u32 = (turned as i32) as u32;
            assert(turned as int == (wparam as int / 0x1_0000 + 0x8000) % 0x1_0000 - 0x8000)
                by (bit_vector)
                requires
                    turned == (wparam >> 16) as i16,
            ;
            assert(data as int == (turned as int) % 0x1_0000_0000) by (bit_vector)
                requires
                    data == (turned as i32) as u32,
            ;
            data
        } else {
            0
        }
    }
}

} // verus!
