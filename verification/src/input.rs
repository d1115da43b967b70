//! What a composited web view remembers about its input.

use vstd::prelude::*;

use crate::geometry::PixelRect;

verus! {

/// Whether mouse input over the web view goes to the web view.
#[derive(Clone, Copy, Debug, PartialEq, Eq, Structural)]
pub enum HitTestMode {
    /// The web view takes the input.
    Normal,
    /// The input goes to whatever lies behind the web view.
    Passthrough,
}

/// The state that decides what becomes of a window message.
#[derive(Clone, Copy, Debug, PartialEq, Eq, Structural)]
pub struct InputState {
    /// The part of the client area that the web view occupies.
    pub bounds: PixelRect,
    pub mode: HitTestMode,
    pub visible: bool,
    /// Whether the mouse was over the web view when it was last seen.
    pub hovered: bool,
    /// Whether the web view follows the size of the client area.
    pub auto_resize: bool,
}

impl InputState {
    /// Whether the web view takes input at all.
    pub open spec fn takes_input(self) -> bool {
        self.visible && self.mode != HitTestMode::Passthrough
    }

    /// The state of a web view that was just placed at `bounds`.
    pub open spec fn fresh(bounds: PixelRect, mode: HitTestMode, auto_resize: bool) -> InputState {
        InputState { bounds, mode, visible: true, hovered: false, auto_resize }
    }

    /// The state of a web view that was just placed at `bounds`: it is visible,
    /// and the mouse has not been seen over it.
    pub fn new(bounds: PixelRect, mode: HitTestMode, auto_resize: bool) -> (state: InputState)
        ensures
            state == InputState::fresh(bounds, mode, auto_resize),
            state == (InputState { bounds, mode, visible: true, hovered: false, auto_resize }),
    {
        InputState { bounds, mode, visible: true, hovered: false, auto_resize }
    }

    /// Tells whether the web view takes input at all.
    pub fn accepts(&self) -> (r: bool)
        ensures
            r == self.takes_input(),
            r <==> self.visible && self.mode == HitTestMode::Normal,
    {
        !(!self.visible || self.mode == HitTestMode::Passthrough)
    }
}

/// The number of the first subclass.
pub const FIRST_SUBCLASS_ID: usize = 0x1000;

/// The number that the `n`th subclass gets, counted from zero. The numbers start
/// over at zero once the machine word is used up.
pub open spec fn subclass_id(n: nat) -> int {
    (FIRST_SUBCLASS_ID + n) % (usize::MAX + 1)
}

/// The number after `id`.
pub open spec fn following(id: usize) -> usize {
    if id == usize::MAX {
        0
    } else {
        (id + 1) as usize
    }
}

/// Hands out the numbers that tell window subclasses apart.
#[derive(Debug, PartialEq, Eq)]
pub struct SubclassIds {
    next: usize,
}

impl SubclassIds {
    /// The number that is handed out next.
    pub closed spec fn upcoming(self) -> usize {
        self.next
    }

    /// A fresh supply.
    pub fn new() -> (ids: SubclassIds)
        ensures
            ids.upcoming() == FIRST_SUBCLASS_ID,
            ids.upcoming() == 0x1000,
    {
        SubclassIds { next: FIRST_SUBCLASS_ID }
    }

    /// Takes the next number. The supply wraps around at the end of the machine word.
    pub fn allocate(&mut self) -> (id: usize)
        ensures
            id == old(self).upcoming(),
            final(self).upcoming() == following(id),
            id < usize::MAX ==> final(self).upcoming() == id + 1,
            id == usize::MAX ==> final(self).upcoming() == 0,
    {
        let id: usize = self.next;
        self.next = id.wrapping_add(1);
        id
    }
}

/// A new web view is where it was put, behaves as it was told, can be seen, and has
/// not seen the mouse.
pub proof fn law_new_views_are_as_told(bounds: PixelRect, mode: HitTestMode, auto_resize: bool)
    ensures
        ({
            let state = InputState::fresh(bounds, mode, auto_resize);
            &&& state.bounds == bounds
            &&& state.mode == mode
            &&& state.auto_resize == auto_resize
            &&& state.visible
            &&& !state.hovered
        }),
{
}

/// Each number is followed by the next larger one, and the largest by zero.
pub proof fn law_numbers_count_up(id: usize)
    ensures
        id < usize::MAX ==> following(id) == id + 1,
        id == usize::MAX ==> following(id) == 0,
{
}

/// A web view takes input exactly when it is visible and not told to let input
/// through. Where it is, whether the mouse is over it and whether it follows the
/// window's size have no say in it.
pub proof fn law_visible_normal_views_take_input(state: InputState)
    ensures
        state.takes_input() <==> state.visible && state.mode == HitTestMode::Normal,
{
}

/// A fresh supply hands out the numbers in order: taking one leads from each
/// number to the one after it.
pub proof fn law_ids_follow_each_other(n: nat)
    ensures
        0 <= subclass_id(n) <= usize::MAX,
        subclass_id(0) == FIRST_SUBCLASS_ID,
        subclass_id(0) == 0x1000,
        subclass_id(n + 1) == following(subclass_id(n) as usize),
{
    let m: int = usize::MAX + 1;
    let k: int = FIRST_SUBCLASS_ID + n;
    vstd::arithmetic::div_mod::lemma_mod_bound(k, m);
    vstd::arithmetic::div_mod::lemma_add_mod_noop_right(1, k, m);
    vstd::arithmetic::div_mod::lemma_small_mod(FIRST_SUBCLASS_ID as nat, m as nat);
    if k % m == usize::MAX {
        vstd::arithmetic::div_mod::lemma_mod_self_0(m);
    } else {
        vstd::arithmetic::div_mod::lemma_small_mod((1 + k % m) as nat, m as nat);
    }
}

/// No two subclasses share a number unless a whole machine word of others was
/// handed out between them.
pub proof fn law_ids_are_distinct(a: nat, b: nat)
    requires
        a < b,
        b - a <= usize::MAX,
    ensures
        subclass_id(a) != subclass_id(b),
{
    let m: int = usize::MAX + 1;
    let x: int = FIRST_SUBCLASS_ID + a;
    let y: int = FIRST_SUBCLASS_ID + b;
    if x % m == y % m {
        vstd::arithmetic::div_mod::lemma_mod_equivalence(y, x, m);
        vstd::arithmetic::div_mod::lemma_small_mod((y - x) as nat, m as nat);
    }
}

/// The input side of a web view that is attached to a window.
#[derive(Clone, Copy, Debug, PartialEq, Eq, Structural)]
pub struct InputHandle {
    /// The window whose messages are watched.
    pub parent: isize,
    /// The number under which they are watched.
    pub id: usize,
    pub state: InputState,
}

impl InputHandle {
    /// Attaches to `parent` under a number of its own.
    pub fn install(
        ids: &mut SubclassIds,
        parent: isize,
        bounds: PixelRect,
        mode: HitTestMode,
        auto_resize: bool,
    ) -> (handle: InputHandle)
        ensures
            handle.parent == parent,
            handle.id == old(ids).upcoming(),
            handle.state == InputState::fresh(bounds, mode, auto_resize),
            handle.state == (InputState {
                bounds,
                mode,
                visible: true,
                hovered: false,
                auto_resize,
            }),
            final(ids).upcoming() == following(handle.id),
            handle.id < usize::MAX ==> final(ids).upcoming() == handle.id + 1,
            handle.id == usize::MAX ==> final(ids).upcoming() == 0,
    {
        let id: usize = ids.allocate();
        InputHandle { parent, id, state: InputState::new(bounds, mode, auto_resize) }
    }

    /// Says where the web view is now.
    pub fn set_bounds(&mut self, bounds: PixelRect)
        ensures
            *final(self) == (InputHandle {
                state: InputState { bounds, ..old(self).state },
                ..*old(self)
            }),
    {
        self.state.bounds = bounds;
    }

    /// Says whether the web view takes input.
    pub fn set_mode(&mut self, mode: HitTestMode)
        ensures
            *final(self) == (InputHandle {
                state: InputState { mode, ..old(self).state },
                ..*old(self)
            }),
    {
        self.state.mode = mode;
    }

    /// Says whether the web view can be seen.
    pub fn set_visible(&mut self, visible: bool)
        ensures
            *final(self) == (InputHandle {
                state: InputState { visible, ..old(self).state },
                ..*old(self)
            }),
    {
        self.state.visible = visible;
    }
}

} // verus!
