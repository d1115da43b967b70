//! The controller of a composited web view.

use vstd::prelude::*;

use crate::geometry::PixelRect;
use crate::input::{HitTestMode, InputHandle, SubclassIds};
use crate::plan::{OnFailure, Plan};

verus! {

/// A step on the way to a working controller.
#[derive(Clone, Copy, Debug, PartialEq, Eq, Structural)]
pub enum SetupStep {
    /// See whether the environment can make composition controllers.
    CastEnvironment,
    /// Ask it for one.
    RequestController,
    /// Wait until it is there.
    AwaitController,
    /// Get at the controller's common interface.
    CastController,
    /// Get the host of the window.
    OpenHost,
    /// Put a visual for the web view into the host's tree.
    AddVisual,
    /// Have the web view draw into the visual.
    SetRootVisualTarget,
    /// Have cursor changes reported.
    SubscribeCursorChanged,
}

/// A step of moving the web view's visual.
#[derive(Clone, Copy, Debug, PartialEq, Eq, Structural)]
pub enum PlacementStep {
    /// Set the horizontal offset.
    OffsetX(i32),
    /// Set the vertical offset.
    OffsetY(i32),
    /// Commit the change on the device.
    Commit,
}

/// A step of showing or hiding the web view.
#[derive(Clone, Copy, Debug, PartialEq, Eq, Structural)]
pub enum VisibilityStep {
    /// Tell the controller.
    SetIsVisible(bool),
}

/// A step of taking the controller down.
#[derive(Clone, Copy, Debug, PartialEq, Eq, Structural)]
pub enum TeardownStep {
    /// Stop the reports of cursor changes that were subscribed to under this token.
    UnsubscribeCursorChanged(i64),
    /// Take the visual out of the host's tree.
    RemoveVisual,
    /// Close the controller.
    Close,
}

/// Why no controller came of a request.
#[derive(Debug, PartialEq, Eq)]
pub enum CompletionError<E> {
    /// The request failed with this error.
    Reported(E),
    /// The request succeeded, and yet there was no controller.
    NoController,
}

/// What `status` and `controller` come to together.
pub open spec fn completed<T, E>(status: Result<(), E>, controller: Option<T>) -> Result<
    T,
    CompletionError<E>,
> {
    match (status, controller) {
        (Err(e), _) => Err(CompletionError::Reported(e)),
        (Ok(()), None) => Err(CompletionError::NoController),
        (Ok(()), Some(c)) => Ok(c),
    }
}

/// The cursor that `asked` comes to.
pub open spec fn cursor_answer<E>(asked: Option<Result<isize, E>>) -> Result<Option<isize>, E> {
    match asked {
        None => Ok(None),
        Some(Ok(cursor)) => Ok(Some(cursor)),
        Some(Err(e)) => Err(e),
    }
}

/// What a completed request has come to: the controller, unless an error was
/// reported or none was handed over.
pub fn completion<T, E>(status: Result<(), E>, controller: Option<T>) -> (r: Result<
    T,
    CompletionError<E>,
>)
    ensures
        r == completed(status, controller),
        r == match (status, controller) {
            (Err(e), _) => Err(CompletionError::Reported(e)),
            (Ok(()), None) => Err(CompletionError::NoController),
            (Ok(()), Some(c)) => Ok(c),
        },
{
    match status {
        Err(e) => Err(CompletionError::Reported(e)),
        Ok(()) => match controller {
            Some(c) => Ok(c),
            None => Err(CompletionError::NoController),
        },
    }
}

/// Which cursor to show when a change was reported. `asked` is what the sender
/// said its cursor is, or nothing where the report had no sender.
pub fn cursor_to_show<E>(asked: Option<Result<isize, E>>) -> (r: Result<Option<isize>, E>)
    ensures
        r == cursor_answer(asked),
        r == match asked {
            None => Ok(None),
            Some(Ok(cursor)) => Ok(Some(cursor)),
            Some(Err(e)) => Err(e),
        },
{
    match asked {
        None => Ok(None),
        Some(Ok(cursor)) => Ok(Some(cursor)),
        Some(Err(e)) => Err(e),
    }
}

/// The steps that set a controller up.
pub open spec fn setup_steps() -> Seq<SetupStep> {
    seq![
        SetupStep::CastEnvironment,
        SetupStep::RequestController,
        SetupStep::AwaitController,
        SetupStep::CastController,
        SetupStep::OpenHost,
        SetupStep::AddVisual,
        SetupStep::SetRootVisualTarget,
        SetupStep::SubscribeCursorChanged,
    ]
}

/// How a controller is set up. The first failure ends it.
pub fn setup<E>() -> (plan: Plan<SetupStep, E>)
    ensures
        plan@ == crate::plan::PlanView::<SetupStep, E>::fresh(
            setup_steps(),
            OnFailure::Stop,
        ),
        plan@.steps == seq![
            SetupStep::CastEnvironment,
            SetupStep::RequestController,
            SetupStep::AwaitController,
            SetupStep::CastController,
            SetupStep::OpenHost,
            SetupStep::AddVisual,
            SetupStep::SetRootVisualTarget,
            SetupStep::SubscribeCursorChanged,
        ],
{
    Plan::new(
        vec![
            SetupStep::CastEnvironment,
            SetupStep::RequestController,
            SetupStep::AwaitController,
            SetupStep::CastController,
            SetupStep::OpenHost,
            SetupStep::AddVisual,
            SetupStep::SetRootVisualTarget,
            SetupStep::SubscribeCursorChanged,
        ],
        OnFailure::Stop,
    )
}

/// The steps that move the visual to the corner of `rect`.
pub open spec fn placement_steps(rect: PixelRect) -> Seq<PlacementStep> {
    seq![
        PlacementStep::OffsetX(rect.left),
        PlacementStep::OffsetY(rect.top),
        PlacementStep::Commit,
    ]
}

/// How the visual is moved to the corner of `rect`. The first failure ends it.
pub fn placement<E>(rect: PixelRect) -> (plan: Plan<PlacementStep, E>)
    ensures
        plan@ == crate::plan::PlanView::<PlacementStep, E>::fresh(
            placement_steps(rect),
            OnFailure::Stop,
        ),
        plan@.steps.len() == 3,
        plan@.steps[0] == PlacementStep::OffsetX(rect.left),
        plan@.steps[1] == PlacementStep::OffsetY(rect.top),
        plan@.steps[2] == PlacementStep::Commit,
{
    Plan::new(
        vec![
            PlacementStep::OffsetX(rect.left),
            PlacementStep::OffsetY(rect.top),
            PlacementStep::Commit,
        ],
        OnFailure::Stop,
    )
}

/// The steps that show or hide the web view.
pub open spec fn visibility_steps(visible: bool) -> Seq<VisibilityStep> {
    seq![VisibilityStep::SetIsVisible(visible)]
}

/// The steps that take down a controller which goes by `token`.
pub open spec fn teardown_steps(token: i64) -> Seq<TeardownStep> {
    seq![
        TeardownStep::UnsubscribeCursorChanged(token),
        TeardownStep::RemoveVisual,
        TeardownStep::Close,
    ]
}

/// How the web view is shown or hidden.
pub fn visibility<E>(visible: bool) -> (plan: Plan<VisibilityStep, E>)
    ensures
        plan@ == crate::plan::PlanView::<VisibilityStep, E>::fresh(
            visibility_steps(visible),
            OnFailure::Stop,
        ),
        plan@.steps.len() == 1,
        plan@.steps[0] == VisibilityStep::SetIsVisible(visible),
{
    let steps = vec![VisibilityStep::SetIsVisible(visible)];
    assert(steps@ == visibility_steps(visible));
    Plan::new(steps, OnFailure::Stop)
}

/// What a controller remembers. `B` is how the embedder writes bounds.
#[derive(Clone, Copy, Debug, PartialEq, Eq)]
pub struct CompositionWebViewController<B> {
    pub input: InputHandle,
    pub bounds: B,
    pub cursor_changed_token: i64,
}

impl<B> CompositionWebViewController<B> {
    /// The controller with nothing changed but its place: it reports `bounds`, and
    /// takes input over `rect`.
    pub open spec fn at(self, bounds: B, rect: PixelRect) -> CompositionWebViewController<B> {
        CompositionWebViewController {
            input: InputHandle {
                state: crate::input::InputState { bounds: rect, ..self.input.state },
                ..self.input
            },
            bounds,
            ..self
        }
    }

    /// The controller with nothing changed but its hit test mode.
    pub open spec fn in_mode(self, mode: HitTestMode) -> CompositionWebViewController<B> {
        CompositionWebViewController {
            input: InputHandle {
                state: crate::input::InputState { mode, ..self.input.state },
                ..self.input
            },
            ..self
        }
    }

    /// The controller with nothing changed but its visibility.
    pub open spec fn shown(self, visible: bool) -> CompositionWebViewController<B> {
        CompositionWebViewController {
            input: InputHandle {
                state: crate::input::InputState { visible, ..self.input.state },
                ..self.input
            },
            ..self
        }
    }

    /// A controller on `parent`. It takes input, covers nothing yet, and reports
    /// `bounds` until it is moved.
    pub fn new(
        ids: &mut SubclassIds,
        parent: isize,
        auto_resize: bool,
        bounds: B,
        cursor_changed_token: i64,
    ) -> (controller: CompositionWebViewController<B>)
        ensures
            controller.bounds == bounds,
            controller.cursor_changed_token == cursor_changed_token,
            controller.input == (InputHandle {
                parent,
                id: old(ids).upcoming(),
                state: crate::input::InputState {
                    bounds: PixelRect { left: 0, top: 0, right: 0, bottom: 0 },
                    mode: HitTestMode::Normal,
                    visible: true,
                    hovered: false,
                    auto_resize,
                },
            }),
            final(ids).upcoming() == crate::input::following(old(ids).upcoming()),
    {
        let input = InputHandle::install(
            ids,
            parent,
            PixelRect::zero(),
            HitTestMode::Normal,
            auto_resize,
        );
        CompositionWebViewController { input, bounds, cursor_changed_token }
    }

    /// Moves the web view to `bounds`, which come to `rect` in pixels, once the
    /// visual was moved. Where that failed nothing changes.
    pub fn set_bounds<E>(&mut self, bounds: B, rect: PixelRect, moved: Result<(), E>) -> (r: Result<
        (),
        E,
    >)
        ensures
            r == moved,
            moved is Ok ==> *final(self) == old(self).at(bounds, rect),
            moved is Ok ==> final(self).bounds == bounds,
            moved is Ok ==> final(self).input.state.bounds == rect,
            final(self).input.state.mode == old(self).input.state.mode,
            final(self).input.state.visible == old(self).input.state.visible,
            final(self).input.state.hovered == old(self).input.state.hovered,
            final(self).input.state.auto_resize == old(self).input.state.auto_resize,
            final(self).input.parent == old(self).input.parent,
            final(self).input.id == old(self).input.id,
            final(self).cursor_changed_token == old(self).cursor_changed_token,
            moved is Err ==> *final(self) == *old(self),
    {
        if moved.is_ok() {
            self.input.set_bounds(rect);
            self.bounds = bounds;
        }
        moved
    }

    /// Says whether the web view takes input.
    pub fn set_hit_test_mode(&mut self, mode: HitTestMode)
        ensures
            *final(self) == old(self).in_mode(mode),
            final(self).input.state.mode == mode,
            final(self).bounds == old(self).bounds,
            final(self).input.state.bounds == old(self).input.state.bounds,
            final(self).input.state.visible == old(self).input.state.visible,
            final(self).input.state.hovered == old(self).input.state.hovered,
            final(self).input.state.auto_resize == old(self).input.state.auto_resize,
            final(self).input.parent == old(self).input.parent,
            final(self).input.id == old(self).input.id,
            final(self).cursor_changed_token == old(self).cursor_changed_token,
    {
        self.input.set_mode(mode);
    }

    /// Shows or hides the web view, once the controller was told. Where that
    /// failed nothing changes.
    pub fn set_visible<E>(&mut self, visible: bool, told: Result<(), E>) -> (r: Result<(), E>)
        ensures
            r == told,
            told is Ok ==> *final(self) == old(self).shown(visible),
            told is Ok ==> final(self).input.state.visible == visible,
            final(self).bounds == old(self).bounds,
            final(self).input.state.bounds == old(self).input.state.bounds,
            final(self).input.state.mode == old(self).input.state.mode,
            final(self).input.state.hovered == old(self).input.state.hovered,
            final(self).input.state.auto_resize == old(self).input.state.auto_resize,
            final(self).input.parent == old(self).input.parent,
            final(self).input.id == old(self).input.id,
            final(self).cursor_changed_token == old(self).cursor_changed_token,
            told is Err ==> *final(self) == *old(self),
    {
        if told.is_ok() {
            self.input.set_visible(visible);
        }
        told
    }

    /// How the controller is taken down. Failures do not stand in the way.
    pub fn teardown<E>(&self) -> (plan: Plan<TeardownStep, E>)
        ensures
            plan@ == crate::plan::PlanView::<TeardownStep, E>::fresh(
                teardown_steps(self.cursor_changed_token),
                OnFailure::Continue,
            ),
            plan@.steps.len() == 3,
            plan@.steps[0] == TeardownStep::UnsubscribeCursorChanged(self.cursor_changed_token),
            plan@.steps[1] == TeardownStep::RemoveVisual,
            plan@.steps[2] == TeardownStep::Close,
    {
        Plan::new(
            vec![
                TeardownStep::UnsubscribeCursorChanged(self.cursor_changed_token),
                TeardownStep::RemoveVisual,
                TeardownStep::Close,
            ],
            OnFailure::Continue,
        )
    }
}

impl<B: Copy> CompositionWebViewController<B> {
    /// The bounds that the web view was moved to last.
    pub fn bounds(&self) -> (bounds: B)
        ensures
            bounds == self.bounds,
    {
        self.bounds
    }
}

/// The input area goes where the visual goes: a web view that was moved takes
/// input over a rectangle whose corner is the offset that its visual was given.
pub proof fn law_input_follows_visual<B>(
    c: CompositionWebViewController<B>,
    bounds: B,
    rect: PixelRect,
)
    ensures
        c.at(bounds, rect).bounds == bounds,
        c.at(bounds, rect).input.state.bounds == rect,
        placement_steps(rect).contains(
            PlacementStep::OffsetX(c.at(bounds, rect).input.state.bounds.left),
        ),
        placement_steps(rect).contains(
            PlacementStep::OffsetY(c.at(bounds, rect).input.state.bounds.top),
        ),
{
    assert(placement_steps(rect)[0] == PlacementStep::OffsetX(rect.left));
    assert(placement_steps(rect)[1] == PlacementStep::OffsetY(rect.top));
}

/// Place, mode and visibility are independent of each other, and of the order in
/// which they are set.
pub proof fn law_settings_are_independent<B>(
    c: CompositionWebViewController<B>,
    bounds: B,
    rect: PixelRect,
    mode: HitTestMode,
    visible: bool,
)
    ensures
        c.at(bounds, rect).in_mode(mode) == c.in_mode(mode).at(bounds, rect),
        c.at(bounds, rect).shown(visible) == c.shown(visible).at(bounds, rect),
        c.in_mode(mode).shown(visible) == c.shown(visible).in_mode(mode),
{
}

/// Whatever is set, the controller goes on watching the same window under the
/// same number, and goes by the same token.
pub proof fn law_settings_keep_identity<B>(
    c: CompositionWebViewController<B>,
    bounds: B,
    rect: PixelRect,
    mode: HitTestMode,
    visible: bool,
)
    ensures
        ({
            let d = c.at(bounds, rect).in_mode(mode).shown(visible);
            &&& d.input.parent == c.input.parent
            &&& d.input.id == c.input.id
            &&& d.input.state.hovered == c.input.state.hovered
            &&& d.input.state.auto_resize == c.input.state.auto_resize
            &&& d.cursor_changed_token == c.cursor_changed_token
        }),
{
}

/// Moving the visual takes three steps: one sets the horizontal offset to the left
/// edge, one sets the vertical offset to the top edge, and the commit comes last,
/// for every rectangle.
pub proof fn law_moves_are_committed(rect: PixelRect)
    ensures
        placement_steps(rect).len() == 3,
        placement_steps(rect)[0] == PlacementStep::OffsetX(rect.left),
        placement_steps(rect)[1] == PlacementStep::OffsetY(rect.top),
        placement_steps(rect).last() == PlacementStep::Commit,
{
}

/// Showing and hiding takes one step, which tells the controller the very value
/// that was asked for.
pub proof fn law_visibility_is_told(visible: bool)
    ensures
        visibility_steps(visible).len() == 1,
        visibility_steps(visible)[0] == VisibilityStep::SetIsVisible(visible),
{
}

/// Taking down a controller ends the subscription of its own token, then removes
/// the visual, and closes the controller last.
pub proof fn law_teardown_is_complete(token: i64)
    ensures
        teardown_steps(token).len() == 3,
        teardown_steps(token)[0] == TeardownStep::UnsubscribeCursorChanged(token),
        teardown_steps(token)[1] == TeardownStep::RemoveVisual,
        teardown_steps(token).last() == TeardownStep::Close,
{
}

/// A setting takes the value that it is given, whatever it was before, and the
/// other settings stay what they were.
pub proof fn law_settings_take_effect<B>(
    c: CompositionWebViewController<B>,
    bounds: B,
    rect: PixelRect,
    mode: HitTestMode,
    visible: bool,
)
    ensures
        c.shown(visible).input.state.visible == visible,
        c.shown(visible).input.state.mode == c.input.state.mode,
        c.shown(visible).input.state.bounds == c.input.state.bounds,
        c.shown(visible).bounds == c.bounds,
        c.in_mode(mode).input.state.mode == mode,
        c.in_mode(mode).input.state.visible == c.input.state.visible,
        c.in_mode(mode).input.state.bounds == c.input.state.bounds,
        c.in_mode(mode).bounds == c.bounds,
        c.at(bounds, rect).bounds == bounds,
        c.at(bounds, rect).input.state.bounds == rect,
        c.at(bounds, rect).input.state.mode == c.input.state.mode,
        c.at(bounds, rect).input.state.visible == c.input.state.visible,
{
}

/// A web view that is hidden and shown again, or let through and switched back, is
/// the web view that it was: the later setting undoes the earlier.
pub proof fn law_later_settings_win<B>(
    c: CompositionWebViewController<B>,
    earlier: bool,
    before: HitTestMode,
)
    ensures
        c.shown(earlier).shown(c.input.state.visible) == c,
        c.in_mode(before).in_mode(c.input.state.mode) == c,
{
}

/// A web view at `rect` that was made visible and switched to take input takes it,
/// whatever it was before; one that was hidden or let through takes none.
pub proof fn law_settings_decide_input<B>(
    c: CompositionWebViewController<B>,
    bounds: B,
    rect: PixelRect,
    mode: HitTestMode,
    visible: bool,
)
    ensures
        c.at(bounds, rect).in_mode(mode).shown(visible).input.state.takes_input() <==> visible
            && mode == HitTestMode::Normal,
{
}

/// A request gives a controller exactly when it succeeded and one was handed over,
/// and then that one. A reported error comes back as it is, even beside a
/// controller.
pub proof fn law_requests_give_what_was_handed_over<T, E>(
    status: Result<(), E>,
    controller: Option<T>,
)
    ensures
        completed(status, controller) is Ok <==> status is Ok && controller is Some,
        completed(status, controller) is Ok ==> controller == Some(
            completed(status, controller)->Ok_0,
        ),
        status matches Err(e) ==> completed(status, controller) == Err::<T, CompletionError<E>>(
            CompletionError::Reported(e),
        ),
        status is Ok && controller is None ==> completed(status, controller) == Err::<
            T,
            CompletionError<E>,
        >(CompletionError::NoController),
{
}

/// A reported change shows the very cursor that its sender gave. Nothing is shown
/// where there is no sender, and an error of the sender comes back as it is.
pub proof fn law_reported_cursor_is_shown<E>(cursor: isize, error: E)
    ensures
        cursor_answer(Some(Ok::<isize, E>(cursor))) == Ok::<Option<isize>, E>(Some(cursor)),
        cursor_answer(Some(Err::<isize, E>(error))) == Err::<Option<isize>, E>(error),
        cursor_answer(None::<Result<isize, E>>) == Ok::<Option<isize>, E>(None),
{
}

/// A controller is asked for before it is waited for, and used only once it is
/// there; the visual is added to a host that was opened, before it is drawn into;
/// and no step is taken twice.
pub proof fn law_setup_builds_on_earlier_steps()
    ensures
        setup_steps().len() == 8,
        setup_steps()[0] == SetupStep::CastEnvironment,
        setup_steps()[1] == SetupStep::RequestController,
        setup_steps()[2] == SetupStep::AwaitController,
        setup_steps()[3] == SetupStep::CastController,
        setup_steps()[4] == SetupStep::OpenHost,
        setup_steps()[5] == SetupStep::AddVisual,
        setup_steps()[6] == SetupStep::SetRootVisualTarget,
        setup_steps()[7] == SetupStep::SubscribeCursorChanged,
{
}

} // verus!
