use composition::controller::{
    completion, cursor_to_show, placement, setup, visibility, CompletionError,
    CompositionWebViewController, PlacementStep, SetupStep, TeardownStep, VisibilityStep,
};
use composition::geometry::PixelRect;
use composition::host::{
    add_visual, remove_visual, AttachStep, DetachStep, HostAction, HostRegistry, HostReply,
    HostSearch,
};
use composition::input::{HitTestMode, SubclassIds};
use composition::plan::{OnFailure, Plan};

/// Takes all steps of `plan`. The steps whose numbers are in `failing` fail with
/// their number.
fn take<A: Copy>(mut plan: Plan<A, usize>, failing: &[usize]) -> (Vec<A>, Result<(), usize>) {
    let mut taken = Vec::new();
    while let Some(step) = plan.current() {
        taken.push(*step);
        let number = taken.len() - 1;
        if failing.contains(&number) {
            plan.report(Err(number));
        } else {
            plan.report(Ok(()));
        }
    }
    (taken, plan.finish())
}

#[test]
fn plan_stops_at_the_first_failure() {
    let plan = || Plan::new(vec!['a', 'b', 'c'], OnFailure::Stop);
    assert_eq!(take(plan(), &[]), (vec!['a', 'b', 'c'], Ok(())));
    assert_eq!(take(plan(), &[1, 2]), (vec!['a', 'b'], Err(1)));
    assert_eq!(take(plan(), &[2]), (vec!['a', 'b', 'c'], Err(2)));
    assert_eq!(take(Plan::<char, usize>::new(vec![], OnFailure::Stop), &[0]), (vec![], Ok(())));
}

#[test]
fn plan_continues_past_failures() {
    let plan = Plan::new(vec!['a', 'b', 'c'], OnFailure::Continue);
    assert_eq!(take(plan, &[0, 2]), (vec!['a', 'b', 'c'], Ok(())));
}

/// Searches the host of `window`. The call whose number is `failing` fails with it.
fn search(
    hosts: &mut HostRegistry<char>,
    window: isize,
    alive: bool,
    failing: usize,
    handle: char,
) -> Vec<HostAction<usize>> {
    let mut search = HostSearch::for_window(window);
    let mut reply = HostReply::Begin;
    let mut done = Vec::new();
    let mut calls = 0;
    loop {
        assert!(search.can_step(&reply));
        let action = search.step(hosts, reply);
        reply = match &action {
            HostAction::Upgrade => HostReply::Alive(alive),
            HostAction::Assemble => HostReply::Handle(handle),
            HostAction::Reuse | HostAction::Deliver | HostAction::Fail(_) => {
                done.push(action);
                return done;
            }
            _ => {
                calls += 1;
                HostReply::Outcome(if calls == failing { Err(calls) } else { Ok(()) })
            }
        };
        done.push(action);
    }
}

fn creation() -> Vec<HostAction<usize>> {
    vec![
        HostAction::CreateDevice,
        HostAction::CreateTarget { topmost: true },
        HostAction::CreateVisual,
        HostAction::SetRoot,
        HostAction::Commit,
        HostAction::Assemble,
        HostAction::Deliver,
    ]
}

#[test]
fn host_is_created_once_and_shared() {
    let mut hosts = HostRegistry::new();
    assert_eq!(hosts.lookup(1), None);
    assert_eq!(search(&mut hosts, 1, false, 0, 'a'), creation());
    assert_eq!(hosts.lookup(1), Some(&'a'));
    assert_eq!(
        search(&mut hosts, 1, true, 0, 'b'),
        vec![HostAction::Upgrade, HostAction::Reuse]
    );
    assert_eq!(hosts.lookup(1), Some(&'a'));
    assert_eq!(search(&mut hosts, 2, true, 0, 'c'), creation());
    assert_eq!(hosts.lookup(1), Some(&'a'));
    assert_eq!(hosts.lookup(2), Some(&'c'));
}

#[test]
fn dead_host_is_replaced() {
    let mut hosts = HostRegistry::new();
    hosts.record(-5, 'a');
    let mut expected = vec![HostAction::Upgrade];
    expected.extend(creation());
    assert_eq!(search(&mut hosts, -5, false, 0, 'b'), expected);
    assert_eq!(hosts.lookup(-5), Some(&'b'));
}

#[test]
fn failed_host_is_not_recorded() {
    for failing in 1..6 {
        let mut hosts = HostRegistry::new();
        let done = search(&mut hosts, 1, false, failing, 'a');
        assert_eq!(done.len(), failing + 1);
        assert_eq!(done[failing], HostAction::Fail(failing));
        assert_eq!(hosts.lookup(1), None);
    }
}

#[test]
fn host_search_wants_fitting_replies() {
    let search = HostSearch::for_window(1);
    assert!(search.can_step::<char, usize>(&HostReply::Begin));
    assert!(!search.can_step::<char, usize>(&HostReply::Alive(true)));
    assert!(!search.can_step::<char, usize>(&HostReply::Outcome(Ok(()))));
    assert!(!search.can_step::<char, usize>(&HostReply::Handle('a')));
}

#[test]
fn visuals_come_and_go() {
    let attach = vec![
        AttachStep::CreateVisual,
        AttachStep::AddVisual { insert_above: false },
        AttachStep::Commit,
    ];
    assert_eq!(take(add_visual(), &[]), (attach.clone(), Ok(())));
    assert_eq!(take(add_visual(), &[1]), (attach[..2].to_vec(), Err(1)));
    let detach = vec![DetachStep::RemoveVisual, DetachStep::Commit];
    assert_eq!(take(remove_visual(), &[0, 1]), (detach, Ok(())));
}

#[test]
fn setup_in_order() {
    let steps = vec![
        SetupStep::CastEnvironment,
        SetupStep::RequestController,
        SetupStep::AwaitController,
        SetupStep::CastController,
        SetupStep::OpenHost,
        SetupStep::AddVisual,
        SetupStep::SetRootVisualTarget,
        SetupStep::SubscribeCursorChanged,
    ];
    assert_eq!(take(setup(), &[]), (steps.clone(), Ok(())));
    for k in 0..steps.len() {
        assert_eq!(take(setup(), &[k]), (steps[..k + 1].to_vec(), Err(k)));
    }
}

#[test]
fn completed_requests() {
    assert_eq!(completion::<char, usize>(Ok(()), Some('c')), Ok('c'));
    assert_eq!(
        completion::<char, usize>(Ok(()), None),
        Err(CompletionError::NoController)
    );
    assert_eq!(
        completion::<char, usize>(Err(3), Some('c')),
        Err(CompletionError::Reported(3))
    );
    assert_eq!(completion::<char, usize>(Err(3), None), Err(CompletionError::Reported(3)));
}

#[test]
fn reported_cursors() {
    assert_eq!(cursor_to_show::<usize>(None), Ok(None));
    assert_eq!(cursor_to_show::<usize>(Some(Ok(9))), Ok(Some(9)));
    assert_eq!(cursor_to_show(Some(Err(4usize))), Err(4));
}

fn controller() -> CompositionWebViewController<&'static str> {
    CompositionWebViewController::new(&mut SubclassIds::new(), 3, true, "nowhere", 11)
}

#[test]
fn new_controller_covers_nothing() {
    let c = controller();
    assert_eq!(c.bounds(), "nowhere");
    assert_eq!(c.input.parent, 3);
    assert_eq!(c.input.id, 0x1000);
    assert_eq!(c.input.state.bounds, PixelRect::zero());
    assert_eq!(c.input.state.mode, HitTestMode::Normal);
    assert!(c.input.state.visible);
    assert!(!c.input.state.hovered);
    assert!(c.input.state.auto_resize);
}

#[test]
fn moving_sets_visual_and_input() {
    let rect = PixelRect { left: 4, top: -2, right: 10, bottom: 20 };
    let (steps, moved) = take(placement(rect), &[]);
    assert_eq!(
        steps,
        vec![PlacementStep::OffsetX(4), PlacementStep::OffsetY(-2), PlacementStep::Commit]
    );
    let mut c = controller();
    assert_eq!(c.set_bounds("here", rect, moved), Ok(()));
    assert_eq!(c.bounds(), "here");
    assert_eq!(c.input.state.bounds, rect);
}

#[test]
fn failed_move_changes_nothing() {
    let rect = PixelRect { left: 4, top: -2, right: 10, bottom: 20 };
    let mut c = controller();
    for k in 0..3 {
        let (steps, moved) = take(placement(rect), &[k]);
        assert_eq!(steps.len(), k + 1);
        assert_eq!(c.set_bounds("here", rect, moved), Err(k));
        assert_eq!(c, controller());
    }
}

#[test]
fn showing_and_hiding() {
    let mut c = controller();
    let (steps, told) = take(visibility(false), &[0]);
    assert_eq!(steps, vec![VisibilityStep::SetIsVisible(false)]);
    assert_eq!(c.set_visible(false, told), Err(0));
    assert!(c.input.state.visible);
    let (_, told) = take(visibility(false), &[]);
    assert_eq!(c.set_visible(false, told), Ok(()));
    assert!(!c.input.state.visible);
    c.set_hit_test_mode(HitTestMode::Passthrough);
    assert_eq!(c.input.state.mode, HitTestMode::Passthrough);
    assert!(!c.input.state.visible);
}

#[test]
fn teardown_goes_through() {
    let steps = vec![
        TeardownStep::UnsubscribeCursorChanged(11),
        TeardownStep::RemoveVisual,
        TeardownStep::Close,
    ];
    assert_eq!(take(controller().teardown(), &[0, 1, 2]), (steps, Ok(())));
}
