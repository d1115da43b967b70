//! The visual tree of a window, which all web views of that window share.

use std::collections::HashMap;

use vstd::prelude::*;

use crate::plan::{OnFailure, Plan};

verus! {

broadcast use vstd::std_specs::hash::group_hash_axioms;

/// Remembers, for each window, a handle to the host of its visual tree. A handle
/// does not keep the host alive.
pub struct HostRegistry<W> {
    hosts: HashMap<isize, W>,
}

impl<W> View for HostRegistry<W> {
    type V = Map<isize, W>;

    closed spec fn view(&self) -> Map<isize, W> {
        self.hosts@
    }
}

impl<W> HostRegistry<W> {
    /// A registry that knows no window.
    pub fn new() -> (registry: HostRegistry<W>)
        ensures
            registry@ == Map::<isize, W>::empty(),
    {
        HostRegistry { hosts: HashMap::new() }
    }

    /// The handle that was recorded for `window` last.
    pub fn lookup(&self, window: isize) -> (handle: Option<&W>)
        ensures
            handle == if self@.contains_key(window) {
                Some(&self@[window])
            } else {
                None
            },
            handle is Some <==> self@.contains_key(window),
            handle is Some ==> *handle->0 == self@[window],
    {
        self.hosts.get(&window)
    }

    /// Records a handle for `window`, in place of an earlier one.
    pub fn record(&mut self, window: isize, handle: W)
        ensures
            final(self)@ == old(self)@.insert(window, handle),
    {
        self.hosts.insert(window, handle);
    }
}

/// What is done next to get the host of a window.
#[derive(Debug, PartialEq, Eq)]
pub enum HostAction<E> {
    /// See whether the recorded host is still alive.
    Upgrade,
    /// Create a composition device on the default rendering device.
    CreateDevice,
    /// Create the window's composition target, above or below its children.
    CreateTarget { topmost: bool },
    /// Create the visual at the root.
    CreateVisual,
    /// Make the visual the target's root.
    SetRoot,
    /// Commit what was done on the device.
    Commit,
    /// Put the host together, and make a handle to it.
    Assemble,
    /// Return the host that was still alive.
    Reuse,
    /// Return the host that was put together.
    Deliver,
    /// Return this error.
    Fail(E),
}

/// What came of an action.
#[derive(Debug, PartialEq, Eq)]
pub enum HostReply<W, E> {
    /// Nothing was asked yet.
    Begin,
    /// Whether the recorded host is still alive.
    Alive(bool),
    /// How a call went.
    Outcome(Result<(), E>),
    /// A handle to the new host.
    Handle(W),
}

/// How far the search for a host has come.
#[derive(Clone, Copy, Debug, PartialEq, Eq, Structural)]
pub enum HostPhase {
    Start,
    Upgrading,
    CreatingDevice,
    CreatingTarget,
    CreatingVisual,
    SettingRoot,
    Committing,
    Assembling,
    Finished,
}

/// The search for the host of a window.
#[derive(Clone, Copy, Debug, PartialEq, Eq, Structural)]
pub struct HostSearch {
    pub window: isize,
    pub phase: HostPhase,
}

impl HostSearch {
    /// Whether `reply` is an answer to the action that was given out last.
    pub open spec fn expects<W, E>(self, reply: HostReply<W, E>) -> bool {
        match self.phase {
            HostPhase::Start => reply is Begin,
            HostPhase::Upgrading => reply is Alive,
            HostPhase::Assembling => reply is Handle,
            HostPhase::Finished => false,
            _ => reply is Outcome,
        }
    }

    /// The phase and the action that follow when the current call has succeeded.
    pub open spec fn onward<E>(self) -> (HostPhase, HostAction<E>) {
        match self.phase {
            HostPhase::CreatingDevice => (
                HostPhase::CreatingTarget,
                HostAction::CreateTarget { topmost: true },
            ),
            HostPhase::CreatingTarget => (HostPhase::CreatingVisual, HostAction::CreateVisual),
            HostPhase::CreatingVisual => (HostPhase::SettingRoot, HostAction::SetRoot),
            HostPhase::SettingRoot => (HostPhase::Committing, HostAction::Commit),
            _ => (HostPhase::Assembling, HostAction::Assemble),
        }
    }

    /// The phase, the registry and the action that follow on `reply`.
    pub open spec fn next<W, E>(
        self,
        hosts: Map<isize, W>,
        reply: HostReply<W, E>,
    ) -> (HostPhase, Map<isize, W>, HostAction<E>) {
        match reply {
            HostReply::Begin => if hosts.contains_key(self.window) {
                (HostPhase::Upgrading, hosts, HostAction::Upgrade)
            } else {
                (HostPhase::CreatingDevice, hosts, HostAction::CreateDevice)
            },
            HostReply::Alive(alive) => if alive {
                (HostPhase::Finished, hosts, HostAction::Reuse)
            } else {
                (HostPhase::CreatingDevice, hosts, HostAction::CreateDevice)
            },
            HostReply::Outcome(Ok(())) => (self.onward::<E>().0, hosts, self.onward::<E>().1),
            HostReply::Outcome(Err(e)) => (HostPhase::Finished, hosts, HostAction::Fail(e)),
            HostReply::Handle(handle) => (
                HostPhase::Finished,
                hosts.insert(self.window, handle),
                HostAction::Deliver,
            ),
        }
    }

    /// Starts the search for the host of `window`.
    pub fn for_window(window: isize) -> (search: HostSearch)
        ensures
            search == (HostSearch { window, phase: HostPhase::Start }),
    {
        HostSearch { window, phase: HostPhase::Start }
    }

    /// Tells whether `reply` answers the last action.
    pub fn can_step<W, E>(&self, reply: &HostReply<W, E>) -> (r: bool)
        ensures
            r == self.expects(*reply),
    {
        match self.phase {
            HostPhase::Start => matches!(reply, HostReply::Begin),
            HostPhase::Upgrading => matches!(reply, HostReply::Alive(_)),
            HostPhase::Assembling => matches!(reply, HostReply::Handle(_)),
            HostPhase::Finished => false,
            _ => matches!(reply, HostReply::Outcome(_)),
        }
    }

    /// Takes the reply to the last action, or `Begin` at the start, and gives the
    /// next action. `Reuse`, `Deliver` and `Fail` end the search.
    pub fn step<W, E>(
        &mut self,
        hosts: &mut HostRegistry<W>,
        reply: HostReply<W, E>,
    ) -> (action: HostAction<E>)
        requires
            old(self).expects(reply),
        ensures
            final(self).window == old(self).window,
            (final(self).phase, final(hosts)@, action) == old(self).next(old(hosts)@, reply),
    {
        match reply {
            HostReply::Begin => {
                if hosts.lookup(self.window).is_some() {
                    self.phase = HostPhase::Upgrading;
                    HostAction::Upgrade
                } else {
                    self.phase = HostPhase::CreatingDevice;
                    HostAction::CreateDevice
                }
            },
            HostReply::Alive(alive) => {
                if alive {
                    self.phase = HostPhase::Finished;
                    HostAction::Reuse
                } else {
                    self.phase = HostPhase::CreatingDevice;
                    HostAction::CreateDevice
                }
            },
            HostReply::Outcome(Ok(())) => match self.phase {
                HostPhase::CreatingDevice => {
                    self.phase = HostPhase::CreatingTarget;
                    HostAction::CreateTarget { topmost: true }
                },
                HostPhase::CreatingTarget => {
                    self.phase = HostPhase::CreatingVisual;
                    HostAction::CreateVisual
                },
                HostPhase::CreatingVisual => {
                    self.phase = HostPhase::SettingRoot;
                    HostAction::SetRoot
                },
                HostPhase::SettingRoot => {
                    self.phase = HostPhase::Committing;
                    HostAction::Commit
                },
                _ => {
                    self.phase = HostPhase::Assembling;
                    HostAction::Assemble
                },
            },
            HostReply::Outcome(Err(e)) => {
                self.phase = HostPhase::Finished;
                HostAction::Fail(e)
            },
            HostReply::Handle(handle) => {
                hosts.record(self.window, handle);
                self.phase = HostPhase::Finished;
                HostAction::Deliver
            },
        }
    }
}

/// What the surroundings answer during a search.
pub struct HostAnswers<W, E> {
    pub alive: bool,
    pub device: Result<(), E>,
    pub target: Result<(), E>,
    pub visual: Result<(), E>,
    pub root: Result<(), E>,
    pub commit: Result<(), E>,
    pub handle: W,
}

impl<W, E> HostAnswers<W, E> {
    /// The reply to `action`.
    pub open spec fn to(self, action: HostAction<E>) -> HostReply<W, E> {
        match action {
            HostAction::Upgrade => HostReply::Alive(self.alive),
            HostAction::CreateDevice => HostReply::Outcome(self.device),
            HostAction::CreateTarget { .. } => HostReply::Outcome(self.target),
            HostAction::CreateVisual => HostReply::Outcome(self.visual),
            HostAction::SetRoot => HostReply::Outcome(self.root),
            HostAction::Commit => HostReply::Outcome(self.commit),
            HostAction::Assemble => HostReply::Handle(self.handle),
            _ => HostReply::Begin,
        }
    }

    /// The first error on the way to a new host.
    pub open spec fn first_failure(self) -> Option<E> {
        match (self.device, self.target, self.visual, self.root, self.commit) {
            (Err(e), _, _, _, _) => Some(e),
            (_, Err(e), _, _, _) => Some(e),
            (_, _, Err(e), _, _) => Some(e),
            (_, _, _, Err(e), _) => Some(e),
            (_, _, _, _, Err(e)) => Some(e),
            _ => None,
        }
    }
}

/// The actions that follow when `s` is given `reply` and then an answer to each
/// action, at most `limit` times. The registry at the end comes with them.
pub open spec fn search_run<W, E>(
    s: HostSearch,
    hosts: Map<isize, W>,
    answers: HostAnswers<W, E>,
    reply: HostReply<W, E>,
    limit: nat,
) -> (Seq<HostAction<E>>, Map<isize, W>)
    decreases limit,
{
    if limit == 0 || s.phase == HostPhase::Finished {
        (seq![], hosts)
    } else {
        let (phase, after, action) = s.next(hosts, reply);
        let (rest, end) = search_run(
            HostSearch { phase, ..s },
            after,
            answers,
            answers.to(action),
            (limit - 1) as nat,
        );
        (seq![action] + rest, end)
    }
}

/// All actions of the search for the host of `window`, and the registry after it.
pub open spec fn search<W, E>(
    window: isize,
    hosts: Map<isize, W>,
    answers: HostAnswers<W, E>,
) -> (Seq<HostAction<E>>, Map<isize, W>) {
    search_run(
        HostSearch { window, phase: HostPhase::Start },
        hosts,
        answers,
        HostReply::Begin,
        8,
    )
}

/// Whether the window has a host that is still alive.
pub open spec fn has_live_host<W, E>(
    window: isize,
    hosts: Map<isize, W>,
    answers: HostAnswers<W, E>,
) -> bool {
    hosts.contains_key(window) && answers.alive
}

/// A window's host is shared as long as it lives: it is returned, nothing is
/// created, and the registry stays as it is.
pub proof fn law_live_host_is_reused<W, E>(
    window: isize,
    hosts: Map<isize, W>,
    answers: HostAnswers<W, E>,
)
    requires
        has_live_host(window, hosts, answers),
    ensures
        search(window, hosts, answers).0 == seq![HostAction::<E>::Upgrade, HostAction::Reuse],
        search(window, hosts, answers).1 == hosts,
{
    reveal_with_fuel(search_run, 9);
}

/// Where there is no live host one is created, step by step, and recorded for
/// this window and no other.
pub proof fn law_new_host_is_recorded<W, E>(
    window: isize,
    hosts: Map<isize, W>,
    answers: HostAnswers<W, E>,
)
    requires
        !has_live_host(window, hosts, answers),
        answers.first_failure() is None,
    ensures
        search(window, hosts, answers).0 == (if hosts.contains_key(window) {
            seq![HostAction::<E>::Upgrade]
        } else {
            seq![]
        }) + seq![
            HostAction::CreateDevice,
            HostAction::CreateTarget { topmost: true },
            HostAction::CreateVisual,
            HostAction::SetRoot,
            HostAction::Commit,
            HostAction::Assemble,
            HostAction::Deliver,
        ],
        search(window, hosts, answers).1 == hosts.insert(window, answers.handle),
{
    reveal_with_fuel(search_run, 9);
}

/// Where creating a host fails, the first error is returned and nothing is
/// recorded.
pub proof fn law_failed_host_is_not_recorded<W, E>(
    window: isize,
    hosts: Map<isize, W>,
    answers: HostAnswers<W, E>,
)
    requires
        !has_live_host(window, hosts, answers),
        answers.first_failure() is Some,
    ensures
        search(window, hosts, answers).0.last() == HostAction::Fail(
            answers.first_failure()->0,
        ),
        search(window, hosts, answers).1 == hosts,
{
    reveal_with_fuel(search_run, 9);
}

/// The search stops at the call that fails: the calls before it were made in their
/// order, none comes after it, and its own error is returned.
pub proof fn law_failure_ends_the_search<W, E>(
    window: isize,
    hosts: Map<isize, W>,
    answers: HostAnswers<W, E>,
    error: E,
)
    requires
        !hosts.contains_key(window) || !answers.alive,
    ensures
        ({
            let before = if hosts.contains_key(window) {
                seq![HostAction::<E>::Upgrade]
            } else {
                seq![]
            };
            let made = search(window, hosts, answers).0;
            let target = HostAction::<E>::CreateTarget { topmost: true };
            &&& answers.device == Err::<(), E>(error) ==> made == before + seq![
                HostAction::CreateDevice,
                HostAction::Fail(error),
            ]
            &&& answers.device is Ok && answers.target == Err::<(), E>(error) ==> made == before
                + seq![HostAction::CreateDevice, target, HostAction::Fail(error)]
            &&& answers.device is Ok && answers.target is Ok && answers.visual == Err::<(), E>(
                error,
            ) ==> made == before + seq![
                HostAction::CreateDevice,
                target,
                HostAction::CreateVisual,
                HostAction::Fail(error),
            ]
            &&& answers.device is Ok && answers.target is Ok && answers.visual is Ok
                && answers.root == Err::<(), E>(error) ==> made == before + seq![
                HostAction::CreateDevice,
                target,
                HostAction::CreateVisual,
                HostAction::SetRoot,
                HostAction::Fail(error),
            ]
            &&& answers.device is Ok && answers.target is Ok && answers.visual is Ok
                && answers.root is Ok && answers.commit == Err::<(), E>(error) ==> made == before
                + seq![
                HostAction::CreateDevice,
                target,
                HostAction::CreateVisual,
                HostAction::SetRoot,
                HostAction::Commit,
                HostAction::Fail(error),
            ]
        }),
{
    reveal_with_fuel(search_run, 9);
}

/// Whatever the registry has become by then, a handle to a new host is recorded for
/// the window that was searched for, and nothing else ever changes the registry.
pub proof fn law_only_new_hosts_are_recorded<W, E>(
    s: HostSearch,
    hosts: Map<isize, W>,
    reply: HostReply<W, E>,
    other: isize,
)
    ensures
        ({
            let after = s.next(hosts, reply).1;
            &&& reply !is Handle ==> after == hosts
            &&& reply is Handle ==> {
                &&& after.contains_key(s.window)
                &&& after[s.window] == reply->Handle_0
                &&& other != s.window ==> {
                    &&& after.contains_key(other) <==> hosts.contains_key(other)
                    &&& hosts.contains_key(other) ==> after[other] == hosts[other]
                }
            }
        }),
{
}

/// Each action has one kind of reply: a look at the recorded host tells whether it
/// is alive, a call how it went, and putting the host together gives a handle. A
/// search begins once, and wants nothing more when it is over.
pub proof fn law_host_actions_have_their_replies<W, E>(
    s: HostSearch,
    hosts: Map<isize, W>,
    reply: HostReply<W, E>,
    answer: HostReply<W, E>,
)
    requires
        s.expects(reply),
    ensures
        ({
            let (phase, _, action) = s.next(hosts, reply);
            (HostSearch { phase, ..s }).expects(answer) <==> match action {
                HostAction::Upgrade => answer is Alive,
                HostAction::Assemble => answer is Handle,
                HostAction::Reuse | HostAction::Deliver | HostAction::Fail(_) => false,
                _ => answer is Outcome,
            }
        }),
        (HostSearch { phase: HostPhase::Start, ..s }).expects(answer) <==> answer is Begin,
{
}

/// A step of putting a web view's visual into the tree.
#[derive(Clone, Copy, Debug, PartialEq, Eq, Structural)]
pub enum AttachStep {
    /// Create the visual.
    CreateVisual,
    /// Add it to the root, above or below the visuals that are there.
    AddVisual { insert_above: bool },
    /// Commit the change on the device.
    Commit,
}

/// A step of taking a web view's visual out of the tree.
#[derive(Clone, Copy, Debug, PartialEq, Eq, Structural)]
pub enum DetachStep {
    /// Remove the visual from the root.
    RemoveVisual,
    /// Commit the change on the device.
    Commit,
}

/// The steps that put a new visual into the tree.
pub open spec fn attach_steps() -> Seq<AttachStep> {
    seq![
        AttachStep::CreateVisual,
        AttachStep::AddVisual { insert_above: false },
        AttachStep::Commit,
    ]
}

/// The steps that take a visual out of the tree.
pub open spec fn detach_steps() -> Seq<DetachStep> {
    seq![DetachStep::RemoveVisual, DetachStep::Commit]
}

/// Every change of the tree is committed last. A visual is created before it is
/// added, with nothing asked to be put above others.
pub proof fn law_tree_changes_are_committed()
    ensures
        attach_steps().len() == 3,
        attach_steps()[0] == AttachStep::CreateVisual,
        attach_steps()[1] == (AttachStep::AddVisual { insert_above: false }),
        attach_steps().last() == AttachStep::Commit,
        detach_steps().len() == 2,
        detach_steps()[0] == DetachStep::RemoveVisual,
        detach_steps().last() == DetachStep::Commit,
{
}

/// How a new visual gets into the tree. The first failure ends it.
pub fn add_visual<E>() -> (plan: Plan<AttachStep, E>)
    ensures
        plan@ == crate::plan::PlanView::<AttachStep, E>::fresh(
            attach_steps(),
            OnFailure::Stop,
        ),
        plan@.steps.len() == 3,
        plan@.steps[0] == AttachStep::CreateVisual,
        plan@.steps[1] == (AttachStep::AddVisual { insert_above: false }),
        plan@.steps[2] == AttachStep::Commit,
        plan@.on_failure == OnFailure::Stop,
{
    Plan::new(
        vec![
            AttachStep::CreateVisual,
            AttachStep::AddVisual { insert_above: false },
            AttachStep::Commit,
        ],
        OnFailure::Stop,
    )
}

/// How a visual gets out of the tree. Failures do not stand in the way.
pub fn remove_visual<E>() -> (plan: Plan<DetachStep, E>)
    ensures
        plan@ == crate::plan::PlanView::<DetachStep, E>::fresh(
            detach_steps(),
            OnFailure::Continue,
        ),
        plan@.steps.len() == 2,
        plan@.steps[0] == DetachStep::RemoveVisual,
        plan@.steps[1] == DetachStep::Commit,
        plan@.on_failure == OnFailure::Continue,
{
    Plan::new(vec![DetachStep::RemoveVisual, DetachStep::Commit], OnFailure::Continue)
}

} // verus!
