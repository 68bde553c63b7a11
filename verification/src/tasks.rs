//! The orchestrator's supervisor of status probes: one probe task per
//! registered factory, started and stopped as factory change events arrive.

use vstd::prelude::*;
use std::collections::HashSet;
use crate::messages::FactoryChangeEvent;
use crate::orchestrator::{set_status_in, Orchestrator};

verus! {

broadcast use vstd::std_specs::hash::group_hash_axioms;

/// The factories whose probe runs after the events `events`, in order: an
/// added factory gets a probe, a removed one loses it.
pub open spec fn probes_after(events: Seq<FactoryChangeEvent>) -> Set<u128>
    decreases events.len(),
{
    if events.len() == 0 {
        Set::empty()
    } else {
        let before = probes_after(events.drop_last());
        match events.last() {
            FactoryChangeEvent::Added(id) => before.insert(id),
            FactoryChangeEvent::Removed(id) => before.remove(id),
            FactoryChangeEvent::StatusChanged(_, _) => before,
        }
    }
}

/// Among `events`, some `Added(id)` has no `Removed(id)` after it.
pub open spec fn added_and_not_removed(events: Seq<FactoryChangeEvent>, id: u128) -> bool {
    exists|i: int|
        0 <= i < events.len() && #[trigger] events[i] == FactoryChangeEvent::Added(id) && forall|
            j: int,
        |
            i < j < events.len() ==> #[trigger] events[j] != FactoryChangeEvent::Removed(id)
}

/// A factory's probe runs exactly when an `Added` event for it came with no
/// `Removed` event for it since.
pub proof fn lemma_probes_after_are_pending_additions(events: Seq<FactoryChangeEvent>, id: u128)
    ensures
        probes_after(events).contains(id) <==> added_and_not_removed(events, id),
    decreases events.len(),
{
    if events.len() > 0 {
        let prev: Seq<FactoryChangeEvent> = events.drop_last();
        let n: int = events.len() - 1;
        lemma_probes_after_are_pending_additions(prev, id);
        let e: FactoryChangeEvent = events[n];
        assert(forall|k: int| 0 <= k < n ==> prev[k] == events[k]);
        if e == FactoryChangeEvent::Added(id) {
            assert(events[n] == FactoryChangeEvent::Added(id));
            assert(added_and_not_removed(events, id));
        } else if e == FactoryChangeEvent::Removed(id) {
            if added_and_not_removed(events, id) {
                let i: int = choose|i: int|
                    0 <= i < events.len() && #[trigger] events[i] == FactoryChangeEvent::Added(id)
                        && forall|j: int|
                        i < j < events.len() ==> #[trigger] events[j]
                            != FactoryChangeEvent::Removed(id);
                assert(i < n);
                assert(events[n] != FactoryChangeEvent::Removed(id));
            }
        } else {
            if added_and_not_removed(prev, id) {
                let i: int = choose|i: int|
                    0 <= i < prev.len() && #[trigger] prev[i] == FactoryChangeEvent::Added(id)
                        && forall|j: int|
                        i < j < prev.len() ==> #[trigger] prev[j] != FactoryChangeEvent::Removed(
                            id,
                        );
                assert(events[i] == FactoryChangeEvent::Added(id));
                assert forall|j: int| i < j < events.len() implies #[trigger] events[j]
                    != FactoryChangeEvent::Removed(id) by {
                    if j < n {
                        assert(prev[j] == events[j]);
                    }
                }
            }
            if added_and_not_removed(events, id) {
                let i: int = choose|i: int|
                    0 <= i < events.len() && #[trigger] events[i] == FactoryChangeEvent::Added(id)
                        && forall|j: int|
                        i < j < events.len() ==> #[trigger] events[j]
                            != FactoryChangeEvent::Removed(id);
                assert(i < n);
                assert(prev[i] == FactoryChangeEvent::Added(id));
                assert forall|j: int| i < j < prev.len() implies #[trigger] prev[j]
                    != FactoryChangeEvent::Removed(id) by {
                    assert(events[j] != FactoryChangeEvent::Removed(id));
                }
            }
        }
    }
}

/// The factories whose status probe task is running, with the change events
/// that led there.
pub struct StatusTaskSet {
    active: HashSet<u128>,
    history: Ghost<Seq<FactoryChangeEvent>>,
}

impl View for StatusTaskSet {
    type V = Set<u128>;

    closed spec fn view(&self) -> Set<u128> {
        self.active@
    }
}

/// What the supervisor does about an event.
#[derive(Debug, Clone, Copy, PartialEq, Eq, Structural)]
pub enum TaskAction {
    /// Start the status probe of this factory (a running one is left to run).
    StartProbe(u128),
    /// Stop the status probe of this factory.
    StopProbe(u128),
    /// Nothing to do about probes.
    Nothing,
}

impl StatusTaskSet {
    /// The change events handled so far, oldest first.
    pub closed spec fn history(&self) -> Seq<FactoryChangeEvent> {
        self.history@
    }

    /// The running probes are those the handled events leave running.
    pub closed spec fn wf(&self) -> bool {
        self.active@ == probes_after(self.history@)
    }

    /// No probe running, no event handled.
    pub fn new() -> (tasks: Self)
        ensures
            tasks.wf(),
            tasks@ == Set::<u128>::empty(),
            tasks.history() == Seq::<FactoryChangeEvent>::empty(),
    {
        let tasks = StatusTaskSet { active: HashSet::new(), history: Ghost(Seq::empty()) };
        assert(tasks.active@ =~= probes_after(Seq::empty()));
        tasks
    }

    /// Whether the probe of `factory_id` is running: whether an `Added`
    /// event for it was handled with no `Removed` event for it since.
    pub fn contains(&self, factory_id: u128) -> (running: bool)
        requires
            self.wf(),
        ensures
            running == self@.contains(factory_id),
            running == added_and_not_removed(self.history(), factory_id),
    {
        proof {
            lemma_probes_after_are_pending_additions(self.history@, factory_id);
        }
        self.active.contains(&factory_id)
    }

    /// The supervisor's decision on `event`: an added factory gets a probe, a
    /// removed one has its probe stopped, and a status change is recorded in
    /// the orchestrator's table. A removed factory must have been added, with
    /// no removal since (the caller fails otherwise).
    pub fn apply_change_event(
        &mut self,
        orchestrator: &mut Orchestrator,
        event: FactoryChangeEvent,
    ) -> (action: TaskAction)
        requires
            old(self).wf(),
            event matches FactoryChangeEvent::Removed(id) ==> added_and_not_removed(
                old(self).history(),
                id,
            ),
        ensures
            final(self).wf(),
            final(self).history() == old(self).history().push(event),
            final(orchestrator).configuration() == old(orchestrator).configuration(),
            match event {
                FactoryChangeEvent::Added(id) => {
                    &&& action == TaskAction::StartProbe(id)
                    &&& final(self)@ == old(self)@.insert(id)
                    &&& final(orchestrator)@ == old(orchestrator)@
                },
                FactoryChangeEvent::Removed(id) => {
                    &&& action == TaskAction::StopProbe(id)
                    &&& old(self)@.contains(id)
                    &&& final(self)@ == old(self)@.remove(id)
                    &&& final(orchestrator)@ == old(orchestrator)@
                },
                FactoryChangeEvent::StatusChanged(id, status) => {
                    &&& action == TaskAction::Nothing
                    &&& final(self)@ == old(self)@
                    &&& final(orchestrator)@ == set_status_in(old(orchestrator)@, id, status)
                },
            },
    {
        let ghost events: Seq<FactoryChangeEvent> = self.history@.push(event);
        assert(events.drop_last() =~= self.history@);
        let action: TaskAction = match event {
            FactoryChangeEvent::Added(id) => {
                self.active.insert(id);
                TaskAction::StartProbe(id)
            },
            FactoryChangeEvent::Removed(id) => {
                proof {
                    lemma_probes_after_are_pending_additions(self.history@, id);
                }
                self.active.remove(&id);
                TaskAction::StopProbe(id)
            },
            FactoryChangeEvent::StatusChanged(id, status) => {
                orchestrator.apply_status_change(id, status);
                TaskAction::Nothing
            },
        };
        self.history = Ghost(events);
        action
    }
}

} // verus!
