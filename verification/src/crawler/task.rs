//! The budget of units that run at once.

use vstd::prelude::*;

verus! {

/// Keeps count of the units of one crawl: how many run and how many wait
/// for a free place. One budget is shared by the units of every level; a
/// unit that has spawned children gives its place back before the children
/// are collected, so that no unit holds a place while it waits for others.
pub struct TaskManager {
    limit: usize,
    running: usize,
    waiting: usize,
}

/// The count of units, as plain values.
pub struct Counts {
    /// How many units may run at once.
    pub limit: nat,
    /// How many units run.
    pub running: nat,
    /// How many units wait for a free place.
    pub waiting: nat,
}

/// What to do with a unit that was spawned.
#[derive(Debug, Clone, Copy, PartialEq, Eq)]
pub enum Admission {
    /// Start it now.
    Start,
    /// Keep it until a place is free.
    Wait,
}

/// What happens to the units of a crawl.
pub enum Event {
    /// One more unit is spawned.
    Spawn,
    /// A running unit ends, or gives its place back.
    Complete,
}

impl Counts {
    /// The budget is kept: no more units run than may, and none waits while
    /// a place is free.
    pub open spec fn wf(self) -> bool {
        &&& self.running <= self.limit
        &&& self.waiting > 0 ==> self.running == self.limit
    }

    /// The count after one more unit is spawned: it runs if a place is free,
    /// and waits otherwise.
    pub open spec fn spawned(self) -> Counts {
        if self.running < self.limit {
            Counts { running: self.running + 1, ..self }
        } else {
            Counts { waiting: self.waiting + 1, ..self }
        }
    }

    /// The count after a running unit ends: a waiting unit takes its place
    /// if there is one.
    pub open spec fn completed(self) -> Counts {
        if self.waiting > 0 {
            Counts { waiting: (self.waiting - 1) as nat, ..self }
        } else {
            Counts { running: (self.running - 1) as nat, ..self }
        }
    }

    /// The count after one event. Nothing ends where nothing runs.
    pub open spec fn after(self, event: Event) -> Counts {
        match event {
            Event::Spawn => self.spawned(),
            Event::Complete => if self.running > 0 {
                self.completed()
            } else {
                self
            },
        }
    }

    /// The count after a run of events.
    pub open spec fn after_all(self, events: Seq<Event>) -> Counts
        decreases events.len(),
    {
        if events.len() == 0 {
            self
        } else {
            self.after_all(events.drop_last()).after(events.last())
        }
    }
}

/// However many units are spawned and in whatever order they end, at no
/// instant do more units run than the budget allows.
pub proof fn lemma_budget_is_kept(limit: nat, events: Seq<Event>)
    ensures
        (Counts { limit, running: 0, waiting: 0 }).after_all(events).wf(),
        (Counts { limit, running: 0, waiting: 0 }).after_all(events).limit == limit,
        (Counts { limit, running: 0, waiting: 0 }).after_all(events).running <= limit,
    decreases events.len(),
{
    if events.len() > 0 {
        lemma_budget_is_kept(limit, events.drop_last());
    }
}

impl View for TaskManager {
    type V = Counts;

    closed spec fn view(&self) -> Counts {
        Counts {
            limit: self.limit as nat,
            running: self.running as nat,
            waiting: self.waiting as nat,
        }
    }
}

impl TaskManager {
    #[verifier::type_invariant]
    spec fn kept(self) -> bool {
        &&& self.running <= self.limit
        &&& self.waiting > 0 ==> self.running == self.limit
    }

    /// A budget of `limit` units, none of them taken.
    pub fn new(limit: usize) -> (manager: TaskManager)
        ensures
            manager@ == (Counts { limit: limit as nat, running: 0, waiting: 0 }),
    {
        TaskManager { limit, running: 0, waiting: 0 }
    }

    /// How many units may run at once.
    pub fn limit(&self) -> (n: usize)
        ensures
            n == self@.limit,
    {
        self.limit
    }

    /// How many units run.
    pub fn in_flight(&self) -> (n: usize)
        ensures
            n == self@.running,
            n <= self@.limit,
            self@.wf(),
    {
        proof {
            use_type_invariant(self);
        }
        self.running
    }

    /// How many units wait.
    pub fn queued(&self) -> (n: usize)
        ensures
            n == self@.waiting,
    {
        self.waiting
    }

    /// Takes in one more unit: it starts if a place is free, and waits
    /// otherwise. `None`, and nothing changes, where more units wait than
    /// can be counted.
    pub fn spawn(&mut self) -> (admission: Option<Admission>)
        ensures
            old(self)@.wf(),
            final(self)@.wf(),
            match admission {
                Some(Admission::Start) => old(self)@.running < old(self)@.limit && final(self)@
                    == old(self)@.spawned(),
                Some(Admission::Wait) => old(self)@.running == old(self)@.limit && final(self)@
                    == old(self)@.spawned(),
                None => old(self)@.running == old(self)@.limit && old(self)@.waiting
                    == usize::MAX && final(self)@ == old(self)@,
            },
    {
        proof {
            use_type_invariant(&*self);
        }
        if self.running < self.limit {
            self.running += 1;
            Some(Admission::Start)
        } else if self.waiting < usize::MAX {
            self.waiting += 1;
            Some(Admission::Wait)
        } else {
            None
        }
    }

    /// Takes note that a running unit has ended or has given its place
    /// back. Says whether one of the waiting units starts in its place.
    /// Where no unit runs, nothing changes.
    pub fn complete(&mut self) -> (starts_next: bool)
        ensures
            old(self)@.wf(),
            final(self)@.wf(),
            final(self)@ == old(self)@.after(Event::Complete),
            starts_next == (old(self)@.running > 0 && old(self)@.waiting > 0),
    {
        proof {
            use_type_invariant(&*self);
        }
        if self.running == 0 {
            false
        } else if self.waiting > 0 {
            self.waiting -= 1;
            true
        } else {
            self.running -= 1;
            false
        }
    }
}

} // verus!
