//! Putting frames together on their way to the user interface.
use crate::connection::types::{event_view, ConnectionEvent, Event};
use crate::remote_display::display::{updates_view, FrameUpdate, Update};
use vstd::prelude::*;

verus! {

/// Collects frames that come one after the other, and keeps the event that ended them.
#[derive(Debug)]
pub struct FrameMerger {
    pub merged: Option<Vec<FrameUpdate>>,
    pub pending: Option<ConnectionEvent>,
}

/// What a merger holds, as a mathematical value.
#[verifier::ext_equal]
pub struct Merger {
    pub merged: Option<Seq<Update>>,
    pub pending: Option<Event>,
}

/// A step in the stream of events: a single change of the picture, or an event of another kind.
#[verifier::ext_equal]
pub enum Item {
    Change(Update),
    Other(Event),
}

/// Changes of the picture as items.
pub open spec fn changes(updates: Seq<Update>) -> Seq<Item> {
    updates.map_values(|u: Update| Item::Change(u))
}

/// The items of an event.
pub open spec fn items(event: Event) -> Seq<Item> {
    match event {
        Event::Frames(updates) => changes(updates),
        other => seq![Item::Other(other)],
    }
}

/// The items of an event that may be missing.
pub open spec fn items_of(event: Option<Event>) -> Seq<Item> {
    match event {
        Some(e) => items(e),
        None => Seq::empty(),
    }
}

impl Merger {
    /// The items that wait, in their order.
    pub open spec fn waiting(self) -> Seq<Item> {
        (match self.merged {
            Some(updates) => changes(updates),
            None => Seq::empty(),
        }) + items_of(self.pending)
    }

    /// What a merger holds after an event.
    pub open spec fn offered(self, event: Event) -> Merger {
        match event {
            Event::Frames(more) => match self.merged {
                Some(updates) => Merger { merged: Some(updates + more), ..self },
                None => Merger { merged: Some(more), ..self },
            },
            other => match self.merged {
                Some(_) => Merger { merged: None, pending: Some(other) },
                None => self,
            },
        }
    }

    /// What goes on at once when an event comes: other events pass, and end a run of frames.
    pub open spec fn passed(self, event: Event) -> Option<Event> {
        match event {
            Event::Frames(_) => None,
            other => match self.merged {
                Some(updates) => Some(Event::Frames(updates)),
                None => Some(other),
            },
        }
    }

    /// What goes on when nothing more has come.
    pub open spec fn flushed(self) -> Option<Event> {
        match self.merged {
            Some(updates) => Some(Event::Frames(updates)),
            None => None,
        }
    }
}

impl View for FrameMerger {
    type V = Merger;

    open spec fn view(&self) -> Merger {
        Merger {
            merged: match self.merged {
                Some(updates) => Some(updates_view(updates@)),
                None => None,
            },
            pending: match self.pending {
                Some(event) => Some(event@),
                None => None,
            },
        }
    }
}

impl FrameMerger {
    /// A merger that holds nothing.
    pub fn new() -> (m: Self)
        ensures
            m@ == (Merger { merged: None, pending: None }),
    {
        FrameMerger { merged: None, pending: None }
    }

    /// Takes the event that ended the last run of frames.
    pub fn take_pending(&mut self) -> (event: Option<ConnectionEvent>)
        ensures
            event_view(event) == old(self)@.pending,
            final(self)@ == (Merger { pending: None, ..old(self)@ }),
    {
        let mut event: Option<ConnectionEvent> = None;
        std::mem::swap(&mut self.pending, &mut event);
        event
    }

    /// Takes an event, and gives what goes on at once.
    pub fn offer(&mut self, event: ConnectionEvent) -> (out: Option<ConnectionEvent>)
        requires
            old(self)@.pending is None,
        ensures
            final(self)@ == old(self)@.offered(event@),
            event_view(out) == old(self)@.passed(event@),
    {
        let ghost before = self@;
        let ghost offered = event@;
        let mut merged: Option<Vec<FrameUpdate>> = None;
        std::mem::swap(&mut self.merged, &mut merged);
        match event {
            ConnectionEvent::Frames(more) => {
                match merged {
                    Some(updates) => {
                        let ghost first = updates_view(updates@);
                        let ghost second = updates_view(more@);
                        let mut all = updates;
                        let mut rest = more;
                        all.append(&mut rest);
                        assert(updates_view(all@) =~= first + second);
                        self.merged = Some(all);
                    },
                    None => {
                        self.merged = Some(more);
                    },
                }
                assert(self@ =~= before.offered(offered));
                None
            },
            other => match merged {
                Some(updates) => {
                    self.pending = Some(other);
                    Some(ConnectionEvent::Frames(updates))
                },
                None => Some(other),
            },
        }
    }

    /// Ends a run of frames after which nothing more has come.
    pub fn flush(&mut self) -> (out: Option<ConnectionEvent>)
        ensures
            final(self)@ == (Merger { merged: None, ..old(self)@ }),
            event_view(out) == old(self)@.flushed(),
    {
        let mut merged: Option<Vec<FrameUpdate>> = None;
        std::mem::swap(&mut self.merged, &mut merged);
        match merged {
            Some(updates) => Some(ConnectionEvent::Frames(updates)),
            None => None,
        }
    }
}

/// Merging loses nothing and keeps the order: what goes on and what waits afterwards are, item by
/// item, what waited before and the event that came.
pub proof fn merging_keeps_the_order(m: Merger, event: Event)
    requires
        m.pending is None,
    ensures
        items_of(m.passed(event)) + m.offered(event).waiting() == m.waiting() + items(event),
        m.offered(event).pending is Some ==> m.passed(event) is Some,
{
    let before = m.waiting();
    let out = items_of(m.passed(event));
    let after = m.offered(event).waiting();
    match event {
        Event::Frames(more) => {
            match m.merged {
                Some(updates) => {
                    assert(changes(updates + more) =~= changes(updates) + changes(more));
                    assert(out + after =~= before + items(event));
                },
                None => {
                    assert(out + after =~= before + items(event));
                },
            }
        },
        _ => {
            assert(out + after =~= before + items(event));
        },
    }
}

/// Ending a run of frames loses nothing either: what goes on comes before what still waits.
pub proof fn flushing_keeps_the_order(m: Merger)
    ensures
        items_of(m.flushed()) + (Merger { merged: None, ..m }).waiting() == m.waiting(),
{
    assert(items_of(m.flushed()) + (Merger { merged: None, ..m }).waiting() =~= m.waiting());
}

/// A use of a merger.
#[verifier::ext_equal]
pub enum Use {
    Offer(Event),
    TakePending,
    Flush,
}

impl Merger {
    /// Whether a merger can be used so: an event that waits is taken before another is offered, and
    /// not while frames are collected before it.
    pub open spec fn allows(self, step: Use) -> bool {
        match step {
            Use::Offer(_) => self.pending is None,
            Use::TakePending => self.merged is None || self.pending is None,
            Use::Flush => true,
        }
    }

    /// What a merger holds after a use.
    pub open spec fn used(self, step: Use) -> Merger {
        match step {
            Use::Offer(event) => self.offered(event),
            Use::TakePending => Merger { pending: None, ..self },
            Use::Flush => Merger { merged: None, ..self },
        }
    }

    /// What goes on at a use.
    pub open spec fn handed(self, step: Use) -> Option<Event> {
        match step {
            Use::Offer(event) => self.passed(event),
            Use::TakePending => self.pending,
            Use::Flush => self.flushed(),
        }
    }

    /// Whether a merger can be used so, one after the other.
    pub open spec fn allows_all(self, steps: Seq<Use>) -> bool
        decreases steps.len(),
    {
        steps.len() == 0 || (self.allows(steps[0]) && self.used(steps[0]).allows_all(steps.skip(1)))
    }

    /// What a merger holds after all uses.
    pub open spec fn used_all(self, steps: Seq<Use>) -> Merger
        decreases steps.len(),
    {
        if steps.len() == 0 {
            self
        } else {
            self.used(steps[0]).used_all(steps.skip(1))
        }
    }

    /// The items that go on at all uses, in their order.
    pub open spec fn handed_all(self, steps: Seq<Use>) -> Seq<Item>
        decreases steps.len(),
    {
        if steps.len() == 0 {
            Seq::empty()
        } else {
            items_of(self.handed(steps[0])) + self.used(steps[0]).handed_all(steps.skip(1))
        }
    }
}

/// The items of the events that are offered, in their order.
pub open spec fn came(steps: Seq<Use>) -> Seq<Item>
    decreases steps.len(),
{
    if steps.len() == 0 {
        Seq::empty()
    } else {
        (match steps[0] {
            Use::Offer(event) => items(event),
            _ => Seq::empty(),
        }) + came(steps.skip(1))
    }
}

/// Whatever comes, and whenever a run of frames is ended, nothing is lost, made up or moved: what
/// went on and what still waits are, item by item, what waited at the start and what came.
pub proof fn runs_keep_the_order(m: Merger, steps: Seq<Use>)
    requires
        m.allows_all(steps),
    ensures
        m.handed_all(steps) + m.used_all(steps).waiting() == m.waiting() + came(steps),
    decreases steps.len(),
{
    if steps.len() == 0 {
        assert(m.handed_all(steps) + m.waiting() =~= m.waiting() + came(steps));
    } else {
        let next = m.used(steps[0]);
        let rest = steps.skip(1);
        let out = items_of(m.handed(steps[0]));
        let new = match steps[0] {
            Use::Offer(event) => items(event),
            _ => Seq::empty(),
        };
        runs_keep_the_order(next, rest);
        match steps[0] {
            Use::Offer(event) => merging_keeps_the_order(m, event),
            Use::TakePending => assert(out + next.waiting() =~= m.waiting()),
            Use::Flush => flushing_keeps_the_order(m),
        }
        assert(out + next.waiting() =~= m.waiting() + new);
        assert(m.handed_all(steps) + m.used_all(steps).waiting() =~= out + (next.handed_all(rest)
            + next.used_all(rest).waiting()));
        assert(out + (next.waiting() + came(rest)) =~= (out + next.waiting()) + came(rest));
        assert((m.waiting() + new) + came(rest) =~= m.waiting() + came(steps));
    }
}

} // verus!
