use vstd::prelude::*;

verus! {

/// A crossing of a ray with the terrain: how far along the ray, and how high.
#[derive(Clone, Copy, Debug, PartialEq)]
pub struct TimeHeight<T> {
    /// The ray parameter of the crossing.
    pub t: T,
    /// The terrain height there.
    pub height: T,
}

/// What a traversal reports to its visitor.
#[derive(Clone, Copy, Debug, PartialEq)]
pub struct IntersectionEvent<T> {
    pub sample: TimeHeight<T>,
    /// Whether the height is the upper bound that an inner node keeps for all
    /// the cells below it, rather than the height of one finest cell.
    pub is_interior: bool,
    /// The colour of the height, where the height map has a colour map and
    /// the event is that of a finest cell.
    pub color: Option<[u8; 4]>,
}

/// The receiver of a traversal's events.
///
/// To the contracts a visitor is a state machine: `spec_visit` says, for a
/// state and an event, the state that follows and whether the visitor asks
/// to stop. An implementation promises that `visit` moves its state as
/// `spec_visit` says.
pub trait Visitor<T>: Sized {
    /// What the contracts see of a visitor.
    type State;

    spec fn state(&self) -> Self::State;

    /// The state after an event, and the visitor's answer to it: `true` asks
    /// the traversal to leave out what lies below the node of the event.
    spec fn spec_visit(state: Self::State, event: IntersectionEvent<T>) -> (Self::State, bool);

    fn visit(&mut self, event: IntersectionEvent<T>) -> (stop: bool)
        ensures
            (final(self).state(), stop) == Self::spec_visit(old(self).state(), event),
    ;
}

/// The state of a visitor that has been handed `events` one after the other,
/// its answers ignored.
pub open spec fn deliver_all<T, V: Visitor<T>>(
    state: V::State,
    events: Seq<IntersectionEvent<T>>,
) -> V::State
    decreases events.len(),
{
    if events.len() == 0 {
        state
    } else {
        deliver_all::<T, V>(V::spec_visit(state, events[0]).0, events.skip(1))
    }
}

/// A visitor that keeps every event it is handed, in order. With `prune` set
/// it asks to stop at every inner node; without, it never does.
pub struct EventLog<T> {
    pub events: Vec<IntersectionEvent<T>>,
    pub prune: bool,
}

impl<T> EventLog<T> {
    /// An empty log.
    pub fn new(prune: bool) -> (r: EventLog<T>)
        ensures
            r.events@ == Seq::<IntersectionEvent<T>>::empty(),
            r.prune == prune,
    {
        EventLog { events: Vec::new(), prune }
    }
}

impl<T> Visitor<T> for EventLog<T> {
    type State = (Seq<IntersectionEvent<T>>, bool);

    open spec fn state(&self) -> (Seq<IntersectionEvent<T>>, bool) {
        (self.events@, self.prune)
    }

    open spec fn spec_visit(
        state: (Seq<IntersectionEvent<T>>, bool),
        event: IntersectionEvent<T>,
    ) -> ((Seq<IntersectionEvent<T>>, bool), bool) {
        ((state.0.push(event), state.1), state.1 && event.is_interior)
    }

    fn visit(&mut self, event: IntersectionEvent<T>) -> (stop: bool) {
        let stop = self.prune && event.is_interior;
        self.events.push(event);
        stop
    }
}

} // verus!
