//! A queue of events of one type, shared between the renderer's consumer and
//! whatever raises events for it.

use vstd::prelude::*;

verus! {

/// A stack-like queue of pending events.
///
/// `notify` records an event, `next` hands back the most recently recorded
/// one, and `read_all` drains every pending event in arrival order.
pub struct EventQueue<T> {
    events: Vec<T>,
}

impl<T> View for EventQueue<T> {
    type V = Seq<T>;

    closed spec fn view(&self) -> Seq<T> {
        self.events@
    }
}

impl<T> EventQueue<T> {
    /// An empty queue.
    pub fn new() -> (queue: EventQueue<T>)
        ensures
            queue@ == Seq::<T>::empty(),
    {
        EventQueue { events: Vec::new() }
    }

    /// Records `event` as the newest pending event.
    pub fn notify(&mut self, event: T)
        ensures
            final(self)@ == old(self)@.push(event),
    {
        self.events.push(event);
    }

    /// Removes and returns the newest pending event, if any.
    pub fn next(&mut self) -> (event: Option<T>)
        ensures
            old(self)@.len() == 0 ==> event is None && final(self)@ == old(self)@,
            old(self)@.len() > 0 ==> event == Some(old(self)@.last()) && final(self)@
                == old(self)@.drop_last(),
    {
        self.events.pop()
    }

    /// Removes every pending event and returns them, oldest first.
    pub fn read_all(&mut self) -> (events: Vec<T>)
        ensures
            events@ == old(self)@,
            final(self)@ == Seq::<T>::empty(),
    {
        let mut drained: Vec<T> = Vec::new();
        std::mem::swap(&mut drained, &mut self.events);
        drained
    }
}

impl<T> Default for EventQueue<T> {
    /// An empty queue.
    fn default() -> (queue: EventQueue<T>)
        ensures
            queue@ == Seq::<T>::empty(),
    {
        EventQueue::new()
    }
}

} // verus!
