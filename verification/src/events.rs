//! Window events as the render loop sees them.

use vstd::prelude::*;

use crate::laws::law_observed_events_set_flags;

verus! {

/// What the render loop needs to know of one polled window-system event.
#[derive(Clone, Copy, Debug, PartialEq, Eq)]
pub enum WindowEventKind {
    /// The user asked to close the window.
    CloseRequested,
    /// The window changed size.
    Resized,
    /// Any other event; the loop ignores it.
    Other,
}

/// The two flags that one round of event polling yields.
#[derive(Clone, Copy, Debug, PartialEq, Eq)]
pub struct EventFlags {
    /// The program should stop after this frame.
    pub done: bool,
    /// The swapchain must be rebuilt at the start of the next frame.
    pub recreate_swapchain: bool,
}

/// Some event of `events` asks to close the window.
pub open spec fn requests_close(events: Seq<WindowEventKind>) -> bool {
    exists|i: int| 0 <= i < events.len() && events[i] == WindowEventKind::CloseRequested
}

/// Some event of `events` reports a resize.
pub open spec fn requests_resize(events: Seq<WindowEventKind>) -> bool {
    exists|i: int| 0 <= i < events.len() && events[i] == WindowEventKind::Resized
}

impl EventFlags {
    /// Both flags cleared.
    pub open spec fn spec_none() -> EventFlags {
        EventFlags { done: false, recreate_swapchain: false }
    }

    /// The flags after one more event has been seen.
    pub open spec fn spec_observe(self, event: WindowEventKind) -> EventFlags {
        match event {
            WindowEventKind::CloseRequested => EventFlags { done: true, ..self },
            WindowEventKind::Resized => EventFlags { recreate_swapchain: true, ..self },
            WindowEventKind::Other => self,
        }
    }

    /// The flags at the start of a round of polling: both cleared.
    pub fn none() -> (flags: EventFlags)
        ensures
            flags == EventFlags::spec_none(),
            !flags.done,
            !flags.recreate_swapchain,
    {
        EventFlags { done: false, recreate_swapchain: false }
    }

    /// Takes one polled event into account: a close request sets `done`,
    /// a resize sets `recreate_swapchain`, anything else changes nothing.
    /// A flag once set stays set.
    pub fn observe(&mut self, event: WindowEventKind)
        ensures
            *final(self) == old(self).spec_observe(event),
            final(self).done == (old(self).done || event == WindowEventKind::CloseRequested),
            final(self).recreate_swapchain == (old(self).recreate_swapchain || event
                == WindowEventKind::Resized),
    {
        match event {
            WindowEventKind::CloseRequested => {
                self.done = true;
            },
            WindowEventKind::Resized => {
                self.recreate_swapchain = true;
            },
            WindowEventKind::Other => {},
        }
    }
}

/// The flags left by observing `events` one after the other from cleared flags.
pub open spec fn fold_events(events: Seq<WindowEventKind>) -> EventFlags
    decreases events.len(),
{
    if events.len() == 0 {
        EventFlags::spec_none()
    } else {
        fold_events(events.drop_last()).spec_observe(events.last())
    }
}

/// The flags that a whole round of polled events yields: `done` exactly when
/// some event asks to close the window, `recreate_swapchain` exactly when some
/// event reports a resize.
pub fn poll_flags(events: &Vec<WindowEventKind>) -> (flags: EventFlags)
    ensures
        flags == fold_events(events@),
        flags.done == requests_close(events@),
        flags.recreate_swapchain == requests_resize(events@),
{
    let mut flags = EventFlags::none();
    let n = events.len();
    for i in 0..n
        invariant
            n == events@.len(),
            flags == fold_events(events@.take(i as int)),
    {
        proof {
            assert(events@.take(i + 1).drop_last() =~= events@.take(i as int));
        }
        flags.observe(events[i]);
    }
    proof {
        assert(events@.take(n as int) =~= events@);
        law_observed_events_set_flags(events@);
    }
    flags
}

} // verus!
