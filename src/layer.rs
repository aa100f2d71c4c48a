use vstd::prelude::*;

verus! {

/// What the window reports to the render loop, as far as the loop cares.
#[derive(Clone, Copy, Debug, PartialEq, Eq, Structural)]
pub enum WindowEvent {
    CloseRequested,
    Other,
}

/// Whether `event` ends the render loop.
pub fn quit_on_close(event: WindowEvent) -> (r: bool)
    ensures
        r == (event == WindowEvent::CloseRequested),
{
    match event {
        WindowEvent::CloseRequested => true,
        WindowEvent::Other => false,
    }
}

/// Whether the loop stops after a frame whose polled events are `events`: it stops as soon
/// as one of them asks to close, wherever it stands among the others.
pub fn should_close(events: &[WindowEvent]) -> (r: bool)
    ensures
        r == exists|i: int| 0 <= i < events@.len() && events@[i] == WindowEvent::CloseRequested,
{
    let mut i: usize = 0;
    while i < events.len()
        invariant
            i <= events@.len(),
            forall|j: int| 0 <= j < i ==> events@[j] != WindowEvent::CloseRequested,
        decreases events@.len() - i,
    {
        if quit_on_close(events[i]) {
            return true;
        }
        i = i + 1;
    }
    false
}

} // verus!
