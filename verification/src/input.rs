//! Decisions on platform events.  The shell decodes the window toolkit's
//! events into the plain events here; this module decides what they mean
//! for the frame loop: keep running, stop, or note a resize.

use vstd::prelude::*;

use crate::surface::Extent2d;

verus! {

/// What the frame loop does after an event: keep looping or stop.
#[derive(Clone, Copy, PartialEq, Eq, Structural, Debug)]
pub enum ControlFlow {
    Continue,
    Break,
}

/// Whether a key went down or up.
#[derive(Clone, Copy, PartialEq, Eq, Structural, Debug)]
pub enum ElementState {
    Pressed,
    Released,
}

/// The keys the engine distinguishes: the quit key and everything else.
#[derive(Clone, Copy, PartialEq, Eq, Structural, Debug)]
pub enum VirtualKey {
    Escape,
    Other,
}

/// Modifier keys held during a key event.
#[derive(Clone, Copy, PartialEq, Eq, Structural, Debug)]
pub struct ModifiersState {
    pub shift: bool,
    pub ctrl: bool,
    pub alt: bool,
    pub logo: bool,
}

/// A keyboard event as the platform reports it: the physical transition
/// and, when the platform could map it, the key's meaning.
#[derive(Clone, Copy, Debug)]
pub struct KeyboardInput {
    pub virtual_keycode: Option<VirtualKey>,
    pub state: ElementState,
    pub modifiers: ModifiersState,
}

/// A fully decoded key event.
#[derive(Clone, Copy, Debug)]
pub struct Key {
    pub id: VirtualKey,
    pub state: ElementState,
    pub modifiers: ModifiersState,
}

/// Events of the engine's window.
#[derive(Clone, Copy, Debug)]
pub enum WindowEvent {
    /// The window was closed or asked to close.
    Closed,
    /// The window was resized to the given extent.
    Resized(Extent2d),
    /// A key event reached the window.
    KeyboardInput(KeyboardInput),
    /// Anything else that happened to the window.
    Other,
}

/// Everything the platform's event pump can hand over.
#[derive(Clone, Copy, Debug)]
pub enum Event {
    Window(WindowEvent),
    Other,
}

/// What a decoded key means for the loop: pressing the quit key stops it.
pub open spec fn control_of_key(key: Key) -> ControlFlow {
    match (key.id, key.state) {
        (VirtualKey::Escape, ElementState::Pressed) => ControlFlow::Break,
        _ => ControlFlow::Continue,
    }
}

/// What a keyboard event means for the loop: unmapped keys do nothing.
pub open spec fn control_of_keyboard_input(input: KeyboardInput) -> ControlFlow {
    match input.virtual_keycode {
        None => ControlFlow::Continue,
        Some(id) => control_of_key(
            Key { id, state: input.state, modifiers: input.modifiers },
        ),
    }
}

/// What a window event means for the loop: closing the window stops it.
pub open spec fn control_of_window_event(event: WindowEvent) -> ControlFlow {
    match event {
        WindowEvent::Closed => ControlFlow::Break,
        WindowEvent::KeyboardInput(input) => control_of_keyboard_input(input),
        _ => ControlFlow::Continue,
    }
}

/// What any event means for the loop.
pub open spec fn control_of_event(event: Event) -> ControlFlow {
    match event {
        Event::Window(e) => control_of_window_event(e),
        _ => ControlFlow::Continue,
    }
}

/// Decides what a decoded key event means for the loop.
pub fn handle_key(key: Key) -> (r: ControlFlow)
    ensures
        r == control_of_key(key),
{
    match key {
        Key { id: VirtualKey::Escape, state: ElementState::Pressed, .. } => ControlFlow::Break,
        _ => ControlFlow::Continue,
    }
}

/// Decides what a keyboard event means for the loop.
pub fn handle_keyboard_input(input: KeyboardInput) -> (r: ControlFlow)
    ensures
        r == control_of_keyboard_input(input),
{
    match input {
        KeyboardInput { virtual_keycode: None, .. } => ControlFlow::Continue,
        KeyboardInput { virtual_keycode: Some(keycode), state, modifiers } => handle_key(
            Key { id: keycode, state, modifiers },
        ),
    }
}

/// Decides what a window event means for the loop.
pub fn handle_window_event(event: WindowEvent) -> (r: ControlFlow)
    ensures
        r == control_of_window_event(event),
{
    match event {
        WindowEvent::Closed => ControlFlow::Break,
        WindowEvent::KeyboardInput(input) => handle_keyboard_input(input),
        _ => ControlFlow::Continue,
    }
}

/// Decides what any event means for the loop.
pub fn update(event: Event) -> (r: ControlFlow)
    ensures
        r == control_of_event(event),
{
    match event {
        Event::Window(e) => handle_window_event(e),
        _ => ControlFlow::Continue,
    }
}

/// The last resize an event batch reports, if any: a later resize
/// supersedes an earlier one within the same batch.
pub open spec fn last_resize(events: Seq<Event>) -> Option<Extent2d>
    decreases events.len(),
{
    if events.len() == 0 {
        None
    } else {
        match events.last() {
            Event::Window(WindowEvent::Resized(extent)) => Some(extent),
            _ => last_resize(events.drop_last()),
        }
    }
}

/// What one pumped batch of events asks of the frame loop.
#[derive(Clone, Copy, Debug)]
pub struct PollOutcome {
    /// Some event asked the loop to stop.
    pub exit: bool,
    /// The extent of the batch's last resize, if it contained one.
    pub resize: Option<Extent2d>,
}

/// Folds one batch of pumped events into the loop's decision: stop if
/// any event says stop, and remember the last reported resize.
pub fn poll_events_outcome(events: &Vec<Event>) -> (o: PollOutcome)
    ensures
        o.exit == exists|i: int|
            0 <= i < events.len() && control_of_event(events[i]) == ControlFlow::Break,
        o.resize == last_resize(events@),
{
    let mut exit = false;
    let mut resize: Option<Extent2d> = None;
    let mut k: usize = 0;
    while k < events.len()
        invariant
            0 <= k <= events.len(),
            exit == exists|i: int|
                0 <= i < k && control_of_event(events@[i]) == ControlFlow::Break,
            resize == last_resize(events@.take(k as int)),
        decreases events.len() - k,
    {
        let event = events[k];
        match update(event) {
            ControlFlow::Break => {
                exit = true;
            },
            ControlFlow::Continue => {},
        }
        match event {
            Event::Window(WindowEvent::Resized(extent)) => {
                resize = Some(extent);
            },
            _ => {},
        }
        proof {
            assert(events@.take(k + 1).last() == events@[k as int]);
            assert(events@.take(k + 1).drop_last() == events@.take(k as int));
        }
        k = k + 1;
    }
    proof {
        assert(events@.take(events@.len() as int) == events@);
    }
    PollOutcome { exit, resize }
}

} // verus!
