//! Input events and the per-frame event queue resource.
//!
//! The presentation collaborator polls the window once per frame and hands
//! the core an ordered list of plain events. [`drain_polled_events`] is the
//! core's side of that boundary: it decides which polled events quit the
//! game, resize the framebuffer or toggle bounding-box drawing, and which are
//! kept in the queue for the gameplay systems to read.

use vstd::prelude::*;

verus! {

/// The keys the gameplay, transform-edit and camera systems react to.
#[derive(Clone, Copy, Debug, PartialEq, Eq, Structural)]
pub enum Key {
    Space,
    LeftShift,
    LeftControl,
    N,
    A,
    D,
    W,
    S,
    Equal,
    Minus,
    Q,
    E,
    Z,
    X,
    R,
    F,
    PageUp,
    PageDown,
    H,
    J,
    K,
    L,
    Left,
    Right,
    B,
    Escape,
}

/// What happened to a key.
#[derive(Clone, Copy, Debug, PartialEq, Eq, Structural)]
pub enum Action {
    Press,
    Release,
    Repeat,
}

/// One discrete event delivered by the presentation collaborator.
#[derive(Clone, Copy, Debug, PartialEq, Eq, Structural)]
pub enum InputEvent {
    Key(Key, Action),
    Close,
    FramebufferSize,
}

/// The per-frame event queue resource, cleared and refilled once per frame.
#[derive(Clone, Debug, PartialEq)]
pub struct DoemEvents(pub Vec<InputEvent>);

impl Default for DoemEvents {
    /// An empty queue.
    fn default() -> (r: DoemEvents)
        ensures
            r.0@ == Seq::<InputEvent>::empty(),
    {
        DoemEvents(Vec::new())
    }
}

/// `key` was pressed or is being held down (auto-repeat).
pub open spec fn is_key_active(e: InputEvent, key: Key) -> bool {
    e == InputEvent::Key(key, Action::Press) || e == InputEvent::Key(key, Action::Repeat)
}

/// The event asks the game to quit: the window is closing, or escape was released.
pub open spec fn is_quit_event(e: InputEvent) -> bool {
    e == InputEvent::Close || e == InputEvent::Key(Key::Escape, Action::Release)
}

/// The event toggles bounding-box drawing.
pub open spec fn is_toggle_event(e: InputEvent) -> bool {
    is_key_active(e, Key::B)
}

/// The event resizes the framebuffer.
pub open spec fn is_resize_event(e: InputEvent) -> bool {
    e == InputEvent::FramebufferSize
}

/// An event the gameplay systems should see next frame: anything the render
/// boundary does not consume itself.
pub open spec fn is_retained_event(e: InputEvent) -> bool {
    !is_quit_event(e) && !is_toggle_event(e) && !is_resize_event(e)
}

/// What one frame's polled events mean to the render boundary.
#[derive(Clone, Debug, PartialEq)]
pub struct PolledEvents {
    /// The game should stop after this frame.
    pub quit: bool,
    /// How many times bounding-box drawing was toggled.
    pub bounding_box_toggles: usize,
    /// The framebuffer must be fetched again.
    pub resize: bool,
    /// The events the gameplay systems will read next frame.
    pub retained: Vec<InputEvent>,
}

/// Splits the events polled at the end of a frame into the render boundary's
/// own concerns (quit, bounding-box toggling, resizing) and the events kept
/// for the gameplay systems.
pub fn drain_polled_events(polled: &Vec<InputEvent>) -> (r: PolledEvents)
    ensures
        r.quit == exists|i: int| 0 <= i < polled@.len() && is_quit_event(polled@[i]),
        r.resize == exists|i: int| 0 <= i < polled@.len() && is_resize_event(polled@[i]),
        r.bounding_box_toggles == polled@.filter(|e: InputEvent| is_toggle_event(e)).len(),
        r.retained@ == polled@.filter(|e: InputEvent| is_retained_event(e)),
{
    let mut quit = false;
    let mut resize = false;
    let mut toggles: usize = 0;
    let mut retained: Vec<InputEvent> = Vec::new();
    let n = polled.len();
    let mut i: usize = 0;
    while i < n
        invariant
            n == polled@.len(),
            i <= n,
            quit == exists|k: int| 0 <= k < i && is_quit_event(polled@[k]),
            resize == exists|k: int| 0 <= k < i && is_resize_event(polled@[k]),
            toggles == polled@.take(i as int).filter(|e: InputEvent| is_toggle_event(e)).len(),
            retained@ == polled@.take(i as int).filter(|e: InputEvent| is_retained_event(e)),
        decreases n - i,
    {
        let e = polled[i];
        proof {
            assert(polled@.take(i + 1) =~= polled@.take(i as int).push(polled@[i as int]));
            lemma_filter_push(polled@.take(i as int), polled@[i as int], |ev: InputEvent| is_toggle_event(ev));
            lemma_filter_push(
                polled@.take(i as int),
                polled@[i as int],
                |ev: InputEvent| is_retained_event(ev),
            );
        }
        if e == InputEvent::Close || e == InputEvent::Key(Key::Escape, Action::Release) {
            quit = true;
        } else if e == InputEvent::FramebufferSize {
            resize = true;
        } else if e == InputEvent::Key(Key::B, Action::Press) || e == InputEvent::Key(
            Key::B,
            Action::Repeat,
        ) {
            // The toggle count never outgrows the vector holding the events.
            proof {
                polled@.take(i as int).lemma_filter_len(|ev: InputEvent| is_toggle_event(ev));
            }
            toggles = toggles + 1;
        } else {
            retained.push(e);
        }
        i = i + 1;
    }
    proof {
        assert(polled@.take(n as int) == polled@);
    }
    PolledEvents { quit, bounding_box_toggles: toggles, resize, retained }
}

/// Filtering commutes with appending one element at the end.
pub proof fn lemma_filter_push<A>(s: Seq<A>, e: A, pred: spec_fn(A) -> bool)
    ensures
        s.push(e).filter(pred) == if pred(e) {
            s.filter(pred).push(e)
        } else {
            s.filter(pred)
        },
{
    reveal(Seq::filter);
    assert(s.push(e).drop_last() =~= s);
    assert(s.push(e).last() == e);
    if pred(e) {
        assert(s.push(e).filter(pred) =~= s.filter(pred).push(e));
    } else {
        assert(s.push(e).filter(pred) =~= s.filter(pred));
    }
}

} // verus!
