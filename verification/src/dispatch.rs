//! The run loop's decision core.
//!
//! The shell is a single-threaded, poll-driven dispatcher: the host hands it
//! one event at a time, and for each event it performs the applicable actions
//! in a fixed priority order — step the machine (and re-derive the title),
//! render the current screen, then apply key presses and releases. An event
//! usually carries one classification, but the order is fixed even for an
//! event that carries several. This module decides, as plain values, which
//! actions an event demands and in what order; the host layer performs them
//! (the machine step itself takes the host's elapsed-time delta, a real
//! number the host keeps).

use vstd::prelude::*;

verus! {

use crate::keys::HostKey;
use crate::keys::keymap;
use crate::keys::keymap_spec;

/// One polled host event, classified: any subset of the four categories.
/// `update` is a timer tick (the host holds the elapsed-time delta),
/// `render` means a frame is due, `press` and `release` carry a key change.
#[derive(Clone, Copy, PartialEq, Eq, Debug)]
pub struct HostEvent {
    /// A timer tick: the machine must be stepped by the elapsed time, and the
    /// title re-derived from the beep flag immediately after.
    pub update: bool,
    /// A frame is due: the machine's live screen must be read and drawn.
    pub render: bool,
    /// A key went down.
    pub press: Option<HostKey>,
    /// A key came up.
    pub release: Option<HostKey>,
}

/// One action the host layer must perform, in the order dispatched.
#[derive(Clone, Copy, PartialEq, Eq, Structural, Debug)]
pub enum Action {
    /// Step the machine by the pending elapsed time, then update the title
    /// from the beep flag.
    Step,
    /// Read the machine's live screen and draw it.
    Render,
    /// Mark the keypad button with this code as pressed.
    SetKey(u8),
    /// Mark the keypad button with this code as released.
    UnsetKey(u8),
}

/// Whether an action carries a legal keypad code.
pub open spec fn action_valid(a: Action) -> bool {
    match a {
        Action::SetKey(c) => c < 16,
        Action::UnsetKey(c) => c < 16,
        _ => true,
    }
}

/// The keypad-press action of a key-down event: one `SetKey` when the key is
/// mapped, nothing when it is not (an unmapped key is a normal no-op).
pub open spec fn press_actions(k: Option<HostKey>) -> Seq<Action> {
    match k {
        Some(key) => match keymap_spec(key) {
            Some(c) => seq![Action::SetKey(c)],
            None => seq![],
        },
        None => seq![],
    }
}

/// The keypad-release action of a key-up event, like [`press_actions`].
pub open spec fn release_actions(k: Option<HostKey>) -> Seq<Action> {
    match k {
        Some(key) => match keymap_spec(key) {
            Some(c) => seq![Action::UnsetKey(c)],
            None => seq![],
        },
        None => seq![],
    }
}

/// Every action one event demands, in the fixed priority order: step first,
/// then render, then key press, then key release.
pub open spec fn dispatch_spec(e: HostEvent) -> Seq<Action> {
    (if e.update {
        seq![Action::Step]
    } else {
        Seq::empty()
    }) + (if e.render {
        seq![Action::Render]
    } else {
        Seq::empty()
    }) + press_actions(e.press) + release_actions(e.release)
}

/// Classifies one polled event into the ordered actions to perform.
pub fn dispatch(e: &HostEvent) -> (acts: Vec<Action>)
    ensures
        acts@ == dispatch_spec(*e),
        forall|i: int| 0 <= i < acts@.len() ==> action_valid(#[trigger] acts@[i]),
{
    let mut acts: Vec<Action> = Vec::new();
    if e.update {
        acts.push(Action::Step);
    }
    if e.render {
        acts.push(Action::Render);
    }
    if let Some(k) = e.press {
        if let Some(c) = keymap(k) {
            acts.push(Action::SetKey(c));
        }
    }
    if let Some(k) = e.release {
        if let Some(c) = keymap(k) {
            acts.push(Action::UnsetKey(c));
        }
    }
    proof {
        assert(acts@ =~= dispatch_spec(*e));
    }
    acts
}

/// The whole action stream of a sequence of polled events, each event's
/// actions in dispatch order, events in poll order.
pub open spec fn run_spec(events: Seq<HostEvent>) -> Seq<Action>
    decreases events.len(),
{
    if events.len() == 0 {
        Seq::empty()
    } else {
        dispatch_spec(events[0]) + run_spec(events.drop_first())
    }
}

/// Classifies a whole sequence of polled events into one action stream.
pub fn dispatch_all(events: &Vec<HostEvent>) -> (acts: Vec<Action>)
    ensures
        acts@ == run_spec(events@),
{
    let mut acts: Vec<Action> = Vec::new();
    let mut i: usize = 0;
    while i < events.len()
        invariant
            i <= events@.len(),
            acts@ == run_spec(events@.take(i as int)),
        decreases events@.len() - i,
    {
        let mut next = dispatch(&events[i]);
        proof {
            lemma_run_spec_concat(events@.take(i as int), seq![events@[i as int]]);
            assert(events@.take(i as int) + seq![events@[i as int]] =~= events@.take(
                i as int + 1,
            ));
            lemma_run_spec_single(events@[i as int]);
        }
        acts.append(&mut next);
        i += 1;
    }
    proof {
        assert(events@.take(events@.len() as int) =~= events@);
    }
    acts
}

/// The action stream of a single polled event is exactly its dispatch.
pub proof fn lemma_run_spec_single(e: HostEvent)
    ensures
        run_spec(seq![e]) == dispatch_spec(e),
{
    let s = seq![e];
    assert(s.drop_first() =~= Seq::<HostEvent>::empty());
    assert(run_spec(Seq::<HostEvent>::empty()) == Seq::<Action>::empty());
    assert(run_spec(s) == dispatch_spec(e) + run_spec(s.drop_first()));
    assert(dispatch_spec(e) + Seq::<Action>::empty() =~= dispatch_spec(e));
}

/// The action stream of concatenated event sequences is the concatenation of
/// their action streams.
pub proof fn lemma_run_spec_concat(a: Seq<HostEvent>, b: Seq<HostEvent>)
    ensures
        run_spec(a + b) == run_spec(a) + run_spec(b),
    decreases a.len(),
{
    if a.len() == 0 {
        assert(a + b =~= b);
        assert(run_spec(a) + run_spec(b) =~= run_spec(b));
    } else {
        assert((a + b).len() != 0);
        assert((a + b)[0] == a[0]);
        assert((a + b).drop_first() =~= a.drop_first() + b);
        lemma_run_spec_concat(a.drop_first(), b);
        assert(run_spec(a + b) =~= run_spec(a) + run_spec(b));
    }
}

/// A key-down event for a mapped key, followed by a render-due event, puts
/// the keypad update strictly before the render in the action stream: the
/// render always observes the machine with the press already applied.
pub proof fn lemma_press_precedes_render(k: HostKey, c: u8, e1: HostEvent, e2: HostEvent)
    requires
        keymap_spec(k) == Some(c),
        !e1.update && !e1.render && e1.press == Some(k) && e1.release is None,
        !e2.update && e2.render && e2.press is None && e2.release is None,
    ensures
        run_spec(seq![e1, e2]) == seq![Action::SetKey(c), Action::Render],
{
    let s = seq![e1, e2];
    assert(s.drop_first() =~= seq![e2]);
    assert(run_spec(s) == dispatch_spec(e1) + run_spec(seq![e2]));
    lemma_run_spec_single(e2);
    assert(dispatch_spec(e1) =~= seq![Action::SetKey(c)]);
    assert(dispatch_spec(e2) =~= seq![Action::Render]);
    assert(run_spec(s) =~= seq![Action::SetKey(c), Action::Render]);
}

} // verus!
