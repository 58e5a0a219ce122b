//! Input-event classification: decoding hardware key events into the small
//! set of volume actions, and mapping whole batches in event order.

use vstd::prelude::*;

verus! {

/// Key code the host's input subsystem reports for the volume-up key.
pub const KEY_VOLUMEUP: u16 = 115;

/// Key code for the volume-down key.
pub const KEY_VOLUMEDOWN: u16 = 114;

/// Key code for the mute key.
pub const KEY_MUTE: u16 = 113;

/// Classification of one hardware input event: a key event carrying its key
/// code, or any other signal (axis motion, synchronization markers, ...).
#[derive(Clone, Copy, Debug, PartialEq, Eq, Structural)]
pub enum EventKind {
    Key(u16),
    Other,
}

/// An immutable record of one hardware input event: its kind and its value.
/// A value of zero marks a key release or autorepeat-off; any non-zero value
/// is a press or a repeat tick of a held key (the leading edge).
#[derive(Clone, Copy, Debug, PartialEq, Eq, Structural)]
pub struct InputEvent {
    pub kind: EventKind,
    pub value: i32,
}

/// A recognized volume action, derived purely from an event's key identity.
#[derive(Clone, Copy, Debug, PartialEq, Eq, Structural)]
pub enum Action {
    VolumeUp,
    VolumeDown,
    Mute,
}

/// The action an event yields: none for zero-value (release) events and for
/// events that are not presses of one of the three volume keys.
pub open spec fn action_of(ev: InputEvent) -> Option<Action> {
    if ev.value == 0 {
        None
    } else {
        match ev.kind {
            EventKind::Key(code) => if code == KEY_VOLUMEUP {
                Some(Action::VolumeUp)
            } else if code == KEY_VOLUMEDOWN {
                Some(Action::VolumeDown)
            } else if code == KEY_MUTE {
                Some(Action::Mute)
            } else {
                None
            },
            EventKind::Other => None,
        }
    }
}

/// Classifies one input event into its action, if any.
pub fn classify(ev: &InputEvent) -> (r: Option<Action>)
    ensures
        r == action_of(*ev),
{
    if ev.value == 0 {
        return None;
    }
    match ev.kind {
        EventKind::Key(code) => if code == KEY_VOLUMEUP {
            Some(Action::VolumeUp)
        } else if code == KEY_VOLUMEDOWN {
            Some(Action::VolumeDown)
        } else if code == KEY_MUTE {
            Some(Action::Mute)
        } else {
            None
        },
        EventKind::Other => None,
    }
}

/// The actions a batch of events yields, in event order: each event
/// contributes its action, if it has one, and nothing otherwise.
pub open spec fn actions_of_batch(evs: Seq<InputEvent>) -> Seq<Action>
    decreases evs.len(),
{
    if evs.len() == 0 {
        Seq::empty()
    } else {
        match action_of(evs.last()) {
            Some(a) => actions_of_batch(evs.drop_last()).push(a),
            None => actions_of_batch(evs.drop_last()),
        }
    }
}

/// Classifies every event of a batch, in order, keeping the actionable ones.
pub fn actions_of(events: &Vec<InputEvent>) -> (r: Vec<Action>)
    ensures
        r@ == actions_of_batch(events@),
{
    let mut out: Vec<Action> = Vec::new();
    let n = events.len();
    let mut i: usize = 0;
    while i < n
        invariant
            n == events@.len(),
            0 <= i <= n,
            out@ == actions_of_batch(events@.subrange(0, i as int)),
        decreases n - i,
    {
        proof {
            assert(events@.subrange(0, i + 1).drop_last() =~= events@.subrange(0, i as int));
            assert(events@.subrange(0, i + 1).last() == events@[i as int]);
        }
        match classify(&events[i]) {
            Some(a) => out.push(a),
            None => {},
        }
        i += 1;
    }
    proof {
        assert(events@.subrange(0, n as int) =~= events@);
    }
    out
}

/// A zero-value event (key release or autorepeat-off) never yields an
/// action, whatever its key identity or kind.
pub proof fn lemma_release_yields_no_action(ev: InputEvent)
    requires
        ev.value == 0,
    ensures
        action_of(ev) is None,
{
}

/// A non-zero-value event yields exactly the action of its key identity:
/// one of the three volume keys yields its one action, and any other key
/// identity or event kind yields none.
pub proof fn lemma_press_yields_matching_action(ev: InputEvent)
    requires
        ev.value != 0,
    ensures
        action_of(ev) == Some(Action::VolumeUp) <==> ev.kind == EventKind::Key(KEY_VOLUMEUP),
        action_of(ev) == Some(Action::VolumeDown) <==> ev.kind == EventKind::Key(KEY_VOLUMEDOWN),
        action_of(ev) == Some(Action::Mute) <==> ev.kind == EventKind::Key(KEY_MUTE),
        action_of(ev) is None <==> !(ev.kind == EventKind::Key(KEY_VOLUMEUP)
            || ev.kind == EventKind::Key(KEY_VOLUMEDOWN) || ev.kind == EventKind::Key(KEY_MUTE)),
{
}

/// A batch of consecutive non-zero volume-up events yields exactly one
/// volume-up action per event, in event order.
pub proof fn lemma_held_volume_up_repeats(evs: Seq<InputEvent>)
    requires
        forall|i: int| 0 <= i < evs.len() ==> (#[trigger] evs[i]).kind == EventKind::Key(
            KEY_VOLUMEUP,
        ) && evs[i].value != 0,
    ensures
        actions_of_batch(evs).len() == evs.len(),
        forall|i: int| 0 <= i < evs.len() ==> actions_of_batch(evs)[i] == Action::VolumeUp,
    decreases evs.len(),
{
    if evs.len() > 0 {
        assert(forall|i: int| 0 <= i < evs.drop_last().len() ==> evs.drop_last()[i] == evs[i]);
        lemma_held_volume_up_repeats(evs.drop_last());
    }
}

} // verus!
