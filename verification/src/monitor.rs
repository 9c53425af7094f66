//! Decisions of the two background samplers.
//!
//! The activity monitor polls the input devices and must decide, from one
//! sample to the next, whether real user activity happened; the exit
//! watcher polls the keyboard and must decide whether the quit combination
//! is down. Reading the devices is the unverified shell's work; the
//! decisions on the sampled values are made here.

use vstd::prelude::*;

verus! {

/// A pointer position as the probe reports it.
#[derive(Clone, Copy, PartialEq, Eq, Structural, Debug)]
pub struct PointerPos {
    pub x: i32,
    pub y: i32,
}

/// The keys the exit watcher distinguishes: either control modifier,
/// the quit letter, and everything else.
#[derive(Clone, Copy, PartialEq, Eq, Structural, Debug)]
pub enum MonitoredKey {
    ControlLeft,
    ControlRight,
    LetterQ,
    Other,
}

/// Whether two pointer samples name the same position.
pub fn are_points_equal(left: &PointerPos, right: &PointerPos) -> (r: bool)
    ensures
        r == (left.x == right.x && left.y == right.y),
{
    left.x == right.x && left.y == right.y
}

/// Whether a sample shows user activity: some key is down, or the
/// pointer moved since the previous sample.
pub fn activity_detected(keys_down: usize, last: &PointerPos, current: &PointerPos) -> (r: bool)
    ensures
        r == (keys_down > 0 || !(current.x == last.x && current.y == last.y)),
{
    let has_keyboard_input = keys_down > 0;
    let has_mouse_input = !are_points_equal(current, last);
    has_keyboard_input || has_mouse_input
}

/// Whether two key samples report the same keys in the same order.
fn keys_equal(a: &Vec<u32>, b: &Vec<u32>) -> (r: bool)
    ensures
        r == (a@ == b@),
{
    if a.len() != b.len() {
        proof {
            assert(a@ != b@);
        }
        return false;
    }
    let mut i: usize = 0;
    while i < a.len()
        invariant
            a@.len() == b@.len(),
            i <= a@.len(),
            forall|j: int| 0 <= j < i ==> a@[j] == b@[j],
        decreases a@.len() - i,
    {
        if a[i] != b[i] {
            return false;
        }
        i = i + 1;
    }
    proof {
        assert(a@ =~= b@);
    }
    true
}

/// Whether this sample is to signal "activity detected": exactly once
/// per state-change event, not once per poll. The state changes when
/// the non-empty set of keys down differs from the previous sample —
/// a press from idle, a further key joining held ones, or one key
/// swapped for another; a key set merely still held signals nothing
/// further — or when the pointer moved since the previous sample.
pub fn signal_activity(
    prev_keys: &Vec<u32>,
    keys: &Vec<u32>,
    last: &PointerPos,
    current: &PointerPos,
) -> (r: bool)
    ensures
        r == ((keys@.len() > 0 && keys@ != prev_keys@) || !(current.x == last.x && current.y
            == last.y)),
{
    let key_set_changed = keys.len() > 0 && !keys_equal(keys, prev_keys);
    let pointer_moved = !are_points_equal(current, last);
    key_set_changed || pointer_moved
}

/// Whether the quit combination is down: a control modifier together
/// with the quit letter.
pub fn is_quit_combo(keys: &Vec<MonitoredKey>) -> (r: bool)
    ensures
        r == ((keys@.contains(MonitoredKey::ControlLeft) || keys@.contains(
            MonitoredKey::ControlRight,
        )) && keys@.contains(MonitoredKey::LetterQ)),
{
    let mut ctrl = false;
    let mut q = false;
    let mut i: usize = 0;
    while i < keys.len()
        invariant
            i <= keys@.len(),
            ctrl == (exists|j: int|
                0 <= j < i && (keys@[j] == MonitoredKey::ControlLeft || keys@[j]
                    == MonitoredKey::ControlRight)),
            q == (exists|j: int| 0 <= j < i && keys@[j] == MonitoredKey::LetterQ),
        decreases keys@.len() - i,
    {
        match keys[i] {
            MonitoredKey::ControlLeft => {
                ctrl = true;
            },
            MonitoredKey::ControlRight => {
                ctrl = true;
            },
            MonitoredKey::LetterQ => {
                q = true;
            },
            MonitoredKey::Other => {},
        }
        i = i + 1;
    }
    proof {
        if ctrl {
            let j = choose|j: int|
                0 <= j < keys@.len() && (keys@[j] == MonitoredKey::ControlLeft || keys@[j]
                    == MonitoredKey::ControlRight);
            if keys@[j] == MonitoredKey::ControlLeft {
                assert(keys@.contains(MonitoredKey::ControlLeft));
            } else {
                assert(keys@.contains(MonitoredKey::ControlRight));
            }
        }
        if keys@.contains(MonitoredKey::ControlLeft) {
            let j = choose|j: int| 0 <= j < keys@.len() && keys@[j] == MonitoredKey::ControlLeft;
            assert(0 <= j < keys@.len() && (keys@[j] == MonitoredKey::ControlLeft || keys@[j]
                == MonitoredKey::ControlRight));
        }
        if keys@.contains(MonitoredKey::ControlRight) {
            let j = choose|j: int| 0 <= j < keys@.len() && keys@[j] == MonitoredKey::ControlRight;
            assert(0 <= j < keys@.len() && (keys@[j] == MonitoredKey::ControlLeft || keys@[j]
                == MonitoredKey::ControlRight));
        }
        assert(q == keys@.contains(MonitoredKey::LetterQ));
    }
    ctrl && q
}

} // verus!
