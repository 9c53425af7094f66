//! The suppression state machine.
//!
//! Two kinds of signal reach the main loop: "activity detected", sent by
//! the activity monitor when real keyboard or pointer input is seen, and
//! "quiet elapsed", sent by a quiet-window timer when it fires. The
//! controller combines them into one flag, "is injection suppressed".
//!
//! Every activity arms a fresh quiet-window timer, named by a generation
//! number. Only the newest generation is authoritative: a "quiet elapsed"
//! signal that carries an older generation belongs to a timer that a later
//! activity superseded, and is discarded. This is the core correctness
//! invariant of the subsystem, stated and proved as
//! [`lemma_suppression_holds`].

use vstd::prelude::*;

verus! {

/// A signal drained by the main loop before each tick.
#[derive(Clone, Copy, PartialEq, Eq, Structural, Debug)]
pub enum TickEvent {
    /// The activity monitor saw keyboard or pointer input.
    Activity,
    /// The quiet-window timer of this generation fired.
    QuietElapsed(u64),
}

/// The single owner of the suppressed flag.
#[derive(Clone, Copy, PartialEq, Eq, Structural, Debug)]
pub struct SuppressionController {
    /// Whether synthetic injection is currently withheld.
    pub suppressed: bool,
    /// The generation of the newest quiet-window timer armed so far.
    pub generation: u64,
}

/// One transition of the state machine.
pub open spec fn step_signal(c: SuppressionController, ev: TickEvent) -> SuppressionController {
    match ev {
        TickEvent::Activity => SuppressionController {
            suppressed: true,
            generation: ((c.generation + 1) as u64),
        },
        TickEvent::QuietElapsed(g) => {
            if c.suppressed && g == c.generation {
                SuppressionController { suppressed: false, generation: c.generation }
            } else {
                c
            }
        },
    }
}

/// The state after consuming a sequence of signals in order.
pub open spec fn fold_signals(c: SuppressionController, evs: Seq<TickEvent>) -> (
    SuppressionController)
    decreases evs.len(),
{
    if evs.len() == 0 {
        c
    } else {
        fold_signals(step_signal(c, evs[0]), evs.skip(1))
    }
}

impl SuppressionController {
    /// The initial state: not suppressed, no timer armed yet.
    pub fn new() -> (c: SuppressionController)
        ensures
            c == (SuppressionController { suppressed: false, generation: 0 }),
    {
        SuppressionController { suppressed: false, generation: 0 }
    }

    /// Consumes an "activity detected" signal: suppression opens (or is
    /// extended) and a fresh quiet-window timer generation is armed,
    /// superseding every earlier one.
    pub fn on_activity(&mut self)
        requires
            old(self).generation < u64::MAX,
        ensures
            *final(self) == step_signal(*old(self), TickEvent::Activity),
    {
        self.suppressed = true;
        self.generation = self.generation + 1;
    }

    /// Consumes a "quiet elapsed" signal from the timer of generation `g`:
    /// suppression closes only if that timer is still the newest one;
    /// a stale timer, superseded by a later activity, changes nothing.
    pub fn on_quiet_elapsed(&mut self, g: u64)
        ensures
            *final(self) == step_signal(*old(self), TickEvent::QuietElapsed(g)),
    {
        if self.suppressed && g == self.generation {
            self.suppressed = false;
        }
    }

    /// The single query the injection loop asks each tick.
    pub fn is_suppressed(&self) -> (r: bool)
        ensures
            r == self.suppressed,
    {
        self.suppressed
    }
}

/// Whether any of the signals reports activity.
pub open spec fn has_activity(evs: Seq<TickEvent>) -> bool {
    exists|i: int| 0 <= i < evs.len() && evs[i] is Activity
}

/// Folding a sequence extended by one signal steps once more at the end.
pub proof fn lemma_fold_push(c: SuppressionController, evs: Seq<TickEvent>, e: TickEvent)
    ensures
        fold_signals(c, evs.push(e)) == step_signal(fold_signals(c, evs), e),
    decreases evs.len(),
{
    if evs.len() == 0 {
        assert(evs.push(e)[0] == e);
        assert(evs.push(e).skip(1) =~= Seq::<TickEvent>::empty());
        assert(fold_signals(c, evs.push(e)) == fold_signals(
            step_signal(c, e),
            Seq::<TickEvent>::empty(),
        ));
        assert(fold_signals(step_signal(c, e), Seq::<TickEvent>::empty()) == step_signal(c, e));
        assert(fold_signals(c, evs) == c);
    } else {
        assert(evs.push(e)[0] == evs[0]);
        assert(evs.push(e).skip(1) =~= evs.skip(1).push(e));
        lemma_fold_push(step_signal(c, evs[0]), evs.skip(1), e);
        assert(fold_signals(c, evs.push(e)) == fold_signals(
            step_signal(c, evs[0]),
            evs.skip(1).push(e),
        ));
        assert(fold_signals(c, evs) == fold_signals(step_signal(c, evs[0]), evs.skip(1)));
    }
}

/// Draining signals in batches, one batch per tick, is faithful to the
/// signal stream: folding a concatenation folds the parts in order.
pub proof fn lemma_fold_concat(c: SuppressionController, a: Seq<TickEvent>, b: Seq<TickEvent>)
    ensures
        fold_signals(c, a + b) == fold_signals(fold_signals(c, a), b),
    decreases a.len(),
{
    if a.len() == 0 {
        assert(a + b =~= b);
    } else {
        assert((a + b)[0] == a[0]);
        assert((a + b).skip(1) =~= a.skip(1) + b);
        lemma_fold_concat(step_signal(c, a[0]), a.skip(1), b);
    }
}

/// Each signal raises the timer generation by at most one.
pub proof fn lemma_fold_generation_bound(c: SuppressionController, evs: Seq<TickEvent>)
    ensures
        fold_signals(c, evs).generation <= c.generation + evs.len(),
    decreases evs.len(),
{
    if evs.len() > 0 {
        lemma_fold_generation_bound(step_signal(c, evs[0]), evs.skip(1));
    }
}

/// Extending the signals by one preserves what "some activity" means.
pub proof fn lemma_has_activity_push(evs: Seq<TickEvent>, e: TickEvent)
    ensures
        has_activity(evs.push(e)) == (has_activity(evs) || e is Activity),
{
    if has_activity(evs) {
        let i = choose|i: int| 0 <= i < evs.len() && evs[i] is Activity;
        assert(evs.push(e)[i] is Activity);
    }
    if e is Activity {
        assert(evs.push(e)[evs.len() as int] is Activity);
    }
    if has_activity(evs.push(e)) && !(e is Activity) {
        let i = choose|i: int| 0 <= i < evs.push(e).len() && evs.push(e)[i] is Activity;
        assert(i < evs.len());
        assert(evs[i] is Activity);
    }
}

/// The generation that is authoritative after the first `i` of the
/// signals have been consumed.
pub open spec fn generation_at(c: SuppressionController, evs: Seq<TickEvent>, i: int) -> u64 {
    fold_signals(c, evs.take(i)).generation
}

/// Folding distributes over the first signal.
proof fn lemma_fold_unfold(c: SuppressionController, evs: Seq<TickEvent>)
    requires
        evs.len() > 0,
    ensures
        fold_signals(c, evs) == fold_signals(step_signal(c, evs[0]), evs.skip(1)),
{
}

/// The suppression invariant: once suppressed, the controller stays
/// suppressed through any sequence of signals in which no "quiet
/// elapsed" signal carries the generation that is authoritative at its
/// own position. In particular, stale timers of superseded activities
/// never lift suppression, and each new activity restarts the quiet
/// window by arming a fresh generation.
pub proof fn lemma_suppression_holds(c: SuppressionController, evs: Seq<TickEvent>)
    requires
        c.suppressed,
        forall|i: int|
            0 <= i < evs.len() ==> !(#[trigger] evs[i] == TickEvent::QuietElapsed(
                generation_at(c, evs, i),
            )),
    ensures
        fold_signals(c, evs).suppressed,
    decreases evs.len(),
{
    if evs.len() > 0 {
        let c1 = step_signal(c, evs[0]);
        assert(evs.take(0) =~= Seq::<TickEvent>::empty());
        assert(generation_at(c, evs, 0) == c.generation);
        assert(c1.suppressed) by {
            match evs[0] {
                TickEvent::Activity => {},
                TickEvent::QuietElapsed(g) => {
                    assert(g != c.generation);
                },
            }
        }
        let rest = evs.skip(1);
        assert forall|i: int| 0 <= i < rest.len() implies !(#[trigger] rest[i]
            == TickEvent::QuietElapsed(generation_at(c1, rest, i))) by {
            assert(evs.take(i + 1).skip(1) =~= rest.take(i));
            assert(evs.take(i + 1).len() > 0);
            assert(evs.take(i + 1)[0] == evs[0]);
            lemma_fold_unfold(c, evs.take(i + 1));
            assert(generation_at(c, evs, i + 1) == generation_at(c1, rest, i));
            assert(evs[i + 1] == rest[i]);
        }
        lemma_suppression_holds(c1, rest);
    }
}

/// A quiet-window timer that is still the newest closes suppression:
/// the matching "quiet elapsed" signal returns the controller to the
/// not-suppressed state.
pub proof fn lemma_matching_timer_releases(c: SuppressionController)
    requires
        c.suppressed,
    ensures
        !step_signal(c, TickEvent::QuietElapsed(c.generation)).suppressed,
{
}

} // verus!
