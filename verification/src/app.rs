//! The per-tick decision of the main loop.
//!
//! Each tick the shell drains the pending signals, reads the clocks and
//! hands both to [`App::tick`], which owns every decision: it folds the
//! signals into the suppression controller, asks the deadline whether to
//! stop — expiry is checked every tick, suppressed or not — and, when
//! injection is due, produces the status text and the injection's hold
//! time. The shell merely performs what the returned [`TickOutcome`]
//! says: print the text, arm the quiet-window timer, press and release
//! the key for the hold time, idle briefly, or stop.

use vstd::prelude::*;
use crate::clock::{ClockSample, DeadlineClock};
use crate::config::Config;
use crate::spinner::{spin_symbol, Spinner};
use crate::suppress::{
    fold_signals, has_activity, lemma_fold_generation_bound, lemma_fold_push,
    lemma_has_activity_push, SuppressionController, TickEvent,
};
use crate::timefmt::{format_hms, hms_chars};
use crate::ui::{write_chars, Ui};
use vstd::string::StringExecFns;

verus! {

/// How long the loop idles before re-checking while suppressed, in ms.
pub const IDLE_TICK_MS: u64 = 100;

/// The line announcing that suppression opened.
pub open spec fn notice_chars() -> Seq<char> {
    "User Activity Detected"@
}

/// The status line of an indefinite run with the indicator at `pos`.
pub open spec fn awake_chars(pos: int) -> Seq<char> {
    "Staying Awake: "@ + seq![spin_symbol(pos)] + " "@
}

/// A quiet-window timer the shell must arm: after `wait_ms` it is to
/// send back `QuietElapsed` carrying this generation.
#[derive(Clone, Copy, PartialEq, Eq, Structural, Debug)]
pub struct TimerRequest {
    pub generation: u64,
    pub wait_ms: u64,
}

/// What the shell must do to close the tick.
#[derive(Clone, Copy, PartialEq, Eq, Structural, Debug)]
pub enum TickAction {
    /// The deadline passed: leave the loop.
    Stop,
    /// Press and release the synthetic key, holding it this long.
    Inject { hold_ms: u64 },
    /// Suppressed: sleep this long instead of injecting.
    Idle { idle_ms: u64 },
}

/// Everything one tick decides.
pub struct TickOutcome {
    /// Text for the status line, if any is to be shown.
    pub emit: Option<String>,
    /// A fresh quiet-window timer to arm, if activity was drained.
    pub timer: Option<TimerRequest>,
    /// How the tick ends.
    pub action: TickAction,
}

/// The keep-awake scheduler's state.
pub struct App {
    pub config: Config,
    pub ui: Ui,
    pub spinner: Spinner,
    pub suppress: SuppressionController,
}

impl App {
    pub open spec fn wf(&self) -> bool {
        self.spinner.wf()
    }

    pub fn new(config: Config) -> (a: App)
        ensures
            a.wf(),
            a.config == config,
            a.ui.line_len == 0,
            a.spinner.position() == 0,
            a.suppress == (SuppressionController { suppressed: false, generation: 0 }),
    {
        App {
            config,
            ui: Ui::new(),
            spinner: Spinner::new(),
            suppress: SuppressionController::new(),
        }
    }

    /// Feeds the drained signals, in arrival order, to the suppression
    /// controller; reports whether any was an activity signal.
    fn drain_events(&mut self, events: &Vec<TickEvent>) -> (saw: bool)
        requires
            old(self).suppress.generation + events@.len() <= u64::MAX,
        ensures
            final(self).suppress == fold_signals(old(self).suppress, events@),
            saw == has_activity(events@),
            final(self).config == old(self).config,
            final(self).ui == old(self).ui,
            final(self).spinner == old(self).spinner,
    {
        let ghost c0 = self.suppress;
        let ghost cfg0 = self.config;
        let ghost ui0 = self.ui;
        let ghost sp0 = self.spinner;
        let mut saw = false;
        let mut i: usize = 0;
        while i < events.len()
            invariant
                i <= events@.len(),
                c0.generation + events@.len() <= u64::MAX,
                self.suppress == fold_signals(c0, events@.take(i as int)),
                saw == has_activity(events@.take(i as int)),
                self.config == cfg0,
                self.ui == ui0,
                self.spinner == sp0,
            decreases events@.len() - i,
        {
            let ev = events[i];
            proof {
                assert(events@.take(i + 1) =~= events@.take(i as int).push(ev));
                lemma_fold_push(c0, events@.take(i as int), ev);
                lemma_has_activity_push(events@.take(i as int), ev);
                lemma_fold_generation_bound(c0, events@.take(i as int));
            }
            match ev {
                TickEvent::Activity => {
                    self.suppress.on_activity();
                    saw = true;
                },
                TickEvent::QuietElapsed(g) => {
                    self.suppress.on_quiet_elapsed(g);
                },
            }
            i = i + 1;
        }
        proof {
            assert(events@.take(events@.len() as int) =~= events@);
        }
        saw
    }

    /// One tick of the main loop: drains the signals, then decides.
    ///
    /// Stopping is decided by the deadline alone, every tick, whatever
    /// the suppression state. While not suppressed the tick shows the
    /// countdown (or the rotating indicator) and injects, pacing the
    /// loop by the configured hold time; while suppressed it only
    /// idles. Drained activity always arms a fresh quiet-window timer
    /// of the configured length and announces itself on the status
    /// line.
    pub fn tick(&mut self, deadline: &DeadlineClock, clock: &ClockSample, events: &Vec<TickEvent>)
        -> (r: TickOutcome)
        requires
            old(self).wf(),
            old(self).suppress.generation + events@.len() <= u64::MAX,
        ensures
            final(self).wf(),
            final(self).config == old(self).config,
            final(self).suppress == fold_signals(old(self).suppress, events@),
            (r.timer is Some) == has_activity(events@),
            r.timer matches Some(t) ==> t == (TimerRequest {
                generation: final(self).suppress.generation,
                wait_ms: old(self).config.user_input_wait_time_ms,
            }),
            (r.action is Stop) == deadline.spec_expired(*clock),
            !deadline.spec_expired(*clock) && fold_signals(old(self).suppress, events@).suppressed
                ==> r.action == (TickAction::Idle { idle_ms: IDLE_TICK_MS }),
            !deadline.spec_expired(*clock) && !fold_signals(old(self).suppress, events@).suppressed
                ==> r.action == (TickAction::Inject {
                hold_ms: old(self).config.key_press_time_ms,
            }),
            has_activity(events@) ==> (r.emit matches Some(e) && e@ == write_chars(
                old(self).ui.line_len as nat,
                notice_chars(),
            ) && final(self).ui.line_len == notice_chars().len()),
            has_activity(events@) ==> final(self).spinner == old(self).spinner,
            !has_activity(events@) && (deadline.spec_expired(*clock) || fold_signals(
                old(self).suppress,
                events@,
            ).suppressed) ==> (r.emit is None && final(self).ui == old(self).ui
                && final(self).spinner == old(self).spinner),
            !has_activity(events@) && !deadline.spec_expired(*clock) && !fold_signals(
                old(self).suppress,
                events@,
            ).suppressed && !(deadline is Indefinite) ==> (r.emit matches Some(e) && e@
                == write_chars(
                old(self).ui.line_len as nat,
                hms_chars(deadline.spec_remaining_secs(*clock) as nat),
            ) && final(self).ui.line_len == hms_chars(
                deadline.spec_remaining_secs(*clock) as nat,
            ).len() && final(self).spinner == old(self).spinner),
            !has_activity(events@) && !deadline.spec_expired(*clock) && !fold_signals(
                old(self).suppress,
                events@,
            ).suppressed && deadline is Indefinite ==> (r.emit matches Some(e)
                && final(self).spinner.position() == (old(self).spinner.position() + 1) % 4
                && e@ == write_chars(
                old(self).ui.line_len as nat,
                awake_chars(final(self).spinner.position()),
            ) && final(self).ui.line_len == awake_chars(final(self).spinner.position()).len()),
    {
        let saw = self.drain_events(events);
        let mut emit: Option<String> = None;
        let mut timer: Option<TimerRequest> = None;
        if saw {
            proof {
                reveal_strlit("User Activity Detected");
            }
            let msg = self.ui.write("User Activity Detected");
            emit = Some(msg);
            timer = Some(
                TimerRequest {
                    generation: self.suppress.generation,
                    wait_ms: self.config.user_input_wait_time_ms,
                },
            );
        }
        let action: TickAction;
        if deadline.is_expired(clock) {
            action = TickAction::Stop;
        } else if self.suppress.is_suppressed() {
            action = TickAction::Idle { idle_ms: IDLE_TICK_MS };
        } else {
            if !saw {
                match deadline {
                    DeadlineClock::Indefinite => {
                        proof {
                            reveal_strlit("Staying Awake: ");
                            reveal_strlit(" ");
                        }
                        let sym = self.spinner.next_char_str();
                        let mut st = String::new();
                        st.append("Staying Awake: ");
                        st.append(sym);
                        st.append(" ");
                        proof {
                            assert(st@ =~= awake_chars(self.spinner.position()));
                        }
                        let msg = self.ui.write(st.as_str());
                        emit = Some(msg);
                    },
                    _ => {
                        let rem = deadline.remaining_secs(clock);
                        let st = format_hms(rem);
                        let msg = self.ui.write(st.as_str());
                        emit = Some(msg);
                    },
                }
            }
            action = TickAction::Inject { hold_ms: self.config.key_press_time_ms };
        }
        TickOutcome { emit, timer, action }
    }
}

} // verus!
